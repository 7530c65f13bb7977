//! Band-limited noise, one frame at a time.
//!
//! [`passband`] holds the two brick-wall masks that cut a spectrum down to a
//! band and its mirror image. [`noise`] holds the noise source: the state
//! that is sized by the first period and then only reused, and the stages
//! of a period that it decides. The samples themselves, and the transforms
//! between time and frequency, belong to the caller.

pub mod noise;
pub mod passband;
