//! Brick-wall masks over a spectrum.
//!
//! A spectrum of `bins` points taken at `sample_rate` Hz holds, in bin `bin`,
//! the frequency `bin * sample_rate / bins`. The upper half of the bins are
//! the mirror images of the lower half: bin `bins - k` mirrors bin `k`, and
//! stands for the frequency `sample_rate - k * sample_rate / bins`.
//!
//! Every comparison of a bin's frequency with a cutoff is exact: instead of
//! dividing, both sides are multiplied by `bins`. A bin that sits exactly on
//! a cutoff, or on the mirror image of one, is therefore never silenced.
//!
//! The masks never look at what a bin holds, so they work for any `Copy`
//! sample type; the caller says which value is silence.
//!
//! No cutoff is refused. A low-pass cutoff from half the sample rate up
//! leaves no stopband, and a high-pass cutoff above half the sample rate
//! leaves no passband: the masks then pass, or silence, everything
//! ([`lemma_low_pass_without_stopband`], [`lemma_high_pass_without_passband`]).

use vstd::prelude::*;

verus! {

/// Lower edge of the passband of the noise source, in Hz.
pub const LOW_CUTOFF_HZ: u32 = 100;

/// Upper edge of the passband of the noise source, in Hz.
pub const HIGH_CUTOFF_HZ: u32 = 900;

/// Bin `bin` of `bins` lies strictly above `hz`.
pub open spec fn bin_above(bin: int, bins: int, sample_rate: int, hz: int) -> bool {
    bin * sample_rate > hz * bins
}

/// Bin `bin` of `bins` lies strictly below `hz`.
pub open spec fn bin_below(bin: int, bins: int, sample_rate: int, hz: int) -> bool {
    bin * sample_rate < hz * bins
}

/// Bin `bin` of `bins` lies exactly on `hz`.
pub open spec fn bin_at(bin: int, bins: int, sample_rate: int, hz: int) -> bool {
    bin * sample_rate == hz * bins
}

/// The bins that a low-pass mask silences: those strictly above the cutoff
/// and strictly below its mirror image, `sample_rate - cutoff`.
pub open spec fn low_pass_rejects(bin: int, bins: int, sample_rate: int, cutoff: int) -> bool {
    bin_above(bin, bins, sample_rate, cutoff) && bin_below(
        bin,
        bins,
        sample_rate,
        sample_rate - cutoff,
    )
}

/// The bins that a high-pass mask silences: those strictly below the cutoff
/// or strictly above its mirror image, `sample_rate - cutoff`.
pub open spec fn high_pass_rejects(bin: int, bins: int, sample_rate: int, cutoff: int) -> bool {
    bin_below(bin, bins, sample_rate, cutoff) || bin_above(
        bin,
        bins,
        sample_rate,
        sample_rate - cutoff,
    )
}

/// The bins that the two masks together silence.
pub open spec fn band_rejects(bin: int, bins: int, sample_rate: int, low: int, high: int) -> bool {
    low_pass_rejects(bin, bins, sample_rate, high) || high_pass_rejects(
        bin,
        bins,
        sample_rate,
        low,
    )
}

/// `n` samples of silence.
pub open spec fn silent<T>(n: nat, zero: T) -> Seq<T> {
    Seq::new(n, |i: int| zero)
}

/// `signal` after a low-pass mask: silence in the rejected bins, every other
/// bin as it was.
pub open spec fn low_passed<T>(signal: Seq<T>, zero: T, cutoff: int, sample_rate: int) -> Seq<T> {
    Seq::new(
        signal.len(),
        |i: int|
            if low_pass_rejects(i, signal.len() as int, sample_rate, cutoff) {
                zero
            } else {
                signal[i]
            },
    )
}

/// `signal` after a high-pass mask: silence in the rejected bins, every other
/// bin as it was.
pub open spec fn high_passed<T>(signal: Seq<T>, zero: T, cutoff: int, sample_rate: int) -> Seq<
    T,
> {
    Seq::new(
        signal.len(),
        |i: int|
            if high_pass_rejects(i, signal.len() as int, sample_rate, cutoff) {
                zero
            } else {
                signal[i]
            },
    )
}

/// `signal` after the low-pass mask at `high` followed by the high-pass mask
/// at `low`.
pub open spec fn band_limited<T>(
    signal: Seq<T>,
    zero: T,
    low: int,
    high: int,
    sample_rate: int,
) -> Seq<T> {
    high_passed(low_passed(signal, zero, high, sample_rate), zero, low, sample_rate)
}

/// The product of a bin index or a length with a rate in Hz fits in 128 bits.
proof fn lemma_product_fits(count: usize, hz: u32)
    ensures
        count * hz <= u128::MAX,
        count * hz == hz * count,
{
    assert(count * hz <= 0xffff_ffff_ffff_ffff * 0xffff_ffff && count * hz == hz * count)
        by (nonlinear_arith)
        requires
            0 <= count <= 0xffff_ffff_ffff_ffff,
            0 <= hz <= 0xffff_ffff,
    ;
}

/// `count * hz`, which no `usize` and `u32` can overflow.
fn scaled(count: usize, hz: u32) -> (product: u128)
    ensures
        product == count * hz,
        product == hz * count,
{
    proof {
        lemma_product_fits(count, hz);
    }
    (count as u128) * (hz as u128)
}

/// Silences every bin of `signal` whose frequency lies strictly between
/// `cutoff` and `sample_rate - cutoff`, by writing `zero` into it. The other
/// bins, those on the two edges among them, keep their values.
pub fn low_pass_filter<T: Copy>(signal: &mut [T], zero: T, cutoff: u32, sample_rate: u32)
    ensures
        final(signal)@ == low_passed(old(signal)@, zero, cutoff as int, sample_rate as int),
{
    let n: usize = signal.len();
    let edge: u128 = scaled(n, cutoff);
    let mirror: u128 = if cutoff <= sample_rate {
        scaled(n, sample_rate - cutoff)
    } else {
        0
    };
    let mut i: usize = 0;
    while i < n
        invariant
            i <= n,
            n == old(signal)@.len(),
            signal@.len() == n,
            edge == cutoff * n,
            cutoff <= sample_rate ==> mirror == (sample_rate - cutoff) * n,
            cutoff > sample_rate ==> mirror == 0,
            forall|j: int|
                0 <= j < i ==> signal@[j] == low_passed(
                    old(signal)@,
                    zero,
                    cutoff as int,
                    sample_rate as int,
                )[j],
            forall|j: int| i <= j < n ==> signal@[j] == old(signal)@[j],
        decreases n - i,
    {
        let position: u128 = scaled(i, sample_rate);
        proof {
            if cutoff > sample_rate {
                assert((sample_rate - cutoff) * n <= 0) by (nonlinear_arith)
                    requires
                        sample_rate - cutoff < 0,
                        n >= 0,
                ;
            }
        }
        if position > edge && position < mirror {
            signal[i] = zero;
        }
        i += 1;
    }
}

/// Silences every bin of `signal` whose frequency lies strictly below
/// `cutoff` or strictly above `sample_rate - cutoff`, by writing `zero` into
/// it. The other bins, those on the two edges among them, keep their values.
pub fn high_pass_filter<T: Copy>(signal: &mut [T], zero: T, cutoff: u32, sample_rate: u32)
    ensures
        final(signal)@ == high_passed(old(signal)@, zero, cutoff as int, sample_rate as int),
{
    let n: usize = signal.len();
    let edge: u128 = scaled(n, cutoff);
    let mirror: u128 = if cutoff <= sample_rate {
        scaled(n, sample_rate - cutoff)
    } else {
        0
    };
    let mut i: usize = 0;
    while i < n
        invariant
            i <= n,
            n == old(signal)@.len(),
            signal@.len() == n,
            edge == cutoff * n,
            cutoff <= sample_rate ==> mirror == (sample_rate - cutoff) * n,
            forall|j: int|
                0 <= j < i ==> signal@[j] == high_passed(
                    old(signal)@,
                    zero,
                    cutoff as int,
                    sample_rate as int,
                )[j],
            forall|j: int| i <= j < n ==> signal@[j] == old(signal)@[j],
        decreases n - i,
    {
        let position: u128 = scaled(i, sample_rate);
        proof {
            if cutoff > sample_rate {
                assert((sample_rate - cutoff) * n < 0) by (nonlinear_arith)
                    requires
                        sample_rate - cutoff < 0,
                        n > 0,
                ;
            }
        }
        if position < edge || cutoff > sample_rate || position > mirror {
            signal[i] = zero;
        }
        i += 1;
    }
}

/// The two masks together: a bin of the band-limited signal is silent where
/// either mask rejects it, and is the bin of the input everywhere else. The
/// length does not change.
pub proof fn lemma_band_limited_bins<T>(
    signal: Seq<T>,
    zero: T,
    low: int,
    high: int,
    sample_rate: int,
    bin: int,
)
    requires
        0 <= bin < signal.len(),
    ensures
        band_limited(signal, zero, low, high, sample_rate).len() == signal.len(),
        band_limited(signal, zero, low, high, sample_rate)[bin] == if band_rejects(
            bin,
            signal.len() as int,
            sample_rate,
            low,
            high,
        ) {
            zero
        } else {
            signal[bin]
        },
{
}

/// The stopband is silent, whatever the input held: after the two masks,
/// every bin strictly between `high` and `sample_rate - high`, every bin
/// strictly below `low`, and every bin strictly above `sample_rate - low`
/// holds `zero`.
pub proof fn lemma_stopband_is_silent<T>(
    signal: Seq<T>,
    zero: T,
    low: int,
    high: int,
    sample_rate: int,
    bin: int,
)
    requires
        0 <= bin < signal.len(),
        ({
            let bins = signal.len() as int;
            ||| bin_above(bin, bins, sample_rate, high) && bin_below(
                bin,
                bins,
                sample_rate,
                sample_rate - high,
            )
            ||| bin_below(bin, bins, sample_rate, low)
            ||| bin_above(bin, bins, sample_rate, sample_rate - low)
        }),
    ensures
        band_limited(signal, zero, low, high, sample_rate)[bin] == zero,
{
    lemma_band_limited_bins(signal, zero, low, high, sample_rate, bin);
}

/// The edges belong to the passband: with `low <= high` and
/// `low + high <= sample_rate`, a bin that lies exactly on `low`, on `high`,
/// or on the mirror image of either, comes through the two masks unchanged.
pub proof fn lemma_edge_bins_survive<T>(
    signal: Seq<T>,
    zero: T,
    low: int,
    high: int,
    sample_rate: int,
    bin: int,
)
    requires
        0 <= bin < signal.len(),
        low <= high,
        low + high <= sample_rate,
        ({
            let bins = signal.len() as int;
            ||| bin_at(bin, bins, sample_rate, low)
            ||| bin_at(bin, bins, sample_rate, high)
            ||| bin_at(bin, bins, sample_rate, sample_rate - high)
            ||| bin_at(bin, bins, sample_rate, sample_rate - low)
        }),
    ensures
        band_limited(signal, zero, low, high, sample_rate)[bin] == signal[bin],
{
    let bins = signal.len() as int;
    lemma_band_limited_bins(signal, zero, low, high, sample_rate, bin);
    assert(low * bins <= high * bins && high * bins <= (sample_rate - low) * bins && low * bins
        <= (sample_rate - high) * bins && (sample_rate - high) * bins <= (sample_rate - low)
        * bins) by (nonlinear_arith)
        requires
            bins > 0,
            low <= high,
            low + high <= sample_rate,
    ;
}

/// What the two masks leave: with `low + high <= sample_rate`, the bins that
/// come through are those from `low` to `high`, both edges included, and
/// those of the mirror image, from `sample_rate - high` to
/// `sample_rate - low`.
pub proof fn lemma_passband_is_the_band_and_its_mirror(
    bin: int,
    bins: int,
    sample_rate: int,
    low: int,
    high: int,
)
    requires
        0 <= bins,
        low + high <= sample_rate,
    ensures
        !band_rejects(bin, bins, sample_rate, low, high) <==> {
            ||| low * bins <= bin * sample_rate <= high * bins
            ||| (sample_rate - high) * bins <= bin * sample_rate <= (sample_rate - low) * bins
        },
{
    assert(high * bins <= (sample_rate - low) * bins && low * bins <= (sample_rate - high)
        * bins) by (nonlinear_arith)
        requires
            0 <= bins,
            low + high <= sample_rate,
    ;
}

/// Each mask treats a bin and its mirror image alike: bin `bin` is rejected
/// exactly when bin `bins - bin` is.
pub proof fn lemma_masks_are_mirror_symmetric(bin: int, bins: int, sample_rate: int, cutoff: int)
    ensures
        low_pass_rejects(bin, bins, sample_rate, cutoff) == low_pass_rejects(
            bins - bin,
            bins,
            sample_rate,
            cutoff,
        ),
        high_pass_rejects(bin, bins, sample_rate, cutoff) == high_pass_rejects(
            bins - bin,
            bins,
            sample_rate,
            cutoff,
        ),
{
    assert((bins - bin) * sample_rate == bins * sample_rate - bin * sample_rate && (sample_rate
        - cutoff) * bins == bins * sample_rate - cutoff * bins) by (nonlinear_arith);
}

/// A low-pass mask whose cutoff is at or above half the sample rate has no
/// stopband left: it changes nothing.
pub proof fn lemma_low_pass_without_stopband<T>(
    signal: Seq<T>,
    zero: T,
    cutoff: int,
    sample_rate: int,
)
    requires
        2 * cutoff >= sample_rate,
    ensures
        low_passed(signal, zero, cutoff, sample_rate) == signal,
{
    let bins = signal.len() as int;
    assert((sample_rate - cutoff) * bins <= cutoff * bins) by (nonlinear_arith)
        requires
            bins >= 0,
            2 * cutoff >= sample_rate,
    ;
}

/// A high-pass mask whose cutoff is above half the sample rate has no
/// passband left: it silences every bin.
pub proof fn lemma_high_pass_without_passband<T>(
    signal: Seq<T>,
    zero: T,
    cutoff: int,
    sample_rate: int,
)
    requires
        2 * cutoff > sample_rate,
    ensures
        high_passed(signal, zero, cutoff, sample_rate) == silent(signal.len(), zero),
{
    let bins = signal.len() as int;
    if bins > 0 {
        assert((sample_rate - cutoff) * bins < cutoff * bins) by (nonlinear_arith)
            requires
                bins > 0,
                2 * cutoff > sample_rate,
        ;
    }
}

} // verus!
