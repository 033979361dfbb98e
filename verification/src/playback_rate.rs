//! Playback rate and its exact action on time.
//!
//! A rate is an IEEE-754 single-precision multiplier, held by its bit pattern. Every accepted
//! multiplier is a fraction `numerator / denominator` whose denominator is a power of two, so
//! wall time and media time convert into each other in integer arithmetic: a wall delta is
//! scaled down to a media delta by rounding towards zero, a media delta to a wall delay by
//! rounding up.
use crate::time::{lemma_duration_in_range, saturated, Duration, DURATION_MAX_NANOS};
use vstd::arithmetic::div_mod::{
    lemma_div_is_ordered, lemma_div_multiples_vanish, lemma_fundamental_div_mod,
    lemma_fundamental_div_mod_converse, lemma_mod_bound,
};
use vstd::arithmetic::mul::{lemma_mul_inequality, lemma_mul_is_commutative};
use vstd::arithmetic::power2::{
    lemma2_to64, lemma2_to64_rest, lemma_pow2_pos, lemma_pow2_strictly_increases,
    lemma_pow2_unfold, pow2,
};
use vstd::bits::lemma_u128_shr_is_div;
use vstd::prelude::*;

verus! {

/// Bit pattern of the lowest rate, 0.25.
pub const MIN_RATE_BITS: u32 = 0x3e80_0000;

/// Bit pattern of the normal rate, 1.0.
pub const NORMAL_RATE_BITS: u32 = 0x3f80_0000;

/// Bit pattern of the highest rate, 4.0.
pub const MAX_RATE_BITS: u32 = 0x4080_0000;

/// Two to the number of mantissa bits in a single-precision number.
pub const MANTISSA_RANGE: u32 = 0x80_0000;

/// The bit pattern of the sign.
pub const SIGN_BIT: u32 = 0x8000_0000;

/// The exponent field of a single-precision bit pattern.
pub open spec fn exponent_field(bits: u32) -> int {
    (bits as int / MANTISSA_RANGE as int) % 256
}

/// Whether the bit pattern is neither an infinity nor a NaN.
pub open spec fn is_finite_pattern(bits: u32) -> bool {
    exponent_field(bits) != 255
}

/// Whether the bit pattern is a positive number, taken among the finite ones.
pub open spec fn is_positive_pattern(bits: u32) -> bool {
    0 < bits < SIGN_BIT
}

/// The least integer that is not below `a / b`.
pub open spec fn ceil_div(a: int, b: int) -> int {
    (a + b - 1) / b
}

/// A checked multiplier of playback speed between 0.25 and 4.0.
#[derive(Debug, Clone, Copy, PartialEq, Eq, Structural)]
pub struct PlaybackRate {
    bits: u32,
}

/// A positive fraction with a power of two below the line.
#[derive(Debug, Clone, Copy)]
pub struct PlaybackRateRatio {
    /// The number above the line.
    pub numerator: u128,
    /// The exponent of the power of two below the line.
    pub denominator_shift: u32,
}

/// Why a multiplier is no playback rate.
#[derive(Debug, Clone, Copy, PartialEq, Eq, Structural)]
pub enum PlaybackRateValidationError {
    /// NaN and the infinities are no rate.
    NotFinite,
    /// Zero and the negative numbers are no rate.
    NonPositive,
    /// The multiplier is below the lowest rate.
    BelowMinimum,
    /// The multiplier is above the highest rate.
    AboveMaximum,
}

impl View for PlaybackRate {
    type V = u32;

    /// The bit pattern of the multiplier.
    closed spec fn view(&self) -> u32 {
        self.bits
    }
}

impl PlaybackRate {
    #[verifier::type_invariant]
    pub closed spec fn in_range(self) -> bool {
        MIN_RATE_BITS <= self.bits <= MAX_RATE_BITS
    }

    /// The range every rate lies in.
    pub open spec fn wf(self) -> bool {
        MIN_RATE_BITS <= self@ <= MAX_RATE_BITS
    }

    /// The significand of the multiplier.
    pub open spec fn numerator(self) -> int {
        MANTISSA_RANGE + self@ as int % MANTISSA_RANGE as int
    }

    /// The power of two by which the significand is divided.
    pub open spec fn denominator(self) -> int {
        pow2((150 - self@ as int / MANTISSA_RANGE as int) as nat) as int
    }

    /// The media time that passes in `wall` nanoseconds of wall time.
    pub open spec fn media_delta(self, wall: int) -> int {
        saturated(wall * self.numerator() / self.denominator())
    }

    /// The least wall time in which `media` nanoseconds of media time pass, however long.
    pub open spec fn exact_wall_delay(self, media: int) -> int {
        ceil_div(media * self.denominator(), self.numerator())
    }

    /// The least wall time in which `media` nanoseconds of media time pass.
    pub open spec fn wall_delay(self, media: int) -> int {
        saturated(self.exact_wall_delay(media))
    }

    /// The lowest rate.
    pub fn min_rate() -> (r: Self)
        ensures
            r@ == MIN_RATE_BITS,
    {
        PlaybackRate { bits: MIN_RATE_BITS }
    }

    /// The normal rate.
    pub fn normal() -> (r: Self)
        ensures
            r@ == NORMAL_RATE_BITS,
    {
        PlaybackRate { bits: NORMAL_RATE_BITS }
    }

    /// The highest rate.
    pub fn max_rate() -> (r: Self)
        ensures
            r@ == MAX_RATE_BITS,
    {
        PlaybackRate { bits: MAX_RATE_BITS }
    }

    /// The rate with a bit pattern, or what is wrong with it.
    pub closed spec fn checked(multiplier_bits: u32) -> Result<Self, PlaybackRateValidationError> {
        if !is_finite_pattern(multiplier_bits) {
            Err(PlaybackRateValidationError::NotFinite)
        } else if !is_positive_pattern(multiplier_bits) {
            Err(PlaybackRateValidationError::NonPositive)
        } else if multiplier_bits < MIN_RATE_BITS {
            Err(PlaybackRateValidationError::BelowMinimum)
        } else if multiplier_bits > MAX_RATE_BITS {
            Err(PlaybackRateValidationError::AboveMaximum)
        } else {
            Ok(PlaybackRate { bits: multiplier_bits })
        }
    }

    /// Accepts the single-precision multiplier with this bit pattern where it lies between the
    /// lowest and the highest rate.
    pub fn new(multiplier_bits: u32) -> (r: Result<Self, PlaybackRateValidationError>)
        ensures
            r == Err::<Self, _>(PlaybackRateValidationError::NotFinite) <==> !is_finite_pattern(
                multiplier_bits,
            ),
            r == Err::<Self, _>(PlaybackRateValidationError::NonPositive) <==> is_finite_pattern(
                multiplier_bits,
            ) && !is_positive_pattern(multiplier_bits),
            r == Err::<Self, _>(PlaybackRateValidationError::BelowMinimum) <==> 0 < multiplier_bits
                < MIN_RATE_BITS,
            r == Err::<Self, _>(PlaybackRateValidationError::AboveMaximum) <==> is_finite_pattern(
                multiplier_bits,
            ) && MAX_RATE_BITS < multiplier_bits < SIGN_BIT,
            r is Ok <==> MIN_RATE_BITS <= multiplier_bits <= MAX_RATE_BITS,
            r matches Ok(rate) ==> rate@ == multiplier_bits,
            r == Self::checked(multiplier_bits),
    {
        if (multiplier_bits / MANTISSA_RANGE) % 256 == 255 {
            return Err(PlaybackRateValidationError::NotFinite);
        }
        if multiplier_bits >= SIGN_BIT || multiplier_bits == 0 {
            return Err(PlaybackRateValidationError::NonPositive);
        }
        if multiplier_bits < MIN_RATE_BITS {
            return Err(PlaybackRateValidationError::BelowMinimum);
        }
        if multiplier_bits > MAX_RATE_BITS {
            return Err(PlaybackRateValidationError::AboveMaximum);
        }
        Ok(PlaybackRate { bits: multiplier_bits })
    }

    /// The bit pattern of the multiplier.
    pub fn to_bits(self) -> (r: u32)
        ensures
            r == self@,
            self.wf(),
    {
        proof {
            use_type_invariant(&self);
        }
        self.bits
    }

    /// Whether media plays faster than at the normal rate.
    pub fn is_faster_than_normal(self) -> (r: bool)
        ensures
            r == (self@ > NORMAL_RATE_BITS),
            r <==> self.numerator() > self.denominator(),
    {
        proof {
            use_type_invariant(&self);
            lemma_rate_fraction(self);
            lemma_faster_than_normal(self);
        }
        self.bits > NORMAL_RATE_BITS
    }

    /// The multiplier as a fraction.
    pub fn binary_ratio(self) -> (r: PlaybackRateRatio)
        ensures
            r.numerator == self.numerator(),
            21 <= r.denominator_shift <= 25,
            pow2(r.denominator_shift as nat) == self.denominator(),
    {
        proof {
            use_type_invariant(&self);
            lemma_rate_fraction(self);
        }
        let exponent: u32 = self.bits / MANTISSA_RANGE;
        let significand: u32 = MANTISSA_RANGE + self.bits % MANTISSA_RANGE;
        PlaybackRateRatio { numerator: significand as u128, denominator_shift: 150 - exponent }
    }

    /// The media time that passes in `wall_delta`, rounded towards zero.
    pub fn scale_wall_delta_to_media_delta(self, wall_delta: Duration) -> (r: Duration)
        ensures
            r@ == self.media_delta(wall_delta@),
            self.wf(),
            wall_delta.wf(),
            r.wf(),
    {
        broadcast use lemma_duration_in_range;

        proof {
            use_type_invariant(&self);
            use_type_invariant(&wall_delta);
            lemma_rate_fraction(self);
        }
        let ratio = self.binary_ratio();
        let nanos: u128 = wall_delta.as_nanos();
        proof {
            lemma_scaled_fits(nanos as int, self.numerator());
        }
        let scaled: u128 = shift_right_or_zero(nanos * ratio.numerator, ratio.denominator_shift);
        let result = Duration::from_nanos_saturating(scaled);
        proof {
            use_type_invariant(&result);
        }
        result
    }

    /// The wall time after which `media_delta` has passed, rounded up. A positive media delta
    /// gives a positive delay.
    pub fn scale_media_delta_to_wall_delay(self, media_delta: Duration) -> (r: Duration)
        ensures
            r@ == self.wall_delay(media_delta@),
            media_delta@ > 0 ==> r@ > 0,
            self.wf(),
            media_delta.wf(),
            r.wf(),
    {
        broadcast use lemma_duration_in_range;

        proof {
            use_type_invariant(&self);
            use_type_invariant(&media_delta);
            lemma_rate_fraction(self);
        }
        let ratio = self.binary_ratio();
        let nanos: u128 = media_delta.as_nanos();
        proof {
            lemma_scaled_fits(nanos as int, self.denominator());
        }
        let shifted: u128 = shift_left_saturating(nanos, ratio.denominator_shift);
        let rounded: u128 = div_ceil_saturating(shifted, ratio.numerator);
        let result = Duration::from_nanos_saturating(rounded);
        proof {
            use_type_invariant(&result);
            if media_delta@ > 0 {
                lemma_wall_delay_positive(self, media_delta@);
            }
        }
        result
    }
}

impl Default for PlaybackRate {
    fn default() -> (r: Self)
        ensures
            r@ == NORMAL_RATE_BITS,
    {
        PlaybackRate::normal()
    }
}

impl PlaybackRateValidationError {
    /// The text of the error.
    pub open spec fn spec_message(self) -> Seq<char> {
        match self {
            PlaybackRateValidationError::NotFinite => "playback rate must be finite"@,
            PlaybackRateValidationError::NonPositive => "playback rate must be positive"@,
            PlaybackRateValidationError::BelowMinimum => "playback rate must be at least 0.25x"@,
            PlaybackRateValidationError::AboveMaximum => "playback rate must be at most 4x"@,
        }
    }

    /// A short explanation of the error.
    pub fn message(&self) -> (r: String)
        ensures
            r@ == self.spec_message(),
    {
        match self {
            PlaybackRateValidationError::NotFinite => "playback rate must be finite".to_owned(),
            PlaybackRateValidationError::NonPositive => "playback rate must be positive".to_owned(),
            PlaybackRateValidationError::BelowMinimum => {
                "playback rate must be at least 0.25x".to_owned()
            },
            PlaybackRateValidationError::AboveMaximum => {
                "playback rate must be at most 4x".to_owned()
            },
        }
    }
}

/// `value` divided by a power of two, rounded towards zero.
pub fn shift_right_or_zero(value: u128, shift: u32) -> (r: u128)
    ensures
        r == value as int / pow2(shift as nat) as int,
{
    proof {
        lemma_pow2_pos(shift as nat);
    }
    if shift >= 128 {
        proof {
            lemma_pow2_128();
            if shift > 128 {
                lemma_pow2_strictly_increases(128, shift as nat);
            }
            lemma_fundamental_div_mod_converse(
                value as int,
                pow2(shift as nat) as int,
                0,
                value as int,
            );
        }
        0
    } else {
        proof {
            lemma_u128_shr_is_div(value, shift as u128);
        }
        value >> (shift as u128)
    }
}

/// `value` times a power of two, or the largest number where the product does not fit.
pub fn shift_left_saturating(value: u128, shift: u32) -> (r: u128)
    ensures
        r == if value * pow2(shift as nat) > u128::MAX {
            u128::MAX as int
        } else {
            value * pow2(shift as nat)
        },
{
    proof {
        lemma2_to64();
    }
    let mut product: u128 = value;
    let mut done: u32 = 0;
    while done < shift
        invariant
            done <= shift,
            product == value * pow2(done as nat),
        decreases shift - done,
    {
        proof {
            lemma_pow2_unfold((done + 1) as nat);
            assert(value * pow2((done + 1) as nat) == 2 * product) by (nonlinear_arith)
                requires
                    pow2((done + 1) as nat) == 2 * pow2(done as nat),
                    product == value * pow2(done as nat),
            ;
        }
        if product > u128::MAX / 2 {
            proof {
                if done + 1 < shift {
                    lemma_pow2_strictly_increases((done + 1) as nat, shift as nat);
                }
                lemma_mul_inequality(
                    pow2((done + 1) as nat) as int,
                    pow2(shift as nat) as int,
                    value as int,
                );
                lemma_mul_is_commutative(value as int, pow2((done + 1) as nat) as int);
                lemma_mul_is_commutative(value as int, pow2(shift as nat) as int);
            }
            return u128::MAX;
        }
        product = product * 2;
        done = done + 1;
    }
    product
}

/// The quotient rounded up, or the largest number where `denominator` is zero.
pub fn div_ceil_saturating(numerator: u128, denominator: u128) -> (r: u128)
    ensures
        denominator == 0 ==> r == u128::MAX,
        denominator > 0 ==> r == ceil_div(numerator as int, denominator as int),
{
    if denominator == 0 {
        return u128::MAX;
    }
    let quotient: u128 = numerator / denominator;
    let remainder: u128 = numerator % denominator;
    proof {
        lemma_fundamental_div_mod(numerator as int, denominator as int);
        lemma_mod_bound(numerator as int, denominator as int);
        let n = numerator as int;
        let d = denominator as int;
        if remainder == 0 {
            lemma_fundamental_div_mod_converse(n + d - 1, d, quotient as int, d - 1);
        } else {
            assert(n + d - 1 == d * (quotient + 1) + (remainder - 1)) by (nonlinear_arith)
                requires
                    n == d * quotient + remainder,
            ;
            lemma_fundamental_div_mod_converse(n + d - 1, d, quotient + 1, remainder - 1);
            assert(quotient < u128::MAX) by (nonlinear_arith)
                requires
                    numerator as int == denominator * quotient + remainder,
                    remainder > 0,
                    denominator > 0,
                    numerator <= u128::MAX,
            ;
        }
    }
    if remainder == 0 {
        quotient
    } else {
        quotient.saturating_add(1)
    }
}

proof fn lemma_pow2_128()
    ensures
        pow2(128) == u128::MAX + 1,
{
    lemma2_to64();
    lemma2_to64_rest();
    vstd::arithmetic::power2::lemma_pow2_adds(64, 64);
    assert(pow2(64) * pow2(64) == u128::MAX + 1) by (nonlinear_arith)
        requires
            pow2(64) == 0x1_0000_0000_0000_0000,
    ;
}

/// A rate that exists lies in the range of rates.
pub broadcast proof fn lemma_rate_in_range(rate: PlaybackRate)
    requires
        #[trigger] rate.in_range(),
    ensures
        rate.wf(),
{
}

/// Bounds on the two sides of a rate's fraction.
pub proof fn lemma_rate_fraction(rate: PlaybackRate)
    requires
        rate.wf(),
    ensures
        125 <= rate@ as int / MANTISSA_RANGE as int <= 129,
        0x80_0000 <= rate.numerator() < 0x100_0000,
        0x20_0000 <= rate.denominator() <= 0x200_0000,
{
    lemma2_to64();
    let e = rate@ as int / MANTISSA_RANGE as int;
    assert(125 <= e <= 129);
    assert(rate.denominator() == pow2((150 - e) as nat));
    if e == 125 {
        assert(rate.denominator() == pow2(25));
    } else if e == 126 {
        assert(rate.denominator() == pow2(24));
    } else if e == 127 {
        assert(rate.denominator() == pow2(23));
    } else if e == 128 {
        assert(rate.denominator() == pow2(22));
    } else {
        assert(rate.denominator() == pow2(21));
    }
}

proof fn lemma_faster_than_normal(rate: PlaybackRate)
    requires
        rate.wf(),
    ensures
        rate@ > NORMAL_RATE_BITS <==> rate.numerator() > rate.denominator(),
{
    lemma2_to64();
    let e = rate@ as int / MANTISSA_RANGE as int;
    if e == 125 {
        assert(rate.denominator() == pow2(25));
    } else if e == 126 {
        assert(rate.denominator() == pow2(24));
    } else if e == 127 {
        assert(rate.denominator() == pow2(23));
    } else if e == 128 {
        assert(rate.denominator() == pow2(22));
    } else {
        assert(rate.denominator() == pow2(21));
    }
}

proof fn lemma_scaled_fits(nanos: int, factor: int)
    requires
        0 <= nanos <= DURATION_MAX_NANOS,
        0 <= factor <= 0x200_0000,
    ensures
        0 <= nanos * factor <= u128::MAX,
{
    assert(0 <= nanos * factor <= DURATION_MAX_NANOS * 0x200_0000) by (nonlinear_arith)
        requires
            0 <= nanos <= DURATION_MAX_NANOS,
            0 <= factor <= 0x200_0000,
    ;
}

/// At the normal rate wall time and media time are the same.
pub proof fn law_normal_rate_is_identity(rate: PlaybackRate, delta: int)
    requires
        rate@ == NORMAL_RATE_BITS,
        0 <= delta <= DURATION_MAX_NANOS,
    ensures
        rate.media_delta(delta) == delta,
        rate.wall_delay(delta) == delta,
{
    lemma2_to64();
    assert(rate.denominator() == pow2(23));
    let d = rate.denominator();
    assert(rate.numerator() == d);
    lemma_div_multiples_vanish(delta, d);
    assert(delta * d == d * delta) by (nonlinear_arith);
    lemma_fundamental_div_mod_converse(delta * d + d - 1, d, delta, d - 1);
}

/// More wall time never gives less media time.
pub proof fn law_media_delta_is_monotone(rate: PlaybackRate, shorter: int, longer: int)
    requires
        rate.wf(),
        0 <= shorter <= longer,
    ensures
        0 <= rate.media_delta(shorter) <= rate.media_delta(longer),
{
    lemma_rate_fraction(rate);
    lemma_mul_inequality(shorter, longer, rate.numerator());
    assert(0 <= shorter * rate.numerator()) by (nonlinear_arith)
        requires
            0 <= shorter,
            0 <= rate.numerator(),
    ;
    lemma_div_is_ordered(shorter * rate.numerator(), longer * rate.numerator(), rate.denominator());
    vstd::arithmetic::div_mod::lemma_div_pos_is_pos(
        shorter * rate.numerator(),
        rate.denominator(),
    );
}

/// A wall delay is the least one: media time reaches `media` exactly from that delay on.
pub proof fn law_wall_delay_is_least(rate: PlaybackRate, wall: int, media: int)
    requires
        rate.wf(),
        0 <= wall,
        0 <= media <= DURATION_MAX_NANOS,
    ensures
        rate.media_delta(wall) >= media <==> wall >= rate.exact_wall_delay(media),
{
    lemma_rate_fraction(rate);
    let num = rate.numerator();
    let den = rate.denominator();
    let product = wall * num;
    let q = product / den;
    lemma_fundamental_div_mod(product, den);
    lemma_mod_bound(product, den);
    let goal = media * den;
    let least = ceil_div(goal, num);
    lemma_fundamental_div_mod(goal + num - 1, num);
    lemma_mod_bound(goal + num - 1, num);
    assert(q >= media <==> product >= goal) by (nonlinear_arith)
        requires
            product == den * q + product % den,
            0 <= product % den < den,
            goal == media * den,
            den > 0,
    ;
    assert(wall >= least <==> product >= goal) by (nonlinear_arith)
        requires
            product == wall * num,
            goal + num - 1 == num * least + (goal + num - 1) % num,
            0 <= (goal + num - 1) % num < num,
            num > 0,
    ;
}

/// A positive media delta takes a positive wall delay.
pub proof fn lemma_wall_delay_positive(rate: PlaybackRate, media: int)
    requires
        rate.wf(),
        0 < media <= DURATION_MAX_NANOS,
    ensures
        rate.exact_wall_delay(media) > 0,
        rate.wall_delay(media) > 0,
{
    law_wall_delay_is_least(rate, 0, media);
    lemma_rate_fraction(rate);
    let den = rate.denominator();
    lemma_fundamental_div_mod_converse(0, den, 0, 0);
}

/// The fraction of a rate is the number that its bit pattern stands for: with the exponent field
/// `e` and the mantissa field `m` of the pattern, the fraction is `(2^23 + m) / 2^(150 - e)`.
pub proof fn law_fraction_is_the_number_of_the_pattern(
    bits: u32,
    rate: PlaybackRate,
    ratio: PlaybackRateRatio,
)
    requires
        call_ensures(
            PlaybackRate::new,
            (bits,),
            Ok::<PlaybackRate, PlaybackRateValidationError>(rate),
        ),
        call_ensures(PlaybackRate::binary_ratio, (rate,), ratio),
    ensures
        ratio.numerator * pow2((150 - bits as int / 0x80_0000) as nat) == (0x80_0000 + bits as int
            % 0x80_0000) * pow2(ratio.denominator_shift as nat),
{
    assert(bits as int / 0x80_0000 <= 129);
}

/// Between two powers of two a rate grows evenly with its bit pattern: fractions over the same
/// denominator differ by exactly as much as the patterns. At a power of two the numerator is the
/// same, and a pattern with the next exponent and the same mantissa is twice the rate.
pub proof fn law_rate_is_linear_in_the_pattern(
    lower_bits: u32,
    higher_bits: u32,
    lower: PlaybackRate,
    higher: PlaybackRate,
    lower_ratio: PlaybackRateRatio,
    higher_ratio: PlaybackRateRatio,
)
    requires
        call_ensures(
            PlaybackRate::new,
            (lower_bits,),
            Ok::<PlaybackRate, PlaybackRateValidationError>(lower),
        ),
        call_ensures(
            PlaybackRate::new,
            (higher_bits,),
            Ok::<PlaybackRate, PlaybackRateValidationError>(higher),
        ),
        call_ensures(PlaybackRate::binary_ratio, (lower,), lower_ratio),
        call_ensures(PlaybackRate::binary_ratio, (higher,), higher_ratio),
    ensures
        lower_bits as int / 0x80_0000 == higher_bits as int / 0x80_0000 ==> {
            &&& higher_ratio.numerator - lower_ratio.numerator == higher_bits - lower_bits
            &&& pow2(higher_ratio.denominator_shift as nat) == pow2(
                lower_ratio.denominator_shift as nat,
            )
        },
        higher_bits == lower_bits + 0x80_0000 ==> {
            &&& higher_ratio.numerator == lower_ratio.numerator
            &&& pow2(lower_ratio.denominator_shift as nat) == 2 * pow2(
                higher_ratio.denominator_shift as nat,
            )
        },
        lower_bits == 0x3f80_0000 ==> lower_ratio.numerator == pow2(
            lower_ratio.denominator_shift as nat,
        ),
        lower_bits == 0x4000_0000 ==> lower_ratio.numerator == 2 * pow2(
            lower_ratio.denominator_shift as nat,
        ),
{
    lemma2_to64();
    if higher_bits == lower_bits + 0x80_0000 {
        let e = lower_bits as int / 0x80_0000;
        assert(higher_bits as int / 0x80_0000 == e + 1);
        assert(higher_bits as int % 0x80_0000 == lower_bits as int % 0x80_0000);
        lemma_pow2_unfold((150 - e) as nat);
        assert((150 - e) as nat - 1 == (150 - (e + 1)) as nat);
    }
    if lower_bits == 0x3f80_0000 {
        assert(lower.denominator() == pow2(23));
    }
    if lower_bits == 0x4000_0000 {
        assert(lower.denominator() == pow2(22));
    }
}

/// The media time that passes in a wall time is the product of the wall time and the multiplier
/// without the rest of a nanosecond, where it does not exceed the longest span. The multiplier is
/// the number that the bit pattern stands for.
pub proof fn law_media_time_is_wall_time_times_the_rate(
    bits: u32,
    rate: PlaybackRate,
    wall: Duration,
    media: Duration,
)
    requires
        call_ensures(
            PlaybackRate::new,
            (bits,),
            Ok::<PlaybackRate, PlaybackRateValidationError>(rate),
        ),
        call_ensures(PlaybackRate::scale_wall_delta_to_media_delta, (rate, wall), media),
    ensures
        ({
            let significand = 0x80_0000 + bits as int % 0x80_0000;
            let unit = pow2((150 - bits as int / 0x80_0000) as nat) as int;
            &&& media@ * unit <= wall@ * significand
            &&& media@ < 18_446_744_073_709_551_615_999_999_999 ==> wall@ * significand < (media@
                + 1) * unit
        }),
{
    lemma_rate_fraction(rate);
    let num = rate.numerator();
    let den = rate.denominator();
    let product = wall@ * num;
    lemma_fundamental_div_mod(product, den);
    lemma_mod_bound(product, den);
    let q = product / den;
    assert(media@ <= q);
    assert(media@ * den <= product) by (nonlinear_arith)
        requires
            media@ <= q,
            product == den * q + product % den,
            0 <= product % den < den,
            den > 0,
    ;
    if media@ < DURATION_MAX_NANOS {
        assert(product < (media@ + 1) * den) by (nonlinear_arith)
            requires
                media@ == q,
                product == den * q + product % den,
                0 <= product % den < den,
        ;
    }
}

/// The wall delay of a media time is the least whole number of nanoseconds in which that media
/// time passes, where it does not exceed the longest span: the delay times the multiplier reaches
/// it, and a nanosecond less does not.
pub proof fn law_wall_delay_is_media_time_over_the_rate(
    bits: u32,
    rate: PlaybackRate,
    media: Duration,
    wall: Duration,
)
    requires
        call_ensures(
            PlaybackRate::new,
            (bits,),
            Ok::<PlaybackRate, PlaybackRateValidationError>(rate),
        ),
        call_ensures(PlaybackRate::scale_media_delta_to_wall_delay, (rate, media), wall),
    ensures
        ({
            let significand = 0x80_0000 + bits as int % 0x80_0000;
            let unit = pow2((150 - bits as int / 0x80_0000) as nat) as int;
            &&& wall@ < 18_446_744_073_709_551_615_999_999_999 ==> media@ * unit <= wall@
                * significand
            &&& (wall@ - 1) * significand < media@ * unit
        }),
{
    lemma_rate_fraction(rate);
    let num = rate.numerator();
    let den = rate.denominator();
    let goal = media@ * den;
    let least = ceil_div(goal, num);
    lemma_fundamental_div_mod(goal + num - 1, num);
    lemma_mod_bound(goal + num - 1, num);
    assert(goal <= least * num && (least - 1) * num < goal) by (nonlinear_arith)
        requires
            goal + num - 1 == num * least + (goal + num - 1) % num,
            0 <= (goal + num - 1) % num < num,
            num > 0,
    ;
    assert(wall@ <= least);
    assert((wall@ - 1) * num < goal) by (nonlinear_arith)
        requires
            wall@ <= least,
            (least - 1) * num < goal,
            num > 0,
    ;
}

/// A bit pattern is a rate exactly where its number lies from a quarter to four. A pattern that is
/// no finite number is told so before anything else, then one that is not above zero, then on
/// which side of the range it lies. Media plays faster than normal exactly above one.
pub proof fn law_rate_is_checked(
    bits: u32,
    made: Result<PlaybackRate, PlaybackRateValidationError>,
    kept: u32,
    faster: bool,
)
    requires
        call_ensures(PlaybackRate::new, (bits,), made),
        made matches Ok(rate) ==> call_ensures(PlaybackRate::to_bits, (rate,), kept)
            && call_ensures(PlaybackRate::is_faster_than_normal, (rate,), faster),
    ensures
        made is Ok <==> 0x3e80_0000 <= bits <= 0x4080_0000,
        made is Ok ==> kept == bits && (faster <==> bits > 0x3f80_0000),
        (bits as int / 0x80_0000) % 256 == 255 ==> made == Err::<PlaybackRate, _>(
            PlaybackRateValidationError::NotFinite,
        ),
        (bits as int / 0x80_0000) % 256 != 255 && (bits == 0 || bits >= 0x8000_0000) ==> made
            == Err::<PlaybackRate, _>(PlaybackRateValidationError::NonPositive),
        0 < bits < 0x3e80_0000 ==> made == Err::<PlaybackRate, _>(
            PlaybackRateValidationError::BelowMinimum,
        ),
        0x4080_0000 < bits < 0x7f80_0000 ==> made == Err::<PlaybackRate, _>(
            PlaybackRateValidationError::AboveMaximum,
        ),
{
}

/// Whether a bit pattern is a rate, and which.
pub proof fn lemma_checked(bits: u32)
    ensures
        PlaybackRate::checked(bits) is Ok <==> 0x3e80_0000 <= bits <= 0x4080_0000,
        PlaybackRate::checked(bits) matches Ok(rate) ==> rate@ == bits,
{
}

/// The lowest, the normal and the highest rate are a quarter, one and four, and a rate that is not
/// chosen is the normal one.
pub proof fn law_named_rates(
    lowest: PlaybackRate,
    normal: PlaybackRate,
    highest: PlaybackRate,
    unchosen: PlaybackRate,
    faster: bool,
)
    requires
        call_ensures(PlaybackRate::min_rate, (), lowest),
        call_ensures(PlaybackRate::normal, (), normal),
        call_ensures(PlaybackRate::max_rate, (), highest),
        call_ensures(<PlaybackRate as Default>::default, (), unchosen),
        call_ensures(PlaybackRate::is_faster_than_normal, (unchosen,), faster),
    ensures
        lowest@ == 0x3e80_0000,
        normal@ == 0x3f80_0000,
        highest@ == 0x4080_0000,
        unchosen@ == 0x3f80_0000,
        !faster,
{
}

/// A quotient that is rounded up is the least number that, taken as often as the divisor says,
/// reaches the dividend.
pub proof fn law_quotient_is_rounded_up(numerator: u128, denominator: u128, quotient: u128)
    requires
        call_ensures(div_ceil_saturating, (numerator, denominator), quotient),
        denominator > 0,
    ensures
        quotient * denominator >= numerator,
        (quotient - 1) * denominator < numerator,
{
    let n = numerator as int;
    let d = denominator as int;
    let q = quotient as int;
    lemma_fundamental_div_mod(n + d - 1, d);
    lemma_mod_bound(n + d - 1, d);
    assert(d * q == q * d) by (nonlinear_arith);
    assert((q - 1) * d == q * d - d) by (nonlinear_arith);
}

/// The texts of the errors of a rate.
pub proof fn law_refused_rates_are_told(error: PlaybackRateValidationError, text: String)
    requires
        call_ensures(PlaybackRateValidationError::message, (&error,), text),
    ensures
        error is NotFinite ==> text@ == "playback rate must be finite"@,
        error is NonPositive ==> text@ == "playback rate must be positive"@,
        error is BelowMinimum ==> text@ == "playback rate must be at least 0.25x"@,
        error is AboveMaximum ==> text@ == "playback rate must be at most 4x"@,
{
}

} // verus!
