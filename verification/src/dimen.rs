//! Sizes, positions and the display scale factor.

use vstd::prelude::*;

verus! {

/// A pair of coordinates.
#[derive(Clone, Copy, Debug, PartialEq, Eq)]
pub struct Vector2<T> {
    pub x: T,
    pub y: T,
}

/// A size or position in whole pixels, never negative.
pub type UVec2 = Vector2<u32>;

/// A position in whole pixels.
pub type IVec2 = Vector2<i32>;

impl<T> Vector2<T> {
    /// Builds the vector `(x, y)`.
    pub fn new(x: T, y: T) -> (v: Self)
        ensures
            v.x == x,
            v.y == y,
    {
        Vector2 { x, y }
    }
}

/// The number of physical pixels per logical pixel, held as the exact ratio
/// `numerator / denominator`.
#[derive(Clone, Copy, Debug, PartialEq, Eq)]
pub struct ScaleFactor {
    numerator: u32,
    denominator: u32,
}

/// The logical length that `physical` pixels cover at the scale
/// `numerator / denominator`: the quotient rounded down, and no more than
/// `u32::MAX`.
pub open spec fn scaled_down(physical: int, numerator: int, denominator: int) -> int
    recommends
        numerator > 0,
{
    let q = (physical * denominator) / numerator;
    if q > u32::MAX as int {
        u32::MAX as int
    } else {
        q
    }
}

impl ScaleFactor {
    /// Both parts of the ratio are positive.
    #[verifier::type_invariant]
    pub closed spec fn wf(&self) -> bool {
        self.numerator > 0 && self.denominator > 0
    }

    pub closed spec fn spec_numerator(&self) -> int {
        self.numerator as int
    }

    pub closed spec fn spec_denominator(&self) -> int {
        self.denominator as int
    }

    /// The scale at which one logical pixel is one physical pixel.
    pub fn identity() -> (s: Self)
        ensures
            s.wf(),
            s.spec_numerator() == 1,
            s.spec_denominator() == 1,
    {
        ScaleFactor { numerator: 1, denominator: 1 }
    }

    /// The scale `numerator / denominator`, or `None` where either part is
    /// zero.
    pub fn new(numerator: u32, denominator: u32) -> (r: Option<Self>)
        ensures
            r.is_some() <==> (numerator > 0 && denominator > 0),
            r matches Some(s) ==> s.wf() && s.spec_numerator() == numerator
                && s.spec_denominator() == denominator,
    {
        if numerator == 0 || denominator == 0 {
            None
        } else {
            Some(ScaleFactor { numerator, denominator })
        }
    }

    /// The upper part of the ratio, which is not zero.
    pub fn numerator(&self) -> (n: u32)
        ensures
            n == self.spec_numerator(),
            n > 0,
    {
        proof {
            use_type_invariant(self);
        }
        self.numerator
    }

    /// The lower part of the ratio, which is not zero.
    pub fn denominator(&self) -> (d: u32)
        ensures
            d == self.spec_denominator(),
            d > 0,
    {
        proof {
            use_type_invariant(self);
        }
        self.denominator
    }

    /// Converts a length in physical pixels to logical pixels.
    pub fn to_logical(&self, physical: u32) -> (logical: u32)
        ensures
            logical == scaled_down(
                physical as int,
                self.spec_numerator(),
                self.spec_denominator(),
            ),
    {
        proof {
            use_type_invariant(self);
        }
        assert(physical * self.denominator <= 0xffff_ffff * 0xffff_ffff) by (nonlinear_arith)
            requires
                physical <= 0xffff_ffff,
                self.denominator <= 0xffff_ffff,
        ;
        let product: u64 = (physical as u64) * (self.denominator as u64);
        let q: u64 = product / (self.numerator as u64);
        if q > u32::MAX as u64 {
            u32::MAX
        } else {
            q as u32
        }
    }

    /// Converts a size in physical pixels to logical pixels, each side by
    /// [`ScaleFactor::to_logical`].
    pub fn size_to_logical(&self, physical: UVec2) -> (logical: UVec2)
        ensures
            logical.x == scaled_down(
                physical.x as int,
                self.spec_numerator(),
                self.spec_denominator(),
            ),
            logical.y == scaled_down(
                physical.y as int,
                self.spec_numerator(),
                self.spec_denominator(),
            ),
    {
        Vector2 { x: self.to_logical(physical.x), y: self.to_logical(physical.y) }
    }

    /// Converts a position in physical pixels to logical pixels without
    /// loss: the whole pixels, rounded down, and the part of a pixel beyond
    /// them.
    pub fn position_to_logical_exact(&self, physical: IVec2) -> (logical: LogicalPosition)
        ensures
            is_exact_logical(
                logical.pixel.x as int,
                logical.part.x as int,
                logical.per as int,
                physical.x as int,
                self.spec_numerator(),
                self.spec_denominator(),
            ),
            is_exact_logical(
                logical.pixel.y as int,
                logical.part.y as int,
                logical.per as int,
                physical.y as int,
                self.spec_numerator(),
                self.spec_denominator(),
            ),
    {
        proof {
            use_type_invariant(self);
        }
        let d = self.denominator as i64;
        assert(-0x8000_0000 * 0xffff_ffff <= physical.x * d <= 0x8000_0000 * 0xffff_ffff
            && -0x8000_0000 * 0xffff_ffff <= physical.y * d <= 0x8000_0000 * 0xffff_ffff)
            by (nonlinear_arith)
            requires
                -0x8000_0000 <= physical.x <= 0x8000_0000,
                -0x8000_0000 <= physical.y <= 0x8000_0000,
                0 <= d <= 0xffff_ffff,
        ;
        let (px, rx) = floor_div((physical.x as i64) * d, self.numerator);
        let (py, ry) = floor_div((physical.y as i64) * d, self.numerator);
        LogicalPosition {
            pixel: Vector2 { x: px, y: py },
            part: Vector2 { x: rx, y: ry },
            per: self.numerator,
        }
    }
}

/// A position in logical pixels, exact to the part of a pixel: on each axis
/// it is `pixel + part / per`, with the part less than `per`.
#[derive(Clone, Copy, Debug, PartialEq, Eq)]
pub struct LogicalPosition {
    /// The whole logical pixels, rounded down.
    pub pixel: Vector2<i64>,
    /// What is left beyond the whole pixels, as so many `per`-ths of a
    /// pixel.
    pub part: UVec2,
    /// Into how many parts a logical pixel is cut: the scale's numerator.
    pub per: u32,
}

/// `pixel + part / per` is `physical` divided by the scale
/// `numerator / denominator`, exactly.
pub open spec fn is_exact_logical(
    pixel: int,
    part: int,
    per: int,
    physical: int,
    numerator: int,
    denominator: int,
) -> bool {
    &&& per == numerator
    &&& 0 <= part < per
    &&& pixel * numerator + part == physical * denominator
}

/// There is one exact logical position and no other: the whole pixels and
/// the part are fixed by the physical position and the scale.
pub proof fn lemma_exact_logical_is_unique(
    first: (int, int),
    second: (int, int),
    per: int,
    physical: int,
    numerator: int,
    denominator: int,
)
    requires
        is_exact_logical(first.0, first.1, per, physical, numerator, denominator),
        is_exact_logical(second.0, second.1, per, physical, numerator, denominator),
    ensures
        first == second,
{
    assert(first.0 == second.0) by (nonlinear_arith)
        requires
            first.0 * numerator + first.1 == second.0 * numerator + second.1,
            0 <= first.1 < numerator,
            0 <= second.1 < numerator,
    ;
}

/// The quotient of `a` by `n`, rounded down, and what is left over.
fn floor_div(a: i64, n: u32) -> (qr: (i64, u32))
    requires
        n > 0,
    ensures
        qr.0 * n + qr.1 == a,
        0 <= qr.1 < n,
{
    if a >= 0 {
        let q = a / (n as i64);
        let r = a % (n as i64);
        proof {
            vstd::arithmetic::div_mod::lemma_fundamental_div_mod(a as int, n as int);
            vstd::arithmetic::div_mod::lemma_mod_bound(a as int, n as int);
            assert(n * (a as int / n as int) == (a as int / n as int) * n) by (nonlinear_arith);
        }
        (q, r as u32)
    } else {
        let m = -(a + 1);
        let q = m / (n as i64);
        let r = m % (n as i64);
        proof {
            vstd::arithmetic::div_mod::lemma_fundamental_div_mod(m as int, n as int);
            vstd::arithmetic::div_mod::lemma_mod_bound(m as int, n as int);
            vstd::arithmetic::div_mod::lemma_div_pos_is_pos(m as int, n as int);
            vstd::arithmetic::div_mod::lemma_div_is_ordered_by_denominator(m as int, 1, n as int);
            vstd::arithmetic::div_mod::lemma_div_basics(m as int);
            assert((-q - 1) * n + (n - 1 - r) == a) by (nonlinear_arith)
                requires
                    m == n * q + r,
                    a == -m - 1,
            ;
        }
        (-q - 1, (n as i64 - 1 - r) as u32)
    }
}

/// Two to the power of `k`.
pub open spec fn two_to(k: nat) -> nat
    decreases k,
{
    if k == 0 {
        1
    } else {
        2 * two_to((k - 1) as nat)
    }
}

/// The sign of a single-precision number given by its bits: zero for a
/// number that is not negative.
pub open spec fn float_sign(bits: u32) -> u32 {
    bits >> 31
}

/// The exponent field of a single-precision number given by its bits.
pub open spec fn float_exponent_field(bits: u32) -> u32 {
    (bits >> 23) & 0xff
}

/// The fraction field of a single-precision number given by its bits.
pub open spec fn float_fraction(bits: u32) -> u32 {
    bits & 0x7f_ffff
}

/// Whether the bits are those of a number that is above zero and finite.
pub open spec fn float_is_positive_finite(bits: u32) -> bool {
    &&& float_sign(bits) == 0
    &&& float_exponent_field(bits) != 255
    &&& !(float_exponent_field(bits) == 0 && float_fraction(bits) == 0)
}

/// The whole number `m` of a finite single-precision number written as
/// `m * 2^x`.
pub open spec fn float_significand(bits: u32) -> nat {
    if float_exponent_field(bits) == 0 {
        float_fraction(bits) as nat
    } else {
        (float_fraction(bits) + 0x80_0000) as nat
    }
}

/// The power `x` of a finite single-precision number written as `m * 2^x`.
pub open spec fn float_exponent(bits: u32) -> int {
    if float_exponent_field(bits) == 0 {
        -149
    } else {
        float_exponent_field(bits) - 150
    }
}

/// `m * 2^x` with the twos moved out of `m` as far as `x` is below zero:
/// the same value, with `m` odd or `x` not negative.
pub open spec fn reduced(m: nat, x: int) -> (nat, int)
    decreases
            (if x < 0 {
                -x
            } else {
                0
            }),
{
    if x < 0 && m > 0 && m % 2 == 0 {
        reduced(m / 2, x + 1)
    } else {
        (m, x)
    }
}

/// The value `m * 2^x` as a ratio of whole numbers: over one where `x` is
/// not negative, and `m` over a power of two where it is.
pub open spec fn ratio_of(m: nat, x: int) -> (nat, nat) {
    if x >= 0 {
        (m * two_to(x as nat), 1)
    } else {
        (m, two_to((-x) as nat))
    }
}

/// The scale factor for the bits of a single-precision number: the number
/// itself as a ratio in lowest terms, where it is above zero and finite and
/// both parts of the ratio fit in 32 bits, and one otherwise.
pub open spec fn scale_of_bits(bits: u32) -> (nat, nat) {
    if !float_is_positive_finite(bits) {
        (1, 1)
    } else {
        let (m, x) = reduced(float_significand(bits), float_exponent(bits));
        let (n, d) = ratio_of(m, x);
        if n <= u32::MAX && d <= u32::MAX {
            (n, d)
        } else {
            (1, 1)
        }
    }
}

/// Moving twos out of `m` keeps the value: `k` twos were moved, `m` is the
/// reduced number times `2^k`, and the power went up by `k`. Afterwards the
/// number is odd or the power is not negative: the ratio is in lowest terms.
pub proof fn lemma_reduced_keeps_value(m: nat, x: int)
    requires
        m > 0,
    ensures
        ({
            let (r, y) = reduced(m, x);
            &&& x <= y
            &&& x >= 0 ==> y == x
            &&& x < 0 ==> y <= 0
            &&& r > 0
            &&& m == r * two_to((y - x) as nat)
            &&& y < 0 ==> r % 2 == 1
        }),
    decreases
            (if x < 0 {
                -x
            } else {
                0
            }),
{
    if x < 0 && m > 0 && m % 2 == 0 {
        lemma_reduced_keeps_value(m / 2, x + 1);
        let (r, y) = reduced(m / 2, x + 1);
        assert(reduced(m, x) == (r, y));
        assert(x + 1 <= y && y <= 0);
        assert(two_to((y - x) as nat) == 2 * two_to((y - x - 1) as nat));
        assert(m == r * two_to((y - x) as nat)) by (nonlinear_arith)
            requires
                m == 2 * (m / 2),
                m / 2 == r * two_to((y - x - 1) as nat),
                two_to((y - x) as nat) == 2 * two_to((y - x - 1) as nat),
        ;
    } else {
        assert(reduced(m, x) == (m, x));
        assert(two_to(0) == 1);
        assert(m == m * 1) by (nonlinear_arith);
    }
}

/// A larger power of two is a larger number.
proof fn lemma_two_to_grows(a: nat, b: nat)
    requires
        a <= b,
    ensures
        two_to(a) <= two_to(b),
        two_to(a) >= 1,
    decreases b,
{
    if a < b {
        lemma_two_to_grows(a, (b - 1) as nat);
    } else if a > 0 {
        lemma_two_to_grows((a - 1) as nat, (a - 1) as nat);
    }
}

proof fn lemma_two_to_32()
    ensures
        two_to(32) == 0x1_0000_0000,
        two_to(31) == 0x8000_0000,
{
    assert(two_to(8) == 256) by {
        reveal_with_fuel(two_to, 9);
    }
    assert(two_to(16) == 65536) by {
        lemma_two_to_sum(8, 8);
    }
    assert(two_to(31) == 0x8000_0000) by {
        lemma_two_to_sum(16, 15);
        lemma_two_to_sum(8, 7);
        assert(two_to(7) == 128) by {
            reveal_with_fuel(two_to, 8);
        }
    }
}

proof fn lemma_two_to_sum(a: nat, b: nat)
    ensures
        two_to(a + b) == two_to(a) * two_to(b),
    decreases b,
{
    if b > 0 {
        lemma_two_to_sum(a, (b - 1) as nat);
        assert(two_to(a + b) == 2 * two_to((a + b - 1) as nat));
        assert(two_to(a + b) == two_to(a) * two_to(b)) by (nonlinear_arith)
            requires
                two_to(a + b) == 2 * two_to((a + b - 1) as nat),
                two_to((a + b - 1) as nat) == two_to(a) * two_to((b - 1) as nat),
                two_to(b) == 2 * two_to((b - 1) as nat),
        ;
    } else {
        assert(two_to(a) * 1 == two_to(a)) by (nonlinear_arith);
    }
}

/// The scale factor that the backend gives as a single-precision number,
/// from the number's bits. Every finite number of that kind is a whole
/// number times a power of two, so the ratio is the number exactly, in
/// lowest terms, wherever both of its parts fit in 32 bits. It is one for
/// a number that is not above zero, not finite, or out of that range.
pub fn scale_factor_from_bits(bits: u32) -> (s: ScaleFactor)
    ensures
        s.spec_numerator() == scale_of_bits(bits).0,
        s.spec_denominator() == scale_of_bits(bits).1,
{
    let sign = bits >> 31;
    let field = (bits >> 23) & 0xff;
    let fraction = bits & 0x7f_ffff;
    assert(field <= 255 && fraction < 0x80_0000) by (bit_vector)
        requires
            field == (bits >> 23) & 0xff,
            fraction == bits & 0x7f_ffff,
    ;
    if sign != 0 || field == 255 || (field == 0 && fraction == 0) {
        return ScaleFactor::identity();
    }
    let mut m: u32 = if field == 0 {
        fraction
    } else {
        fraction + 0x80_0000
    };
    let mut x: i32 = if field == 0 {
        -149
    } else {
        field as i32 - 150
    };
    let ghost m0 = m as nat;
    let ghost x0 = x as int;
    while x < 0 && m % 2 == 0
        invariant
            0 < m < 0x100_0000,
            -149 <= x <= 105,
            reduced(m as nat, x as int) == reduced(m0, x0),
        decreases
                (if x < 0 {
                    -x
                } else {
                    0
                }),
    {
        m = m / 2;
        x = x + 1;
    }
    proof {
        lemma_two_to_32();
        assert(reduced(m as nat, x as int) == (m as nat, x as int));
        assert(reduced(float_significand(bits), float_exponent(bits)) == (m as nat, x as int));
        assert(two_to(0) == 1);
        assert(m * 1 == m) by (nonlinear_arith);
    }
    if x >= 0 {
        let ghost whole = m * two_to(x as nat);
        assert(scale_of_bits(bits) == if whole <= u32::MAX {
            (whole as nat, 1nat)
        } else {
            (1nat, 1nat)
        });
        let mut n: u64 = m as u64;
        let mut i: i32 = 0;
        while i < x
            invariant
                0 <= i <= x <= 105,
                0 < m < 0x100_0000,
                n == m * two_to(i as nat),
                n <= u32::MAX,
                whole == m * two_to(x as nat),
                scale_of_bits(bits) == if whole <= u32::MAX {
                    (whole as nat, 1nat)
                } else {
                    (1nat, 1nat)
                },
            decreases x - i,
        {
            if n > (u32::MAX as u64) / 2 {
                proof {
                    lemma_two_to_grows((i + 1) as nat, x as nat);
                    assert(two_to((i + 1) as nat) == 2 * two_to(i as nat));
                    assert(m * two_to(x as nat) >= 2 * n) by (nonlinear_arith)
                        requires
                            n == m * two_to(i as nat),
                            two_to((i + 1) as nat) == 2 * two_to(i as nat),
                            two_to((i + 1) as nat) <= two_to(x as nat),
                            m > 0,
                    ;
                }
                return ScaleFactor::identity();
            }
            proof {
                assert(two_to((i + 1) as nat) == 2 * two_to(i as nat));
                assert(2 * n == m * two_to((i + 1) as nat)) by (nonlinear_arith)
                    requires
                        n == m * two_to(i as nat),
                        two_to((i + 1) as nat) == 2 * two_to(i as nat),
                ;
            }
            n = n * 2;
            i = i + 1;
        }
        proof {
            lemma_two_to_grows(0, x as nat);
        }
        assert(n > 0) by (nonlinear_arith)
            requires
                n == m * two_to(x as nat),
                m > 0,
                two_to(x as nat) >= 1,
        ;
        ScaleFactor { numerator: n as u32, denominator: 1 }
    } else {
        if x < -31 {
            proof {
                lemma_two_to_grows(32, (-x) as nat);
            }
            return ScaleFactor::identity();
        }
        let mut d: u32 = 1;
        let mut i: i32 = 0;
        while i < -x
            invariant
                0 <= i <= -x <= 31,
                d == two_to(i as nat),
                1 <= d <= 0x8000_0000,
                two_to(31) == 0x8000_0000,
            decreases -x - i,
        {
            proof {
                lemma_two_to_grows((i + 1) as nat, 31);
                assert(two_to((i + 1) as nat) == 2 * two_to(i as nat));
            }
            d = d * 2;
            i = i + 1;
        }
        ScaleFactor { numerator: m, denominator: d }
    }
}

/// What is drawn to: the size in physical pixels and the scale factor. The
/// logical size is the one divided by the other, without rounding.
#[derive(Clone, Copy, Debug, PartialEq, Eq)]
pub struct Viewport {
    pub physical_size: UVec2,
    pub scale_factor: ScaleFactor,
}

impl Viewport {
    /// The viewport of the given physical size at the given scale.
    pub fn new(physical_size: UVec2, scale_factor: ScaleFactor) -> (v: Self)
        ensures
            v == (Viewport { physical_size, scale_factor }),
    {
        Viewport { physical_size, scale_factor }
    }
}

} // verus!
