use crate::unit::Unit;
use vstd::prelude::*;

verus! {

/// Points per inch.
pub const PT_PER_IN: i64 = 72;

/// Thousandths of an inch per inch: the resolution of an [`In`].
pub const THOU_PER_IN: i64 = 1000;

/// Quotient of `a` by `b`, rounded toward zero, as machine integer division does.
pub open spec fn div_toward_zero(a: int, b: int) -> int {
    if a >= 0 {
        a / b
    } else {
        -((-a) / b)
    }
}

/// Remainder of `a` by `b` with the sign of `a`, as machine integer `%` does.
pub open spec fn rem_toward_zero(a: int, b: int) -> int {
    if a >= 0 {
        a % b
    } else {
        -((-a) % b)
    }
}

/// Whether an integer fits in an `i64`.
pub open spec fn fits_i64(v: int) -> bool {
    i64::MIN <= v <= i64::MAX
}

/// A length in inches, held as a whole number of thousandths of an inch:
/// `In(1500)` is one and a half inches.
#[derive(Debug, Default, Clone, Copy, PartialEq, Eq, Structural, PartialOrd, Ord, Hash)]
pub struct In(pub i64);

impl Unit for In {
    /// Thousandths of a point: thousandths of an inch times [`PT_PER_IN`].
    open spec fn pt_spec(&self) -> int {
        self.0 * PT_PER_IN
    }

    fn pt(&self) -> (r: i128) {
        (self.0 as i128) * (PT_PER_IN as i128)
    }
}

/// A length converts to points at exactly [`PT_PER_IN`] per inch.
pub proof fn lemma_pt_exact(v: i64)
    ensures
        In(v).pt_spec() == v * 72,
{
}

impl core::ops::Add for In {
    type Output = In;

    fn add(self, rhs: In) -> (r: In)
        ensures
            r.0 == self.0 + rhs.0,
    {
        In(((self.0 as i128) + (rhs.0 as i128)) as i64)
    }
}

impl vstd::std_specs::ops::AddSpecImpl for In {
    open spec fn obeys_add_spec() -> bool {
        true
    }

    open spec fn add_req(self, rhs: In) -> bool {
        fits_i64(self.0 + rhs.0)
    }

    open spec fn add_spec(self, rhs: In) -> In {
        In((self.0 + rhs.0) as i64)
    }
}

impl core::ops::Sub for In {
    type Output = In;

    fn sub(self, rhs: In) -> (r: In)
        ensures
            r.0 == self.0 - rhs.0,
    {
        In(((self.0 as i128) - (rhs.0 as i128)) as i64)
    }
}

impl vstd::std_specs::ops::SubSpecImpl for In {
    open spec fn obeys_sub_spec() -> bool {
        true
    }

    open spec fn sub_req(self, rhs: In) -> bool {
        fits_i64(self.0 - rhs.0)
    }

    open spec fn sub_spec(self, rhs: In) -> In {
        In((self.0 - rhs.0) as i64)
    }
}

impl core::ops::Mul for In {
    type Output = In;

    fn mul(self, rhs: In) -> (r: In)
        ensures
            r.0 == div_toward_zero(self.0 * rhs.0, THOU_PER_IN as int),
    {
        let p: i128 = (self.0 as i128) * (rhs.0 as i128);
        In((p / (THOU_PER_IN as i128)) as i64)
    }
}

impl vstd::std_specs::ops::MulSpecImpl for In {
    open spec fn obeys_mul_spec() -> bool {
        true
    }

    open spec fn mul_req(self, rhs: In) -> bool {
        fits_i64(div_toward_zero(self.0 * rhs.0, THOU_PER_IN as int))
    }

    open spec fn mul_spec(self, rhs: In) -> In {
        In((div_toward_zero(self.0 * rhs.0, THOU_PER_IN as int)) as i64)
    }
}

impl core::ops::Div for In {
    type Output = In;

    fn div(self, rhs: In) -> (r: In)
        ensures
            r.0 == div_toward_zero(self.0 * THOU_PER_IN, rhs.0 as int),
    {
        let p: i128 = (self.0 as i128) * (THOU_PER_IN as i128);
        In((p / (rhs.0 as i128)) as i64)
    }
}

impl vstd::std_specs::ops::DivSpecImpl for In {
    open spec fn obeys_div_spec() -> bool {
        true
    }

    open spec fn div_req(self, rhs: In) -> bool {
        rhs.0 != 0 && fits_i64(div_toward_zero(self.0 * THOU_PER_IN, rhs.0 as int))
    }

    open spec fn div_spec(self, rhs: In) -> In {
        In((div_toward_zero(self.0 * THOU_PER_IN, rhs.0 as int)) as i64)
    }
}

impl core::ops::Rem for In {
    type Output = In;

    fn rem(self, rhs: In) -> (r: In)
        ensures
            r.0 == rem_toward_zero(self.0 as int, rhs.0 as int),
    {
        In(((self.0 as i128) % (rhs.0 as i128)) as i64)
    }
}

impl vstd::std_specs::ops::RemSpecImpl for In {
    open spec fn obeys_rem_spec() -> bool {
        true
    }

    open spec fn rem_req(self, rhs: In) -> bool {
        rhs.0 != 0
    }

    open spec fn rem_spec(self, rhs: In) -> In {
        In((rem_toward_zero(self.0 as int, rhs.0 as int)) as i64)
    }
}

/// A quotient or remainder by a divisor larger in size than the dividend.
proof fn lemma_small_dividend(a: int, m: int)
    requires
        (m > 0 && -m < a < m) || (m < 0 && m < a < -m),
    ensures
        div_toward_zero(a, m) == 0,
        rem_toward_zero(a, m) == a,
{
    let x = if a >= 0 { a } else { -a };
    if m > 0 {
        assert(x / m == 0 && x % m == x) by (nonlinear_arith)
            requires 0 <= x < m;
    } else {
        assert(x / m == 0 && x % m == x) by (nonlinear_arith)
            requires 0 <= x < -m, m < 0;
    }
}

/// `a` plus `k` whole inches.
fn add_whole(a: i64, k: i128) -> (r: i64)
    requires
        fits_i64(a + k * THOU_PER_IN),
    ensures
        r == a + k * THOU_PER_IN,
{
    ((a as i128) + k * (THOU_PER_IN as i128)) as i64
}

/// `a` less `k` whole inches.
fn sub_whole(a: i64, k: i128) -> (r: i64)
    requires
        fits_i64(a - k * THOU_PER_IN),
    ensures
        r == a - k * THOU_PER_IN,
{
    ((a as i128) - k * (THOU_PER_IN as i128)) as i64
}

/// `a` times `k`.
fn mul_whole(a: i64, k: i128) -> (r: i64)
    requires
        fits_i64(a * k),
    ensures
        r == a * k,
{
    ((a as i128) * k) as i64
}

/// `a` divided by `k`, rounded toward zero.
fn div_whole(a: i64, k: i128) -> (r: i64)
    requires
        k != 0,
        fits_i64(div_toward_zero(a as int, k as int)),
    ensures
        r == div_toward_zero(a as int, k as int),
{
    ((a as i128) / k) as i64
}

/// The remainder of `a` by `k` whole inches, with the sign of `a`.
fn rem_whole(a: i64, k: i128) -> (r: i64)
    requires
        k != 0,
    ensures
        r == rem_toward_zero(a as int, k * THOU_PER_IN),
{
    if k > 0x1_0000_0000_0000_0000 || k < -0x1_0000_0000_0000_0000 {
        proof {
            lemma_small_dividend(a as int, k * THOU_PER_IN);
        }
        a
    } else {
        let m: i128 = k * (THOU_PER_IN as i128);
        let x: i128 = a as i128;
        proof {
            let (xi, mi) = (x as int, m as int);
            if xi >= 0 {
                assert(0 <= xi % mi <= xi) by (nonlinear_arith)
                    requires xi >= 0, mi != 0;
            } else {
                assert(0 <= (-xi) % mi <= -xi) by (nonlinear_arith)
                    requires -xi > 0, mi != 0;
            }
        }
        (x % m) as i64
    }
}

impl core::ops::Add<i8> for In {
    type Output = In;

    fn add(self, rhs: i8) -> (r: In)
        ensures
            r.0 == self.0 + rhs * THOU_PER_IN,
    {
        In(add_whole(self.0, rhs as i128))
    }
}

impl vstd::std_specs::ops::AddSpecImpl<i8> for In {
    open spec fn obeys_add_spec() -> bool {
        true
    }

    open spec fn add_req(self, rhs: i8) -> bool {
        fits_i64(self.0 + rhs * THOU_PER_IN)
    }

    open spec fn add_spec(self, rhs: i8) -> In {
        In((self.0 + rhs * THOU_PER_IN) as i64)
    }
}

impl core::ops::Sub<i8> for In {
    type Output = In;

    fn sub(self, rhs: i8) -> (r: In)
        ensures
            r.0 == self.0 - rhs * THOU_PER_IN,
    {
        In(sub_whole(self.0, rhs as i128))
    }
}

impl vstd::std_specs::ops::SubSpecImpl<i8> for In {
    open spec fn obeys_sub_spec() -> bool {
        true
    }

    open spec fn sub_req(self, rhs: i8) -> bool {
        fits_i64(self.0 - rhs * THOU_PER_IN)
    }

    open spec fn sub_spec(self, rhs: i8) -> In {
        In((self.0 - rhs * THOU_PER_IN) as i64)
    }
}

impl core::ops::Mul<i8> for In {
    type Output = In;

    fn mul(self, rhs: i8) -> (r: In)
        ensures
            r.0 == self.0 * rhs,
    {
        In(mul_whole(self.0, rhs as i128))
    }
}

impl vstd::std_specs::ops::MulSpecImpl<i8> for In {
    open spec fn obeys_mul_spec() -> bool {
        true
    }

    open spec fn mul_req(self, rhs: i8) -> bool {
        fits_i64(self.0 * rhs)
    }

    open spec fn mul_spec(self, rhs: i8) -> In {
        In((self.0 * rhs) as i64)
    }
}

impl core::ops::Div<i8> for In {
    type Output = In;

    fn div(self, rhs: i8) -> (r: In)
        ensures
            r.0 == div_toward_zero(self.0 as int, rhs as int),
    {
        In(div_whole(self.0, rhs as i128))
    }
}

impl vstd::std_specs::ops::DivSpecImpl<i8> for In {
    open spec fn obeys_div_spec() -> bool {
        true
    }

    open spec fn div_req(self, rhs: i8) -> bool {
        rhs != 0 && fits_i64(div_toward_zero(self.0 as int, rhs as int))
    }

    open spec fn div_spec(self, rhs: i8) -> In {
        In((div_toward_zero(self.0 as int, rhs as int)) as i64)
    }
}

impl core::ops::Rem<i8> for In {
    type Output = In;

    fn rem(self, rhs: i8) -> (r: In)
        ensures
            r.0 == rem_toward_zero(self.0 as int, rhs * THOU_PER_IN),
    {
        In(rem_whole(self.0, rhs as i128))
    }
}

impl vstd::std_specs::ops::RemSpecImpl<i8> for In {
    open spec fn obeys_rem_spec() -> bool {
        true
    }

    open spec fn rem_req(self, rhs: i8) -> bool {
        rhs != 0
    }

    open spec fn rem_spec(self, rhs: i8) -> In {
        In((rem_toward_zero(self.0 as int, rhs * THOU_PER_IN)) as i64)
    }
}

impl core::ops::Add<i16> for In {
    type Output = In;

    fn add(self, rhs: i16) -> (r: In)
        ensures
            r.0 == self.0 + rhs * THOU_PER_IN,
    {
        In(add_whole(self.0, rhs as i128))
    }
}

impl vstd::std_specs::ops::AddSpecImpl<i16> for In {
    open spec fn obeys_add_spec() -> bool {
        true
    }

    open spec fn add_req(self, rhs: i16) -> bool {
        fits_i64(self.0 + rhs * THOU_PER_IN)
    }

    open spec fn add_spec(self, rhs: i16) -> In {
        In((self.0 + rhs * THOU_PER_IN) as i64)
    }
}

impl core::ops::Sub<i16> for In {
    type Output = In;

    fn sub(self, rhs: i16) -> (r: In)
        ensures
            r.0 == self.0 - rhs * THOU_PER_IN,
    {
        In(sub_whole(self.0, rhs as i128))
    }
}

impl vstd::std_specs::ops::SubSpecImpl<i16> for In {
    open spec fn obeys_sub_spec() -> bool {
        true
    }

    open spec fn sub_req(self, rhs: i16) -> bool {
        fits_i64(self.0 - rhs * THOU_PER_IN)
    }

    open spec fn sub_spec(self, rhs: i16) -> In {
        In((self.0 - rhs * THOU_PER_IN) as i64)
    }
}

impl core::ops::Mul<i16> for In {
    type Output = In;

    fn mul(self, rhs: i16) -> (r: In)
        ensures
            r.0 == self.0 * rhs,
    {
        In(mul_whole(self.0, rhs as i128))
    }
}

impl vstd::std_specs::ops::MulSpecImpl<i16> for In {
    open spec fn obeys_mul_spec() -> bool {
        true
    }

    open spec fn mul_req(self, rhs: i16) -> bool {
        fits_i64(self.0 * rhs)
    }

    open spec fn mul_spec(self, rhs: i16) -> In {
        In((self.0 * rhs) as i64)
    }
}

impl core::ops::Div<i16> for In {
    type Output = In;

    fn div(self, rhs: i16) -> (r: In)
        ensures
            r.0 == div_toward_zero(self.0 as int, rhs as int),
    {
        In(div_whole(self.0, rhs as i128))
    }
}

impl vstd::std_specs::ops::DivSpecImpl<i16> for In {
    open spec fn obeys_div_spec() -> bool {
        true
    }

    open spec fn div_req(self, rhs: i16) -> bool {
        rhs != 0 && fits_i64(div_toward_zero(self.0 as int, rhs as int))
    }

    open spec fn div_spec(self, rhs: i16) -> In {
        In((div_toward_zero(self.0 as int, rhs as int)) as i64)
    }
}

impl core::ops::Rem<i16> for In {
    type Output = In;

    fn rem(self, rhs: i16) -> (r: In)
        ensures
            r.0 == rem_toward_zero(self.0 as int, rhs * THOU_PER_IN),
    {
        In(rem_whole(self.0, rhs as i128))
    }
}

impl vstd::std_specs::ops::RemSpecImpl<i16> for In {
    open spec fn obeys_rem_spec() -> bool {
        true
    }

    open spec fn rem_req(self, rhs: i16) -> bool {
        rhs != 0
    }

    open spec fn rem_spec(self, rhs: i16) -> In {
        In((rem_toward_zero(self.0 as int, rhs * THOU_PER_IN)) as i64)
    }
}

impl core::ops::Add<i32> for In {
    type Output = In;

    fn add(self, rhs: i32) -> (r: In)
        ensures
            r.0 == self.0 + rhs * THOU_PER_IN,
    {
        In(add_whole(self.0, rhs as i128))
    }
}

impl vstd::std_specs::ops::AddSpecImpl<i32> for In {
    open spec fn obeys_add_spec() -> bool {
        true
    }

    open spec fn add_req(self, rhs: i32) -> bool {
        fits_i64(self.0 + rhs * THOU_PER_IN)
    }

    open spec fn add_spec(self, rhs: i32) -> In {
        In((self.0 + rhs * THOU_PER_IN) as i64)
    }
}

impl core::ops::Sub<i32> for In {
    type Output = In;

    fn sub(self, rhs: i32) -> (r: In)
        ensures
            r.0 == self.0 - rhs * THOU_PER_IN,
    {
        In(sub_whole(self.0, rhs as i128))
    }
}

impl vstd::std_specs::ops::SubSpecImpl<i32> for In {
    open spec fn obeys_sub_spec() -> bool {
        true
    }

    open spec fn sub_req(self, rhs: i32) -> bool {
        fits_i64(self.0 - rhs * THOU_PER_IN)
    }

    open spec fn sub_spec(self, rhs: i32) -> In {
        In((self.0 - rhs * THOU_PER_IN) as i64)
    }
}

impl core::ops::Mul<i32> for In {
    type Output = In;

    fn mul(self, rhs: i32) -> (r: In)
        ensures
            r.0 == self.0 * rhs,
    {
        In(mul_whole(self.0, rhs as i128))
    }
}

impl vstd::std_specs::ops::MulSpecImpl<i32> for In {
    open spec fn obeys_mul_spec() -> bool {
        true
    }

    open spec fn mul_req(self, rhs: i32) -> bool {
        fits_i64(self.0 * rhs)
    }

    open spec fn mul_spec(self, rhs: i32) -> In {
        In((self.0 * rhs) as i64)
    }
}

impl core::ops::Div<i32> for In {
    type Output = In;

    fn div(self, rhs: i32) -> (r: In)
        ensures
            r.0 == div_toward_zero(self.0 as int, rhs as int),
    {
        In(div_whole(self.0, rhs as i128))
    }
}

impl vstd::std_specs::ops::DivSpecImpl<i32> for In {
    open spec fn obeys_div_spec() -> bool {
        true
    }

    open spec fn div_req(self, rhs: i32) -> bool {
        rhs != 0 && fits_i64(div_toward_zero(self.0 as int, rhs as int))
    }

    open spec fn div_spec(self, rhs: i32) -> In {
        In((div_toward_zero(self.0 as int, rhs as int)) as i64)
    }
}

impl core::ops::Rem<i32> for In {
    type Output = In;

    fn rem(self, rhs: i32) -> (r: In)
        ensures
            r.0 == rem_toward_zero(self.0 as int, rhs * THOU_PER_IN),
    {
        In(rem_whole(self.0, rhs as i128))
    }
}

impl vstd::std_specs::ops::RemSpecImpl<i32> for In {
    open spec fn obeys_rem_spec() -> bool {
        true
    }

    open spec fn rem_req(self, rhs: i32) -> bool {
        rhs != 0
    }

    open spec fn rem_spec(self, rhs: i32) -> In {
        In((rem_toward_zero(self.0 as int, rhs * THOU_PER_IN)) as i64)
    }
}

impl core::ops::Add<i64> for In {
    type Output = In;

    fn add(self, rhs: i64) -> (r: In)
        ensures
            r.0 == self.0 + rhs * THOU_PER_IN,
    {
        In(add_whole(self.0, rhs as i128))
    }
}

impl vstd::std_specs::ops::AddSpecImpl<i64> for In {
    open spec fn obeys_add_spec() -> bool {
        true
    }

    open spec fn add_req(self, rhs: i64) -> bool {
        fits_i64(self.0 + rhs * THOU_PER_IN)
    }

    open spec fn add_spec(self, rhs: i64) -> In {
        In((self.0 + rhs * THOU_PER_IN) as i64)
    }
}

impl core::ops::Sub<i64> for In {
    type Output = In;

    fn sub(self, rhs: i64) -> (r: In)
        ensures
            r.0 == self.0 - rhs * THOU_PER_IN,
    {
        In(sub_whole(self.0, rhs as i128))
    }
}

impl vstd::std_specs::ops::SubSpecImpl<i64> for In {
    open spec fn obeys_sub_spec() -> bool {
        true
    }

    open spec fn sub_req(self, rhs: i64) -> bool {
        fits_i64(self.0 - rhs * THOU_PER_IN)
    }

    open spec fn sub_spec(self, rhs: i64) -> In {
        In((self.0 - rhs * THOU_PER_IN) as i64)
    }
}

impl core::ops::Mul<i64> for In {
    type Output = In;

    fn mul(self, rhs: i64) -> (r: In)
        ensures
            r.0 == self.0 * rhs,
    {
        In(mul_whole(self.0, rhs as i128))
    }
}

impl vstd::std_specs::ops::MulSpecImpl<i64> for In {
    open spec fn obeys_mul_spec() -> bool {
        true
    }

    open spec fn mul_req(self, rhs: i64) -> bool {
        fits_i64(self.0 * rhs)
    }

    open spec fn mul_spec(self, rhs: i64) -> In {
        In((self.0 * rhs) as i64)
    }
}

impl core::ops::Div<i64> for In {
    type Output = In;

    fn div(self, rhs: i64) -> (r: In)
        ensures
            r.0 == div_toward_zero(self.0 as int, rhs as int),
    {
        In(div_whole(self.0, rhs as i128))
    }
}

impl vstd::std_specs::ops::DivSpecImpl<i64> for In {
    open spec fn obeys_div_spec() -> bool {
        true
    }

    open spec fn div_req(self, rhs: i64) -> bool {
        rhs != 0 && fits_i64(div_toward_zero(self.0 as int, rhs as int))
    }

    open spec fn div_spec(self, rhs: i64) -> In {
        In((div_toward_zero(self.0 as int, rhs as int)) as i64)
    }
}

impl core::ops::Rem<i64> for In {
    type Output = In;

    fn rem(self, rhs: i64) -> (r: In)
        ensures
            r.0 == rem_toward_zero(self.0 as int, rhs * THOU_PER_IN),
    {
        In(rem_whole(self.0, rhs as i128))
    }
}

impl vstd::std_specs::ops::RemSpecImpl<i64> for In {
    open spec fn obeys_rem_spec() -> bool {
        true
    }

    open spec fn rem_req(self, rhs: i64) -> bool {
        rhs != 0
    }

    open spec fn rem_spec(self, rhs: i64) -> In {
        In((rem_toward_zero(self.0 as int, rhs * THOU_PER_IN)) as i64)
    }
}

impl core::ops::Add<i128> for In {
    type Output = In;

    fn add(self, rhs: i128) -> (r: In)
        ensures
            r.0 == self.0 + rhs * THOU_PER_IN,
    {
        In(add_whole(self.0, rhs as i128))
    }
}

impl vstd::std_specs::ops::AddSpecImpl<i128> for In {
    open spec fn obeys_add_spec() -> bool {
        true
    }

    open spec fn add_req(self, rhs: i128) -> bool {
        fits_i64(self.0 + rhs * THOU_PER_IN)
    }

    open spec fn add_spec(self, rhs: i128) -> In {
        In((self.0 + rhs * THOU_PER_IN) as i64)
    }
}

impl core::ops::Sub<i128> for In {
    type Output = In;

    fn sub(self, rhs: i128) -> (r: In)
        ensures
            r.0 == self.0 - rhs * THOU_PER_IN,
    {
        In(sub_whole(self.0, rhs as i128))
    }
}

impl vstd::std_specs::ops::SubSpecImpl<i128> for In {
    open spec fn obeys_sub_spec() -> bool {
        true
    }

    open spec fn sub_req(self, rhs: i128) -> bool {
        fits_i64(self.0 - rhs * THOU_PER_IN)
    }

    open spec fn sub_spec(self, rhs: i128) -> In {
        In((self.0 - rhs * THOU_PER_IN) as i64)
    }
}

impl core::ops::Mul<i128> for In {
    type Output = In;

    fn mul(self, rhs: i128) -> (r: In)
        ensures
            r.0 == self.0 * rhs,
    {
        In(mul_whole(self.0, rhs as i128))
    }
}

impl vstd::std_specs::ops::MulSpecImpl<i128> for In {
    open spec fn obeys_mul_spec() -> bool {
        true
    }

    open spec fn mul_req(self, rhs: i128) -> bool {
        fits_i64(self.0 * rhs)
    }

    open spec fn mul_spec(self, rhs: i128) -> In {
        In((self.0 * rhs) as i64)
    }
}

impl core::ops::Div<i128> for In {
    type Output = In;

    fn div(self, rhs: i128) -> (r: In)
        ensures
            r.0 == div_toward_zero(self.0 as int, rhs as int),
    {
        In(div_whole(self.0, rhs as i128))
    }
}

impl vstd::std_specs::ops::DivSpecImpl<i128> for In {
    open spec fn obeys_div_spec() -> bool {
        true
    }

    open spec fn div_req(self, rhs: i128) -> bool {
        rhs != 0 && fits_i64(div_toward_zero(self.0 as int, rhs as int))
    }

    open spec fn div_spec(self, rhs: i128) -> In {
        In((div_toward_zero(self.0 as int, rhs as int)) as i64)
    }
}

impl core::ops::Rem<i128> for In {
    type Output = In;

    fn rem(self, rhs: i128) -> (r: In)
        ensures
            r.0 == rem_toward_zero(self.0 as int, rhs * THOU_PER_IN),
    {
        In(rem_whole(self.0, rhs as i128))
    }
}

impl vstd::std_specs::ops::RemSpecImpl<i128> for In {
    open spec fn obeys_rem_spec() -> bool {
        true
    }

    open spec fn rem_req(self, rhs: i128) -> bool {
        rhs != 0
    }

    open spec fn rem_spec(self, rhs: i128) -> In {
        In((rem_toward_zero(self.0 as int, rhs * THOU_PER_IN)) as i64)
    }
}

impl core::ops::Add<isize> for In {
    type Output = In;

    fn add(self, rhs: isize) -> (r: In)
        ensures
            r.0 == self.0 + rhs * THOU_PER_IN,
    {
        In(add_whole(self.0, rhs as i128))
    }
}

impl vstd::std_specs::ops::AddSpecImpl<isize> for In {
    open spec fn obeys_add_spec() -> bool {
        true
    }

    open spec fn add_req(self, rhs: isize) -> bool {
        fits_i64(self.0 + rhs * THOU_PER_IN)
    }

    open spec fn add_spec(self, rhs: isize) -> In {
        In((self.0 + rhs * THOU_PER_IN) as i64)
    }
}

impl core::ops::Sub<isize> for In {
    type Output = In;

    fn sub(self, rhs: isize) -> (r: In)
        ensures
            r.0 == self.0 - rhs * THOU_PER_IN,
    {
        In(sub_whole(self.0, rhs as i128))
    }
}

impl vstd::std_specs::ops::SubSpecImpl<isize> for In {
    open spec fn obeys_sub_spec() -> bool {
        true
    }

    open spec fn sub_req(self, rhs: isize) -> bool {
        fits_i64(self.0 - rhs * THOU_PER_IN)
    }

    open spec fn sub_spec(self, rhs: isize) -> In {
        In((self.0 - rhs * THOU_PER_IN) as i64)
    }
}

impl core::ops::Mul<isize> for In {
    type Output = In;

    fn mul(self, rhs: isize) -> (r: In)
        ensures
            r.0 == self.0 * rhs,
    {
        In(mul_whole(self.0, rhs as i128))
    }
}

impl vstd::std_specs::ops::MulSpecImpl<isize> for In {
    open spec fn obeys_mul_spec() -> bool {
        true
    }

    open spec fn mul_req(self, rhs: isize) -> bool {
        fits_i64(self.0 * rhs)
    }

    open spec fn mul_spec(self, rhs: isize) -> In {
        In((self.0 * rhs) as i64)
    }
}

impl core::ops::Div<isize> for In {
    type Output = In;

    fn div(self, rhs: isize) -> (r: In)
        ensures
            r.0 == div_toward_zero(self.0 as int, rhs as int),
    {
        In(div_whole(self.0, rhs as i128))
    }
}

impl vstd::std_specs::ops::DivSpecImpl<isize> for In {
    open spec fn obeys_div_spec() -> bool {
        true
    }

    open spec fn div_req(self, rhs: isize) -> bool {
        rhs != 0 && fits_i64(div_toward_zero(self.0 as int, rhs as int))
    }

    open spec fn div_spec(self, rhs: isize) -> In {
        In((div_toward_zero(self.0 as int, rhs as int)) as i64)
    }
}

impl core::ops::Rem<isize> for In {
    type Output = In;

    fn rem(self, rhs: isize) -> (r: In)
        ensures
            r.0 == rem_toward_zero(self.0 as int, rhs * THOU_PER_IN),
    {
        In(rem_whole(self.0, rhs as i128))
    }
}

impl vstd::std_specs::ops::RemSpecImpl<isize> for In {
    open spec fn obeys_rem_spec() -> bool {
        true
    }

    open spec fn rem_req(self, rhs: isize) -> bool {
        rhs != 0
    }

    open spec fn rem_spec(self, rhs: isize) -> In {
        In((rem_toward_zero(self.0 as int, rhs * THOU_PER_IN)) as i64)
    }
}

impl core::ops::Add<u8> for In {
    type Output = In;

    fn add(self, rhs: u8) -> (r: In)
        ensures
            r.0 == self.0 + rhs * THOU_PER_IN,
    {
        In(add_whole(self.0, rhs as i128))
    }
}

impl vstd::std_specs::ops::AddSpecImpl<u8> for In {
    open spec fn obeys_add_spec() -> bool {
        true
    }

    open spec fn add_req(self, rhs: u8) -> bool {
        fits_i64(self.0 + rhs * THOU_PER_IN)
    }

    open spec fn add_spec(self, rhs: u8) -> In {
        In((self.0 + rhs * THOU_PER_IN) as i64)
    }
}

impl core::ops::Sub<u8> for In {
    type Output = In;

    fn sub(self, rhs: u8) -> (r: In)
        ensures
            r.0 == self.0 - rhs * THOU_PER_IN,
    {
        In(sub_whole(self.0, rhs as i128))
    }
}

impl vstd::std_specs::ops::SubSpecImpl<u8> for In {
    open spec fn obeys_sub_spec() -> bool {
        true
    }

    open spec fn sub_req(self, rhs: u8) -> bool {
        fits_i64(self.0 - rhs * THOU_PER_IN)
    }

    open spec fn sub_spec(self, rhs: u8) -> In {
        In((self.0 - rhs * THOU_PER_IN) as i64)
    }
}

impl core::ops::Mul<u8> for In {
    type Output = In;

    fn mul(self, rhs: u8) -> (r: In)
        ensures
            r.0 == self.0 * rhs,
    {
        In(mul_whole(self.0, rhs as i128))
    }
}

impl vstd::std_specs::ops::MulSpecImpl<u8> for In {
    open spec fn obeys_mul_spec() -> bool {
        true
    }

    open spec fn mul_req(self, rhs: u8) -> bool {
        fits_i64(self.0 * rhs)
    }

    open spec fn mul_spec(self, rhs: u8) -> In {
        In((self.0 * rhs) as i64)
    }
}

impl core::ops::Div<u8> for In {
    type Output = In;

    fn div(self, rhs: u8) -> (r: In)
        ensures
            r.0 == div_toward_zero(self.0 as int, rhs as int),
    {
        In(div_whole(self.0, rhs as i128))
    }
}

impl vstd::std_specs::ops::DivSpecImpl<u8> for In {
    open spec fn obeys_div_spec() -> bool {
        true
    }

    open spec fn div_req(self, rhs: u8) -> bool {
        rhs != 0 && fits_i64(div_toward_zero(self.0 as int, rhs as int))
    }

    open spec fn div_spec(self, rhs: u8) -> In {
        In((div_toward_zero(self.0 as int, rhs as int)) as i64)
    }
}

impl core::ops::Rem<u8> for In {
    type Output = In;

    fn rem(self, rhs: u8) -> (r: In)
        ensures
            r.0 == rem_toward_zero(self.0 as int, rhs * THOU_PER_IN),
    {
        In(rem_whole(self.0, rhs as i128))
    }
}

impl vstd::std_specs::ops::RemSpecImpl<u8> for In {
    open spec fn obeys_rem_spec() -> bool {
        true
    }

    open spec fn rem_req(self, rhs: u8) -> bool {
        rhs != 0
    }

    open spec fn rem_spec(self, rhs: u8) -> In {
        In((rem_toward_zero(self.0 as int, rhs * THOU_PER_IN)) as i64)
    }
}

impl core::ops::Add<u16> for In {
    type Output = In;

    fn add(self, rhs: u16) -> (r: In)
        ensures
            r.0 == self.0 + rhs * THOU_PER_IN,
    {
        In(add_whole(self.0, rhs as i128))
    }
}

impl vstd::std_specs::ops::AddSpecImpl<u16> for In {
    open spec fn obeys_add_spec() -> bool {
        true
    }

    open spec fn add_req(self, rhs: u16) -> bool {
        fits_i64(self.0 + rhs * THOU_PER_IN)
    }

    open spec fn add_spec(self, rhs: u16) -> In {
        In((self.0 + rhs * THOU_PER_IN) as i64)
    }
}

impl core::ops::Sub<u16> for In {
    type Output = In;

    fn sub(self, rhs: u16) -> (r: In)
        ensures
            r.0 == self.0 - rhs * THOU_PER_IN,
    {
        In(sub_whole(self.0, rhs as i128))
    }
}

impl vstd::std_specs::ops::SubSpecImpl<u16> for In {
    open spec fn obeys_sub_spec() -> bool {
        true
    }

    open spec fn sub_req(self, rhs: u16) -> bool {
        fits_i64(self.0 - rhs * THOU_PER_IN)
    }

    open spec fn sub_spec(self, rhs: u16) -> In {
        In((self.0 - rhs * THOU_PER_IN) as i64)
    }
}

impl core::ops::Mul<u16> for In {
    type Output = In;

    fn mul(self, rhs: u16) -> (r: In)
        ensures
            r.0 == self.0 * rhs,
    {
        In(mul_whole(self.0, rhs as i128))
    }
}

impl vstd::std_specs::ops::MulSpecImpl<u16> for In {
    open spec fn obeys_mul_spec() -> bool {
        true
    }

    open spec fn mul_req(self, rhs: u16) -> bool {
        fits_i64(self.0 * rhs)
    }

    open spec fn mul_spec(self, rhs: u16) -> In {
        In((self.0 * rhs) as i64)
    }
}

impl core::ops::Div<u16> for In {
    type Output = In;

    fn div(self, rhs: u16) -> (r: In)
        ensures
            r.0 == div_toward_zero(self.0 as int, rhs as int),
    {
        In(div_whole(self.0, rhs as i128))
    }
}

impl vstd::std_specs::ops::DivSpecImpl<u16> for In {
    open spec fn obeys_div_spec() -> bool {
        true
    }

    open spec fn div_req(self, rhs: u16) -> bool {
        rhs != 0 && fits_i64(div_toward_zero(self.0 as int, rhs as int))
    }

    open spec fn div_spec(self, rhs: u16) -> In {
        In((div_toward_zero(self.0 as int, rhs as int)) as i64)
    }
}

impl core::ops::Rem<u16> for In {
    type Output = In;

    fn rem(self, rhs: u16) -> (r: In)
        ensures
            r.0 == rem_toward_zero(self.0 as int, rhs * THOU_PER_IN),
    {
        In(rem_whole(self.0, rhs as i128))
    }
}

impl vstd::std_specs::ops::RemSpecImpl<u16> for In {
    open spec fn obeys_rem_spec() -> bool {
        true
    }

    open spec fn rem_req(self, rhs: u16) -> bool {
        rhs != 0
    }

    open spec fn rem_spec(self, rhs: u16) -> In {
        In((rem_toward_zero(self.0 as int, rhs * THOU_PER_IN)) as i64)
    }
}

impl core::ops::Add<u32> for In {
    type Output = In;

    fn add(self, rhs: u32) -> (r: In)
        ensures
            r.0 == self.0 + rhs * THOU_PER_IN,
    {
        In(add_whole(self.0, rhs as i128))
    }
}

impl vstd::std_specs::ops::AddSpecImpl<u32> for In {
    open spec fn obeys_add_spec() -> bool {
        true
    }

    open spec fn add_req(self, rhs: u32) -> bool {
        fits_i64(self.0 + rhs * THOU_PER_IN)
    }

    open spec fn add_spec(self, rhs: u32) -> In {
        In((self.0 + rhs * THOU_PER_IN) as i64)
    }
}

impl core::ops::Sub<u32> for In {
    type Output = In;

    fn sub(self, rhs: u32) -> (r: In)
        ensures
            r.0 == self.0 - rhs * THOU_PER_IN,
    {
        In(sub_whole(self.0, rhs as i128))
    }
}

impl vstd::std_specs::ops::SubSpecImpl<u32> for In {
    open spec fn obeys_sub_spec() -> bool {
        true
    }

    open spec fn sub_req(self, rhs: u32) -> bool {
        fits_i64(self.0 - rhs * THOU_PER_IN)
    }

    open spec fn sub_spec(self, rhs: u32) -> In {
        In((self.0 - rhs * THOU_PER_IN) as i64)
    }
}

impl core::ops::Mul<u32> for In {
    type Output = In;

    fn mul(self, rhs: u32) -> (r: In)
        ensures
            r.0 == self.0 * rhs,
    {
        In(mul_whole(self.0, rhs as i128))
    }
}

impl vstd::std_specs::ops::MulSpecImpl<u32> for In {
    open spec fn obeys_mul_spec() -> bool {
        true
    }

    open spec fn mul_req(self, rhs: u32) -> bool {
        fits_i64(self.0 * rhs)
    }

    open spec fn mul_spec(self, rhs: u32) -> In {
        In((self.0 * rhs) as i64)
    }
}

impl core::ops::Div<u32> for In {
    type Output = In;

    fn div(self, rhs: u32) -> (r: In)
        ensures
            r.0 == div_toward_zero(self.0 as int, rhs as int),
    {
        In(div_whole(self.0, rhs as i128))
    }
}

impl vstd::std_specs::ops::DivSpecImpl<u32> for In {
    open spec fn obeys_div_spec() -> bool {
        true
    }

    open spec fn div_req(self, rhs: u32) -> bool {
        rhs != 0 && fits_i64(div_toward_zero(self.0 as int, rhs as int))
    }

    open spec fn div_spec(self, rhs: u32) -> In {
        In((div_toward_zero(self.0 as int, rhs as int)) as i64)
    }
}

impl core::ops::Rem<u32> for In {
    type Output = In;

    fn rem(self, rhs: u32) -> (r: In)
        ensures
            r.0 == rem_toward_zero(self.0 as int, rhs * THOU_PER_IN),
    {
        In(rem_whole(self.0, rhs as i128))
    }
}

impl vstd::std_specs::ops::RemSpecImpl<u32> for In {
    open spec fn obeys_rem_spec() -> bool {
        true
    }

    open spec fn rem_req(self, rhs: u32) -> bool {
        rhs != 0
    }

    open spec fn rem_spec(self, rhs: u32) -> In {
        In((rem_toward_zero(self.0 as int, rhs * THOU_PER_IN)) as i64)
    }
}

impl core::ops::Add<u64> for In {
    type Output = In;

    fn add(self, rhs: u64) -> (r: In)
        ensures
            r.0 == self.0 + rhs * THOU_PER_IN,
    {
        In(add_whole(self.0, rhs as i128))
    }
}

impl vstd::std_specs::ops::AddSpecImpl<u64> for In {
    open spec fn obeys_add_spec() -> bool {
        true
    }

    open spec fn add_req(self, rhs: u64) -> bool {
        fits_i64(self.0 + rhs * THOU_PER_IN)
    }

    open spec fn add_spec(self, rhs: u64) -> In {
        In((self.0 + rhs * THOU_PER_IN) as i64)
    }
}

impl core::ops::Sub<u64> for In {
    type Output = In;

    fn sub(self, rhs: u64) -> (r: In)
        ensures
            r.0 == self.0 - rhs * THOU_PER_IN,
    {
        In(sub_whole(self.0, rhs as i128))
    }
}

impl vstd::std_specs::ops::SubSpecImpl<u64> for In {
    open spec fn obeys_sub_spec() -> bool {
        true
    }

    open spec fn sub_req(self, rhs: u64) -> bool {
        fits_i64(self.0 - rhs * THOU_PER_IN)
    }

    open spec fn sub_spec(self, rhs: u64) -> In {
        In((self.0 - rhs * THOU_PER_IN) as i64)
    }
}

impl core::ops::Mul<u64> for In {
    type Output = In;

    fn mul(self, rhs: u64) -> (r: In)
        ensures
            r.0 == self.0 * rhs,
    {
        In(mul_whole(self.0, rhs as i128))
    }
}

impl vstd::std_specs::ops::MulSpecImpl<u64> for In {
    open spec fn obeys_mul_spec() -> bool {
        true
    }

    open spec fn mul_req(self, rhs: u64) -> bool {
        fits_i64(self.0 * rhs)
    }

    open spec fn mul_spec(self, rhs: u64) -> In {
        In((self.0 * rhs) as i64)
    }
}

impl core::ops::Div<u64> for In {
    type Output = In;

    fn div(self, rhs: u64) -> (r: In)
        ensures
            r.0 == div_toward_zero(self.0 as int, rhs as int),
    {
        In(div_whole(self.0, rhs as i128))
    }
}

impl vstd::std_specs::ops::DivSpecImpl<u64> for In {
    open spec fn obeys_div_spec() -> bool {
        true
    }

    open spec fn div_req(self, rhs: u64) -> bool {
        rhs != 0 && fits_i64(div_toward_zero(self.0 as int, rhs as int))
    }

    open spec fn div_spec(self, rhs: u64) -> In {
        In((div_toward_zero(self.0 as int, rhs as int)) as i64)
    }
}

impl core::ops::Rem<u64> for In {
    type Output = In;

    fn rem(self, rhs: u64) -> (r: In)
        ensures
            r.0 == rem_toward_zero(self.0 as int, rhs * THOU_PER_IN),
    {
        In(rem_whole(self.0, rhs as i128))
    }
}

impl vstd::std_specs::ops::RemSpecImpl<u64> for In {
    open spec fn obeys_rem_spec() -> bool {
        true
    }

    open spec fn rem_req(self, rhs: u64) -> bool {
        rhs != 0
    }

    open spec fn rem_spec(self, rhs: u64) -> In {
        In((rem_toward_zero(self.0 as int, rhs * THOU_PER_IN)) as i64)
    }
}

impl core::ops::Add<u128> for In {
    type Output = In;

    fn add(self, rhs: u128) -> (r: In)
        ensures
            r.0 == self.0 + rhs * THOU_PER_IN,
    {
        if rhs > i128::MAX as u128 {
            self
        } else {
            In(add_whole(self.0, rhs as i128))
        }
    }
}

impl vstd::std_specs::ops::AddSpecImpl<u128> for In {
    open spec fn obeys_add_spec() -> bool {
        true
    }

    open spec fn add_req(self, rhs: u128) -> bool {
        fits_i64(self.0 + rhs * THOU_PER_IN)
    }

    open spec fn add_spec(self, rhs: u128) -> In {
        In((self.0 + rhs * THOU_PER_IN) as i64)
    }
}

impl core::ops::Sub<u128> for In {
    type Output = In;

    fn sub(self, rhs: u128) -> (r: In)
        ensures
            r.0 == self.0 - rhs * THOU_PER_IN,
    {
        if rhs > i128::MAX as u128 {
            self
        } else {
            In(sub_whole(self.0, rhs as i128))
        }
    }
}

impl vstd::std_specs::ops::SubSpecImpl<u128> for In {
    open spec fn obeys_sub_spec() -> bool {
        true
    }

    open spec fn sub_req(self, rhs: u128) -> bool {
        fits_i64(self.0 - rhs * THOU_PER_IN)
    }

    open spec fn sub_spec(self, rhs: u128) -> In {
        In((self.0 - rhs * THOU_PER_IN) as i64)
    }
}

impl core::ops::Mul<u128> for In {
    type Output = In;

    fn mul(self, rhs: u128) -> (r: In)
        ensures
            r.0 == self.0 * rhs,
    {
        if rhs > i128::MAX as u128 {
            proof {
                let (a, k) = (self.0 as int, rhs as int);
                assert(a == 0) by (nonlinear_arith)
                    requires
                        i64::MIN <= a * k <= i64::MAX,
                        k > i128::MAX,
                        i64::MIN <= a <= i64::MAX,
                ;
                assert(a * k == 0) by (nonlinear_arith)
                    requires a == 0;
            }
            In(0)
        } else {
            In(mul_whole(self.0, rhs as i128))
        }
    }
}

impl vstd::std_specs::ops::MulSpecImpl<u128> for In {
    open spec fn obeys_mul_spec() -> bool {
        true
    }

    open spec fn mul_req(self, rhs: u128) -> bool {
        fits_i64(self.0 * rhs)
    }

    open spec fn mul_spec(self, rhs: u128) -> In {
        In((self.0 * rhs) as i64)
    }
}

impl core::ops::Div<u128> for In {
    type Output = In;

    fn div(self, rhs: u128) -> (r: In)
        ensures
            r.0 == div_toward_zero(self.0 as int, rhs as int),
    {
        if rhs > i128::MAX as u128 {
            proof {
                lemma_small_dividend(self.0 as int, rhs as int);
            }
            In(0)
        } else {
            In(div_whole(self.0, rhs as i128))
        }
    }
}

impl vstd::std_specs::ops::DivSpecImpl<u128> for In {
    open spec fn obeys_div_spec() -> bool {
        true
    }

    open spec fn div_req(self, rhs: u128) -> bool {
        rhs != 0 && fits_i64(div_toward_zero(self.0 as int, rhs as int))
    }

    open spec fn div_spec(self, rhs: u128) -> In {
        In((div_toward_zero(self.0 as int, rhs as int)) as i64)
    }
}

impl core::ops::Rem<u128> for In {
    type Output = In;

    fn rem(self, rhs: u128) -> (r: In)
        ensures
            r.0 == rem_toward_zero(self.0 as int, rhs * THOU_PER_IN),
    {
        if rhs > i128::MAX as u128 {
            proof {
                lemma_small_dividend(self.0 as int, rhs * THOU_PER_IN);
            }
            self
        } else {
            In(rem_whole(self.0, rhs as i128))
        }
    }
}

impl vstd::std_specs::ops::RemSpecImpl<u128> for In {
    open spec fn obeys_rem_spec() -> bool {
        true
    }

    open spec fn rem_req(self, rhs: u128) -> bool {
        rhs != 0
    }

    open spec fn rem_spec(self, rhs: u128) -> In {
        In((rem_toward_zero(self.0 as int, rhs * THOU_PER_IN)) as i64)
    }
}

impl core::ops::Add<usize> for In {
    type Output = In;

    fn add(self, rhs: usize) -> (r: In)
        ensures
            r.0 == self.0 + rhs * THOU_PER_IN,
    {
        In(add_whole(self.0, rhs as i128))
    }
}

impl vstd::std_specs::ops::AddSpecImpl<usize> for In {
    open spec fn obeys_add_spec() -> bool {
        true
    }

    open spec fn add_req(self, rhs: usize) -> bool {
        fits_i64(self.0 + rhs * THOU_PER_IN)
    }

    open spec fn add_spec(self, rhs: usize) -> In {
        In((self.0 + rhs * THOU_PER_IN) as i64)
    }
}

impl core::ops::Sub<usize> for In {
    type Output = In;

    fn sub(self, rhs: usize) -> (r: In)
        ensures
            r.0 == self.0 - rhs * THOU_PER_IN,
    {
        In(sub_whole(self.0, rhs as i128))
    }
}

impl vstd::std_specs::ops::SubSpecImpl<usize> for In {
    open spec fn obeys_sub_spec() -> bool {
        true
    }

    open spec fn sub_req(self, rhs: usize) -> bool {
        fits_i64(self.0 - rhs * THOU_PER_IN)
    }

    open spec fn sub_spec(self, rhs: usize) -> In {
        In((self.0 - rhs * THOU_PER_IN) as i64)
    }
}

impl core::ops::Mul<usize> for In {
    type Output = In;

    fn mul(self, rhs: usize) -> (r: In)
        ensures
            r.0 == self.0 * rhs,
    {
        In(mul_whole(self.0, rhs as i128))
    }
}

impl vstd::std_specs::ops::MulSpecImpl<usize> for In {
    open spec fn obeys_mul_spec() -> bool {
        true
    }

    open spec fn mul_req(self, rhs: usize) -> bool {
        fits_i64(self.0 * rhs)
    }

    open spec fn mul_spec(self, rhs: usize) -> In {
        In((self.0 * rhs) as i64)
    }
}

impl core::ops::Div<usize> for In {
    type Output = In;

    fn div(self, rhs: usize) -> (r: In)
        ensures
            r.0 == div_toward_zero(self.0 as int, rhs as int),
    {
        In(div_whole(self.0, rhs as i128))
    }
}

impl vstd::std_specs::ops::DivSpecImpl<usize> for In {
    open spec fn obeys_div_spec() -> bool {
        true
    }

    open spec fn div_req(self, rhs: usize) -> bool {
        rhs != 0 && fits_i64(div_toward_zero(self.0 as int, rhs as int))
    }

    open spec fn div_spec(self, rhs: usize) -> In {
        In((div_toward_zero(self.0 as int, rhs as int)) as i64)
    }
}

impl core::ops::Rem<usize> for In {
    type Output = In;

    fn rem(self, rhs: usize) -> (r: In)
        ensures
            r.0 == rem_toward_zero(self.0 as int, rhs * THOU_PER_IN),
    {
        In(rem_whole(self.0, rhs as i128))
    }
}

impl vstd::std_specs::ops::RemSpecImpl<usize> for In {
    open spec fn obeys_rem_spec() -> bool {
        true
    }

    open spec fn rem_req(self, rhs: usize) -> bool {
        rhs != 0
    }

    open spec fn rem_spec(self, rhs: usize) -> In {
        In((rem_toward_zero(self.0 as int, rhs * THOU_PER_IN)) as i64)
    }
}

} // verus!
