//! An `i32` that wraps around inside bounds chosen when it is made.
use crate::model::in_range;
use crate::model::lemma_quotient_bounds;
use crate::model::lemma_wrap_fixes_range;
use crate::model::quotient;
use crate::model::remainder;
use crate::model::wrap;
use crate::model::wrapped_difference;
use crate::wide::wrap_add_i128;
use crate::wide::wrap_div_i128;
use crate::wide::wrap_i128;
use crate::wide::wrap_mul_i128;
use crate::wide::wrap_rem_i128;
use crate::wide::wrap_sub_i128;
use core::cmp::Ordering;
use core::ops::Add;
use core::ops::AddAssign;
use core::ops::Div;
use core::ops::DivAssign;
use core::ops::Mul;
use core::ops::MulAssign;
use core::ops::Range;
use core::ops::Rem;
use core::ops::RemAssign;
use core::ops::Sub;
use core::ops::SubAssign;
use vstd::prelude::*;
use vstd::std_specs::cmp::PartialEqSpecImpl;
use vstd::std_specs::cmp::PartialOrdSpecImpl;
use vstd::std_specs::ops::AddSpecImpl;
use vstd::std_specs::ops::DivSpecImpl;
use vstd::std_specs::ops::MulSpecImpl;
use vstd::std_specs::ops::RemSpecImpl;
use vstd::std_specs::ops::SubSpecImpl;

verus! {

/// An `i32` kept inside `min..max` by wrapping around.
///
/// The plain operators hand back the raw `i32` result; the assigning
/// operators fold their result back into the range.
#[derive(Debug, Clone, Copy, Eq)]
pub struct WrappingI32 {
    inner: i32,
    min: i32,
    max: i32,
}

impl WrappingI32 {
    #[verifier::type_invariant]
    spec fn in_bounds(self) -> bool {
        self.min <= self.inner < self.max
    }

    /// The stored value.
    pub closed spec fn value(self) -> i32 {
        self.inner
    }

    /// The lower bound, which the value may reach.
    pub closed spec fn lower(self) -> i32 {
        self.min
    }

    /// The upper bound, which the value stays below.
    pub closed spec fn upper(self) -> i32 {
        self.max
    }

    /// Folds `inner` into `min..max`.
    pub fn new(inner: i32, min: i32, max: i32) -> (r: Self)
        requires
            min < max,
        ensures
            r.value() == wrap(inner as int, min as int, max as int),
            in_range(inner as int, min as int, max as int) ==> r.value() == inner,
            r.lower() == min,
            r.upper() == max,
    {
        proof {
            if in_range(inner as int, min as int, max as int) {
                lemma_wrap_fixes_range(inner as int, min as int, max as int);
            }
        }
        Self { inner: wrap_i128(inner as i128, min as i128, max as i128) as i32, min, max }
    }

    /// The stored value, which always lies in `min..max`.
    pub fn inner(&self) -> (r: i32)
        ensures
            r == self.value(),
            self.lower() <= r < self.upper(),
    {
        proof {
            use_type_invariant(self);
        }
        self.inner
    }

    /// The range the value lives in.
    pub fn range(&self) -> (r: Range<i32>)
        ensures
            r.start == self.lower(),
            r.end == self.upper(),
            r.start < r.end,
    {
        proof {
            use_type_invariant(self);
        }
        self.min..self.max
    }

    /// The lower bound, which the value may reach.
    pub fn min_bound(&self) -> (r: i32)
        ensures
            r == self.lower(),
    {
        self.min
    }

    /// The upper bound, which the value stays below.
    pub fn max_bound(&self) -> (r: i32)
        ensures
            r == self.upper(),
    {
        self.max
    }
}

/// The raw sum of the stored value and a bare number. It may lie outside the
/// bounds.
impl Add<i32> for WrappingI32 {
    type Output = i32;

    fn add(self, other: i32) -> (r: i32) {
        self.inner + other
    }
}

impl AddSpecImpl<i32> for WrappingI32 {
    open spec fn obeys_add_spec() -> bool {
        true
    }

    open spec fn add_req(self, other: i32) -> bool {
        i32::MIN <= self.value() + other <= i32::MAX
    }

    open spec fn add_spec(self, other: i32) -> i32 {
        (self.value() + other) as i32
    }
}

/// The raw sum of the stored value and the value stored in another instance. It
/// may lie outside the bounds.
impl Add<WrappingI32> for WrappingI32 {
    type Output = i32;

    fn add(self, other: WrappingI32) -> (r: i32) {
        self.inner + other.inner
    }
}

impl AddSpecImpl<WrappingI32> for WrappingI32 {
    open spec fn obeys_add_spec() -> bool {
        true
    }

    open spec fn add_req(self, other: WrappingI32) -> bool {
        i32::MIN <= self.value() + other.value() <= i32::MAX
    }

    open spec fn add_spec(self, other: WrappingI32) -> i32 {
        (self.value() + other.value()) as i32
    }
}

/// The raw difference of the stored value and a bare number. A subtrahend
/// greater than the stored value is folded into the range before it is taken
/// away.
impl Sub<i32> for WrappingI32 {
    type Output = i32;

    fn sub(self, other: i32) -> (r: i32) {
        proof {
            use_type_invariant(self);
        }
        if other > self.inner {
            self.inner - wrap_i128(other as i128, self.min as i128, self.max as i128) as i32
        } else {
            self.inner - other
        }
    }
}

impl SubSpecImpl<i32> for WrappingI32 {
    open spec fn obeys_sub_spec() -> bool {
        true
    }

    open spec fn sub_req(self, other: i32) -> bool {
        i32::MIN <= wrapped_difference(
            self.value() as int,
            other as int,
            self.lower() as int,
            self.upper() as int,
        ) <= i32::MAX
    }

    open spec fn sub_spec(self, other: i32) -> i32 {
        wrapped_difference(
            self.value() as int,
            other as int,
            self.lower() as int,
            self.upper() as int,
        ) as i32
    }
}

/// The raw difference of the stored value and the value stored in another
/// instance. A subtrahend greater than the stored value is folded into the
/// range before it is taken away.
impl Sub<WrappingI32> for WrappingI32 {
    type Output = i32;

    fn sub(self, other: WrappingI32) -> (r: i32) {
        proof {
            use_type_invariant(self);
        }
        if other.inner > self.inner {
            self.inner - wrap_i128(other.inner as i128, self.min as i128, self.max as i128) as i32
        } else {
            self.inner - other.inner
        }
    }
}

impl SubSpecImpl<WrappingI32> for WrappingI32 {
    open spec fn obeys_sub_spec() -> bool {
        true
    }

    open spec fn sub_req(self, other: WrappingI32) -> bool {
        i32::MIN <= wrapped_difference(
            self.value() as int,
            other.value() as int,
            self.lower() as int,
            self.upper() as int,
        ) <= i32::MAX
    }

    open spec fn sub_spec(self, other: WrappingI32) -> i32 {
        wrapped_difference(
            self.value() as int,
            other.value() as int,
            self.lower() as int,
            self.upper() as int,
        ) as i32
    }
}

/// The raw product of the stored value and a bare number. It may lie outside
/// the bounds.
impl Mul<i32> for WrappingI32 {
    type Output = i32;

    fn mul(self, other: i32) -> (r: i32) {
        self.inner * other
    }
}

impl MulSpecImpl<i32> for WrappingI32 {
    open spec fn obeys_mul_spec() -> bool {
        true
    }

    open spec fn mul_req(self, other: i32) -> bool {
        i32::MIN <= self.value() * other <= i32::MAX
    }

    open spec fn mul_spec(self, other: i32) -> i32 {
        (self.value() * other) as i32
    }
}

/// The raw product of the stored value and the value stored in another
/// instance. It may lie outside the bounds.
impl Mul<WrappingI32> for WrappingI32 {
    type Output = i32;

    fn mul(self, other: WrappingI32) -> (r: i32) {
        self.inner * other.inner
    }
}

impl MulSpecImpl<WrappingI32> for WrappingI32 {
    open spec fn obeys_mul_spec() -> bool {
        true
    }

    open spec fn mul_req(self, other: WrappingI32) -> bool {
        i32::MIN <= self.value() * other.value() <= i32::MAX
    }

    open spec fn mul_spec(self, other: WrappingI32) -> i32 {
        (self.value() * other.value()) as i32
    }
}

/// The raw quotient of the stored value and a bare number. It may lie outside
/// the bounds.
impl Div<i32> for WrappingI32 {
    type Output = i32;

    fn div(self, other: i32) -> (r: i32) {
        proof {
            lemma_quotient_bounds(self.value() as int, other as int);
        }
        self.inner / other
    }
}

impl DivSpecImpl<i32> for WrappingI32 {
    open spec fn obeys_div_spec() -> bool {
        true
    }

    open spec fn div_req(self, other: i32) -> bool {
        other != 0 && !(self.value() == i32::MIN && other == -1)
    }

    open spec fn div_spec(self, other: i32) -> i32 {
        quotient(self.value() as int, other as int) as i32
    }
}

/// The raw quotient of the stored value and the value stored in another
/// instance. It may lie outside the bounds.
impl Div<WrappingI32> for WrappingI32 {
    type Output = i32;

    fn div(self, other: WrappingI32) -> (r: i32) {
        proof {
            lemma_quotient_bounds(self.value() as int, other.value() as int);
        }
        self.inner / other.inner
    }
}

impl DivSpecImpl<WrappingI32> for WrappingI32 {
    open spec fn obeys_div_spec() -> bool {
        true
    }

    open spec fn div_req(self, other: WrappingI32) -> bool {
        other.value() != 0 && !(self.value() == i32::MIN && other.value() == -1)
    }

    open spec fn div_spec(self, other: WrappingI32) -> i32 {
        quotient(self.value() as int, other.value() as int) as i32
    }
}

/// The raw remainder of the stored value and a bare number. It may lie outside
/// the bounds.
impl Rem<i32> for WrappingI32 {
    type Output = i32;

    fn rem(self, other: i32) -> (r: i32) {
        self.inner % other
    }
}

impl RemSpecImpl<i32> for WrappingI32 {
    open spec fn obeys_rem_spec() -> bool {
        true
    }

    open spec fn rem_req(self, other: i32) -> bool {
        other != 0 && !(self.value() == i32::MIN && other == -1)
    }

    open spec fn rem_spec(self, other: i32) -> i32 {
        remainder(self.value() as int, other as int) as i32
    }
}

/// The raw remainder of the stored value and the value stored in another
/// instance. It may lie outside the bounds.
impl Rem<WrappingI32> for WrappingI32 {
    type Output = i32;

    fn rem(self, other: WrappingI32) -> (r: i32) {
        self.inner % other.inner
    }
}

impl RemSpecImpl<WrappingI32> for WrappingI32 {
    open spec fn obeys_rem_spec() -> bool {
        true
    }

    open spec fn rem_req(self, other: WrappingI32) -> bool {
        other.value() != 0 && !(self.value() == i32::MIN && other.value() == -1)
    }

    open spec fn rem_spec(self, other: WrappingI32) -> i32 {
        remainder(self.value() as int, other.value() as int) as i32
    }
}

/// Adds a bare number and folds the exact result back into the range. Nothing
/// overflows on the way, however large the operand is.
impl AddAssign<i32> for WrappingI32 {
    fn add_assign(&mut self, other: i32)
        ensures
            final(self).value() == wrap(
                old(self).value() + other,
                old(self).lower() as int,
                old(self).upper() as int,
            ),
            final(self).lower() == old(self).lower(),
            final(self).upper() == old(self).upper(),
    {
        proof {
            use_type_invariant(&*self);
        }
        self.inner = wrap_add_i128(
            self.inner as i128,
            other as i128,
            self.min as i128,
            self.max as i128,
        ) as i32;
    }
}

/// Adds the value stored in another instance and folds the exact result back
/// into the range. Nothing overflows on the way, however large the operand is.
impl AddAssign<WrappingI32> for WrappingI32 {
    fn add_assign(&mut self, other: WrappingI32)
        ensures
            final(self).value() == wrap(
                old(self).value() + other.value(),
                old(self).lower() as int,
                old(self).upper() as int,
            ),
            final(self).lower() == old(self).lower(),
            final(self).upper() == old(self).upper(),
    {
        proof {
            use_type_invariant(&*self);
        }
        self.inner = wrap_add_i128(
            self.inner as i128,
            other.inner as i128,
            self.min as i128,
            self.max as i128,
        ) as i32;
    }
}

/// Takes away a bare number and folds the exact result back into the range.
/// Nothing overflows on the way, however large the operand is.
impl SubAssign<i32> for WrappingI32 {
    fn sub_assign(&mut self, other: i32)
        ensures
            final(self).value() == wrap(
                old(self).value() - other,
                old(self).lower() as int,
                old(self).upper() as int,
            ),
            final(self).lower() == old(self).lower(),
            final(self).upper() == old(self).upper(),
    {
        proof {
            use_type_invariant(&*self);
        }
        self.inner = wrap_sub_i128(
            self.inner as i128,
            other as i128,
            self.min as i128,
            self.max as i128,
        ) as i32;
    }
}

/// Takes away the value stored in another instance and folds the exact result
/// back into the range. Nothing overflows on the way, however large the operand
/// is.
impl SubAssign<WrappingI32> for WrappingI32 {
    fn sub_assign(&mut self, other: WrappingI32)
        ensures
            final(self).value() == wrap(
                old(self).value() - other.value(),
                old(self).lower() as int,
                old(self).upper() as int,
            ),
            final(self).lower() == old(self).lower(),
            final(self).upper() == old(self).upper(),
    {
        proof {
            use_type_invariant(&*self);
        }
        self.inner = wrap_sub_i128(
            self.inner as i128,
            other.inner as i128,
            self.min as i128,
            self.max as i128,
        ) as i32;
    }
}

/// Multiplies by a bare number and folds the exact product back into the range.
/// Nothing overflows on the way, however large the operand is.
impl MulAssign<i32> for WrappingI32 {
    fn mul_assign(&mut self, other: i32)
        ensures
            final(self).value() == wrap(
                old(self).value() * other,
                old(self).lower() as int,
                old(self).upper() as int,
            ),
            final(self).lower() == old(self).lower(),
            final(self).upper() == old(self).upper(),
    {
        proof {
            use_type_invariant(&*self);
        }
        self.inner = wrap_mul_i128(
            self.inner as i128,
            other as i128,
            self.min as i128,
            self.max as i128,
        ) as i32;
    }
}

/// Multiplies by the value stored in another instance and folds the exact
/// product back into the range. Nothing overflows on the way, however large the
/// operand is.
impl MulAssign<WrappingI32> for WrappingI32 {
    fn mul_assign(&mut self, other: WrappingI32)
        ensures
            final(self).value() == wrap(
                old(self).value() * other.value(),
                old(self).lower() as int,
                old(self).upper() as int,
            ),
            final(self).lower() == old(self).lower(),
            final(self).upper() == old(self).upper(),
    {
        proof {
            use_type_invariant(&*self);
        }
        self.inner = wrap_mul_i128(
            self.inner as i128,
            other.inner as i128,
            self.min as i128,
            self.max as i128,
        ) as i32;
    }
}

/// Divides by a bare number, rounding toward zero, and folds the exact quotient
/// back into the range. Nothing overflows on the way.
impl DivAssign<i32> for WrappingI32 {
    fn div_assign(&mut self, other: i32)
        requires
            other != 0,
        ensures
            final(self).value() == wrap(
                quotient(old(self).value() as int, other as int),
                old(self).lower() as int,
                old(self).upper() as int,
            ),
            final(self).lower() == old(self).lower(),
            final(self).upper() == old(self).upper(),
    {
        proof {
            use_type_invariant(&*self);
        }
        self.inner = wrap_div_i128(
            self.inner as i128,
            other as i128,
            self.min as i128,
            self.max as i128,
        ) as i32;
    }
}

/// Divides by the value stored in another instance, rounding toward zero, and
/// folds the exact quotient back into the range. Nothing overflows on the way.
impl DivAssign<WrappingI32> for WrappingI32 {
    fn div_assign(&mut self, other: WrappingI32)
        requires
            other.value() != 0,
        ensures
            final(self).value() == wrap(
                quotient(old(self).value() as int, other.value() as int),
                old(self).lower() as int,
                old(self).upper() as int,
            ),
            final(self).lower() == old(self).lower(),
            final(self).upper() == old(self).upper(),
    {
        proof {
            use_type_invariant(&*self);
        }
        self.inner = wrap_div_i128(
            self.inner as i128,
            other.inner as i128,
            self.min as i128,
            self.max as i128,
        ) as i32;
    }
}

/// Takes the remainder by a bare number and folds it back into the range.
/// Nothing overflows on the way.
impl RemAssign<i32> for WrappingI32 {
    fn rem_assign(&mut self, other: i32)
        requires
            other != 0,
        ensures
            final(self).value() == wrap(
                remainder(old(self).value() as int, other as int),
                old(self).lower() as int,
                old(self).upper() as int,
            ),
            final(self).lower() == old(self).lower(),
            final(self).upper() == old(self).upper(),
    {
        proof {
            use_type_invariant(&*self);
        }
        self.inner = wrap_rem_i128(
            self.inner as i128,
            other as i128,
            self.min as i128,
            self.max as i128,
        ) as i32;
    }
}

/// Takes the remainder by the value stored in another instance and folds it
/// back into the range. Nothing overflows on the way.
impl RemAssign<WrappingI32> for WrappingI32 {
    fn rem_assign(&mut self, other: WrappingI32)
        requires
            other.value() != 0,
        ensures
            final(self).value() == wrap(
                remainder(old(self).value() as int, other.value() as int),
                old(self).lower() as int,
                old(self).upper() as int,
            ),
            final(self).lower() == old(self).lower(),
            final(self).upper() == old(self).upper(),
    {
        proof {
            use_type_invariant(&*self);
        }
        self.inner = wrap_rem_i128(
            self.inner as i128,
            other.inner as i128,
            self.min as i128,
            self.max as i128,
        ) as i32;
    }
}

/// Equal to a bare number exactly when the stored values are equal.
impl PartialEq<i32> for WrappingI32 {
    fn eq(&self, other: &i32) -> (r: bool) {
        self.inner == *other
    }
}

impl PartialEqSpecImpl<i32> for WrappingI32 {
    open spec fn obeys_eq_spec() -> bool {
        true
    }

    open spec fn eq_spec(&self, other: &i32) -> bool {
        self.value() == *other
    }
}

/// Equal to another instance exactly when the stored values are equal; the
/// bounds play no part.
impl PartialEq<WrappingI32> for WrappingI32 {
    fn eq(&self, other: &WrappingI32) -> (r: bool) {
        self.inner == other.inner
    }
}

impl PartialEqSpecImpl<WrappingI32> for WrappingI32 {
    open spec fn obeys_eq_spec() -> bool {
        true
    }

    open spec fn eq_spec(&self, other: &WrappingI32) -> bool {
        self.value() == other.value()
    }
}

/// Ordered against a bare number by the stored values.
impl PartialOrd<i32> for WrappingI32 {
    fn partial_cmp(&self, other: &i32) -> (r: Option<Ordering>) {
        self.inner.partial_cmp(other)
    }
}

impl PartialOrdSpecImpl<i32> for WrappingI32 {
    open spec fn obeys_partial_cmp_spec() -> bool {
        true
    }

    open spec fn partial_cmp_spec(&self, other: &i32) -> Option<Ordering> {
        if self.value() < *other {
            Some(Ordering::Less)
        } else if self.value() > *other {
            Some(Ordering::Greater)
        } else {
            Some(Ordering::Equal)
        }
    }
}

/// Ordered against another instance by the stored values; the bounds play no
/// part.
impl PartialOrd<WrappingI32> for WrappingI32 {
    fn partial_cmp(&self, other: &WrappingI32) -> (r: Option<Ordering>) {
        self.inner.partial_cmp(&other.inner)
    }
}

impl PartialOrdSpecImpl<WrappingI32> for WrappingI32 {
    open spec fn obeys_partial_cmp_spec() -> bool {
        true
    }

    open spec fn partial_cmp_spec(&self, other: &WrappingI32) -> Option<Ordering> {
        if self.value() < other.value() {
            Some(Ordering::Less)
        } else if self.value() > other.value() {
            Some(Ordering::Greater)
        } else {
            Some(Ordering::Equal)
        }
    }
}

} // verus!
