//! An `i8` that wraps around inside bounds chosen when it is made.
use crate::model::in_range;
use crate::model::lemma_quotient_bounds;
use crate::model::lemma_wrap_fixes_range;
use crate::model::quotient;
use crate::model::remainder;
use crate::model::wrap;
use crate::model::wrapped_difference;
use crate::wide::wrap_add_i128;
use crate::wide::wrap_div_i128;
use crate::wide::wrap_i128;
use crate::wide::wrap_mul_i128;
use crate::wide::wrap_rem_i128;
use crate::wide::wrap_sub_i128;
use core::cmp::Ordering;
use core::ops::Add;
use core::ops::AddAssign;
use core::ops::Div;
use core::ops::DivAssign;
use core::ops::Mul;
use core::ops::MulAssign;
use core::ops::Range;
use core::ops::Rem;
use core::ops::RemAssign;
use core::ops::Sub;
use core::ops::SubAssign;
use vstd::prelude::*;
use vstd::std_specs::cmp::PartialEqSpecImpl;
use vstd::std_specs::cmp::PartialOrdSpecImpl;
use vstd::std_specs::ops::AddSpecImpl;
use vstd::std_specs::ops::DivSpecImpl;
use vstd::std_specs::ops::MulSpecImpl;
use vstd::std_specs::ops::RemSpecImpl;
use vstd::std_specs::ops::SubSpecImpl;

verus! {

/// An `i8` kept inside `min..max` by wrapping around.
///
/// The plain operators hand back the raw `i8` result; the assigning
/// operators fold their result back into the range.
#[derive(Debug, Clone, Copy, Eq)]
pub struct WrappingI8 {
    inner: i8,
    min: i8,
    max: i8,
}

impl WrappingI8 {
    #[verifier::type_invariant]
    spec fn in_bounds(self) -> bool {
        self.min <= self.inner < self.max
    }

    /// The stored value.
    pub closed spec fn value(self) -> i8 {
        self.inner
    }

    /// The lower bound, which the value may reach.
    pub closed spec fn lower(self) -> i8 {
        self.min
    }

    /// The upper bound, which the value stays below.
    pub closed spec fn upper(self) -> i8 {
        self.max
    }

    /// Folds `inner` into `min..max`.
    pub fn new(inner: i8, min: i8, max: i8) -> (r: Self)
        requires
            min < max,
        ensures
            r.value() == wrap(inner as int, min as int, max as int),
            in_range(inner as int, min as int, max as int) ==> r.value() == inner,
            r.lower() == min,
            r.upper() == max,
    {
        proof {
            if in_range(inner as int, min as int, max as int) {
                lemma_wrap_fixes_range(inner as int, min as int, max as int);
            }
        }
        Self { inner: wrap_i128(inner as i128, min as i128, max as i128) as i8, min, max }
    }

    /// The stored value, which always lies in `min..max`.
    pub fn inner(&self) -> (r: i8)
        ensures
            r == self.value(),
            self.lower() <= r < self.upper(),
    {
        proof {
            use_type_invariant(self);
        }
        self.inner
    }

    /// The range the value lives in.
    pub fn range(&self) -> (r: Range<i8>)
        ensures
            r.start == self.lower(),
            r.end == self.upper(),
            r.start < r.end,
    {
        proof {
            use_type_invariant(self);
        }
        self.min..self.max
    }

    /// The lower bound, which the value may reach.
    pub fn min_bound(&self) -> (r: i8)
        ensures
            r == self.lower(),
    {
        self.min
    }

    /// The upper bound, which the value stays below.
    pub fn max_bound(&self) -> (r: i8)
        ensures
            r == self.upper(),
    {
        self.max
    }
}

/// The raw sum of the stored value and a bare number. It may lie outside the
/// bounds.
impl Add<i8> for WrappingI8 {
    type Output = i8;

    fn add(self, other: i8) -> (r: i8) {
        self.inner + other
    }
}

impl AddSpecImpl<i8> for WrappingI8 {
    open spec fn obeys_add_spec() -> bool {
        true
    }

    open spec fn add_req(self, other: i8) -> bool {
        i8::MIN <= self.value() + other <= i8::MAX
    }

    open spec fn add_spec(self, other: i8) -> i8 {
        (self.value() + other) as i8
    }
}

/// The raw sum of the stored value and the value stored in another instance. It
/// may lie outside the bounds.
impl Add<WrappingI8> for WrappingI8 {
    type Output = i8;

    fn add(self, other: WrappingI8) -> (r: i8) {
        self.inner + other.inner
    }
}

impl AddSpecImpl<WrappingI8> for WrappingI8 {
    open spec fn obeys_add_spec() -> bool {
        true
    }

    open spec fn add_req(self, other: WrappingI8) -> bool {
        i8::MIN <= self.value() + other.value() <= i8::MAX
    }

    open spec fn add_spec(self, other: WrappingI8) -> i8 {
        (self.value() + other.value()) as i8
    }
}

/// The raw difference of the stored value and a bare number. A subtrahend
/// greater than the stored value is folded into the range before it is taken
/// away.
impl Sub<i8> for WrappingI8 {
    type Output = i8;

    fn sub(self, other: i8) -> (r: i8) {
        proof {
            use_type_invariant(self);
        }
        if other > self.inner {
            self.inner - wrap_i128(other as i128, self.min as i128, self.max as i128) as i8
        } else {
            self.inner - other
        }
    }
}

impl SubSpecImpl<i8> for WrappingI8 {
    open spec fn obeys_sub_spec() -> bool {
        true
    }

    open spec fn sub_req(self, other: i8) -> bool {
        i8::MIN <= wrapped_difference(
            self.value() as int,
            other as int,
            self.lower() as int,
            self.upper() as int,
        ) <= i8::MAX
    }

    open spec fn sub_spec(self, other: i8) -> i8 {
        wrapped_difference(
            self.value() as int,
            other as int,
            self.lower() as int,
            self.upper() as int,
        ) as i8
    }
}

/// The raw difference of the stored value and the value stored in another
/// instance. A subtrahend greater than the stored value is folded into the
/// range before it is taken away.
impl Sub<WrappingI8> for WrappingI8 {
    type Output = i8;

    fn sub(self, other: WrappingI8) -> (r: i8) {
        proof {
            use_type_invariant(self);
        }
        if other.inner > self.inner {
            self.inner - wrap_i128(other.inner as i128, self.min as i128, self.max as i128) as i8
        } else {
            self.inner - other.inner
        }
    }
}

impl SubSpecImpl<WrappingI8> for WrappingI8 {
    open spec fn obeys_sub_spec() -> bool {
        true
    }

    open spec fn sub_req(self, other: WrappingI8) -> bool {
        i8::MIN <= wrapped_difference(
            self.value() as int,
            other.value() as int,
            self.lower() as int,
            self.upper() as int,
        ) <= i8::MAX
    }

    open spec fn sub_spec(self, other: WrappingI8) -> i8 {
        wrapped_difference(
            self.value() as int,
            other.value() as int,
            self.lower() as int,
            self.upper() as int,
        ) as i8
    }
}

/// The raw product of the stored value and a bare number. It may lie outside
/// the bounds.
impl Mul<i8> for WrappingI8 {
    type Output = i8;

    fn mul(self, other: i8) -> (r: i8) {
        self.inner * other
    }
}

impl MulSpecImpl<i8> for WrappingI8 {
    open spec fn obeys_mul_spec() -> bool {
        true
    }

    open spec fn mul_req(self, other: i8) -> bool {
        i8::MIN <= self.value() * other <= i8::MAX
    }

    open spec fn mul_spec(self, other: i8) -> i8 {
        (self.value() * other) as i8
    }
}

/// The raw product of the stored value and the value stored in another
/// instance. It may lie outside the bounds.
impl Mul<WrappingI8> for WrappingI8 {
    type Output = i8;

    fn mul(self, other: WrappingI8) -> (r: i8) {
        self.inner * other.inner
    }
}

impl MulSpecImpl<WrappingI8> for WrappingI8 {
    open spec fn obeys_mul_spec() -> bool {
        true
    }

    open spec fn mul_req(self, other: WrappingI8) -> bool {
        i8::MIN <= self.value() * other.value() <= i8::MAX
    }

    open spec fn mul_spec(self, other: WrappingI8) -> i8 {
        (self.value() * other.value()) as i8
    }
}

/// The raw quotient of the stored value and a bare number. It may lie outside
/// the bounds.
impl Div<i8> for WrappingI8 {
    type Output = i8;

    fn div(self, other: i8) -> (r: i8) {
        proof {
            lemma_quotient_bounds(self.value() as int, other as int);
        }
        self.inner / other
    }
}

impl DivSpecImpl<i8> for WrappingI8 {
    open spec fn obeys_div_spec() -> bool {
        true
    }

    open spec fn div_req(self, other: i8) -> bool {
        other != 0 && !(self.value() == i8::MIN && other == -1)
    }

    open spec fn div_spec(self, other: i8) -> i8 {
        quotient(self.value() as int, other as int) as i8
    }
}

/// The raw quotient of the stored value and the value stored in another
/// instance. It may lie outside the bounds.
impl Div<WrappingI8> for WrappingI8 {
    type Output = i8;

    fn div(self, other: WrappingI8) -> (r: i8) {
        proof {
            lemma_quotient_bounds(self.value() as int, other.value() as int);
        }
        self.inner / other.inner
    }
}

impl DivSpecImpl<WrappingI8> for WrappingI8 {
    open spec fn obeys_div_spec() -> bool {
        true
    }

    open spec fn div_req(self, other: WrappingI8) -> bool {
        other.value() != 0 && !(self.value() == i8::MIN && other.value() == -1)
    }

    open spec fn div_spec(self, other: WrappingI8) -> i8 {
        quotient(self.value() as int, other.value() as int) as i8
    }
}

/// The raw remainder of the stored value and a bare number. It may lie outside
/// the bounds.
impl Rem<i8> for WrappingI8 {
    type Output = i8;

    fn rem(self, other: i8) -> (r: i8) {
        self.inner % other
    }
}

impl RemSpecImpl<i8> for WrappingI8 {
    open spec fn obeys_rem_spec() -> bool {
        true
    }

    open spec fn rem_req(self, other: i8) -> bool {
        other != 0 && !(self.value() == i8::MIN && other == -1)
    }

    open spec fn rem_spec(self, other: i8) -> i8 {
        remainder(self.value() as int, other as int) as i8
    }
}

/// The raw remainder of the stored value and the value stored in another
/// instance. It may lie outside the bounds.
impl Rem<WrappingI8> for WrappingI8 {
    type Output = i8;

    fn rem(self, other: WrappingI8) -> (r: i8) {
        self.inner % other.inner
    }
}

impl RemSpecImpl<WrappingI8> for WrappingI8 {
    open spec fn obeys_rem_spec() -> bool {
        true
    }

    open spec fn rem_req(self, other: WrappingI8) -> bool {
        other.value() != 0 && !(self.value() == i8::MIN && other.value() == -1)
    }

    open spec fn rem_spec(self, other: WrappingI8) -> i8 {
        remainder(self.value() as int, other.value() as int) as i8
    }
}

/// Adds a bare number and folds the exact result back into the range. Nothing
/// overflows on the way, however large the operand is.
impl AddAssign<i8> for WrappingI8 {
    fn add_assign(&mut self, other: i8)
        ensures
            final(self).value() == wrap(
                old(self).value() + other,
                old(self).lower() as int,
                old(self).upper() as int,
            ),
            final(self).lower() == old(self).lower(),
            final(self).upper() == old(self).upper(),
    {
        proof {
            use_type_invariant(&*self);
        }
        self.inner = wrap_add_i128(
            self.inner as i128,
            other as i128,
            self.min as i128,
            self.max as i128,
        ) as i8;
    }
}

/// Adds the value stored in another instance and folds the exact result back
/// into the range. Nothing overflows on the way, however large the operand is.
impl AddAssign<WrappingI8> for WrappingI8 {
    fn add_assign(&mut self, other: WrappingI8)
        ensures
            final(self).value() == wrap(
                old(self).value() + other.value(),
                old(self).lower() as int,
                old(self).upper() as int,
            ),
            final(self).lower() == old(self).lower(),
            final(self).upper() == old(self).upper(),
    {
        proof {
            use_type_invariant(&*self);
        }
        self.inner = wrap_add_i128(
            self.inner as i128,
            other.inner as i128,
            self.min as i128,
            self.max as i128,
        ) as i8;
    }
}

/// Takes away a bare number and folds the exact result back into the range.
/// Nothing overflows on the way, however large the operand is.
impl SubAssign<i8> for WrappingI8 {
    fn sub_assign(&mut self, other: i8)
        ensures
            final(self).value() == wrap(
                old(self).value() - other,
                old(self).lower() as int,
                old(self).upper() as int,
            ),
            final(self).lower() == old(self).lower(),
            final(self).upper() == old(self).upper(),
    {
        proof {
            use_type_invariant(&*self);
        }
        self.inner = wrap_sub_i128(
            self.inner as i128,
            other as i128,
            self.min as i128,
            self.max as i128,
        ) as i8;
    }
}

/// Takes away the value stored in another instance and folds the exact result
/// back into the range. Nothing overflows on the way, however large the operand
/// is.
impl SubAssign<WrappingI8> for WrappingI8 {
    fn sub_assign(&mut self, other: WrappingI8)
        ensures
            final(self).value() == wrap(
                old(self).value() - other.value(),
                old(self).lower() as int,
                old(self).upper() as int,
            ),
            final(self).lower() == old(self).lower(),
            final(self).upper() == old(self).upper(),
    {
        proof {
            use_type_invariant(&*self);
        }
        self.inner = wrap_sub_i128(
            self.inner as i128,
            other.inner as i128,
            self.min as i128,
            self.max as i128,
        ) as i8;
    }
}

/// Multiplies by a bare number and folds the exact product back into the range.
/// Nothing overflows on the way, however large the operand is.
impl MulAssign<i8> for WrappingI8 {
    fn mul_assign(&mut self, other: i8)
        ensures
            final(self).value() == wrap(
                old(self).value() * other,
                old(self).lower() as int,
                old(self).upper() as int,
            ),
            final(self).lower() == old(self).lower(),
            final(self).upper() == old(self).upper(),
    {
        proof {
            use_type_invariant(&*self);
        }
        self.inner = wrap_mul_i128(
            self.inner as i128,
            other as i128,
            self.min as i128,
            self.max as i128,
        ) as i8;
    }
}

/// Multiplies by the value stored in another instance and folds the exact
/// product back into the range. Nothing overflows on the way, however large the
/// operand is.
impl MulAssign<WrappingI8> for WrappingI8 {
    fn mul_assign(&mut self, other: WrappingI8)
        ensures
            final(self).value() == wrap(
                old(self).value() * other.value(),
                old(self).lower() as int,
                old(self).upper() as int,
            ),
            final(self).lower() == old(self).lower(),
            final(self).upper() == old(self).upper(),
    {
        proof {
            use_type_invariant(&*self);
        }
        self.inner = wrap_mul_i128(
            self.inner as i128,
            other.inner as i128,
            self.min as i128,
            self.max as i128,
        ) as i8;
    }
}

/// Divides by a bare number, rounding toward zero, and folds the exact quotient
/// back into the range. Nothing overflows on the way.
impl DivAssign<i8> for WrappingI8 {
    fn div_assign(&mut self, other: i8)
        requires
            other != 0,
        ensures
            final(self).value() == wrap(
                quotient(old(self).value() as int, other as int),
                old(self).lower() as int,
                old(self).upper() as int,
            ),
            final(self).lower() == old(self).lower(),
            final(self).upper() == old(self).upper(),
    {
        proof {
            use_type_invariant(&*self);
        }
        self.inner = wrap_div_i128(
            self.inner as i128,
            other as i128,
            self.min as i128,
            self.max as i128,
        ) as i8;
    }
}

/// Divides by the value stored in another instance, rounding toward zero, and
/// folds the exact quotient back into the range. Nothing overflows on the way.
impl DivAssign<WrappingI8> for WrappingI8 {
    fn div_assign(&mut self, other: WrappingI8)
        requires
            other.value() != 0,
        ensures
            final(self).value() == wrap(
                quotient(old(self).value() as int, other.value() as int),
                old(self).lower() as int,
                old(self).upper() as int,
            ),
            final(self).lower() == old(self).lower(),
            final(self).upper() == old(self).upper(),
    {
        proof {
            use_type_invariant(&*self);
        }
        self.inner = wrap_div_i128(
            self.inner as i128,
            other.inner as i128,
            self.min as i128,
            self.max as i128,
        ) as i8;
    }
}

/// Takes the remainder by a bare number and folds it back into the range.
/// Nothing overflows on the way.
impl RemAssign<i8> for WrappingI8 {
    fn rem_assign(&mut self, other: i8)
        requires
            other != 0,
        ensures
            final(self).value() == wrap(
                remainder(old(self).value() as int, other as int),
                old(self).lower() as int,
                old(self).upper() as int,
            ),
            final(self).lower() == old(self).lower(),
            final(self).upper() == old(self).upper(),
    {
        proof {
            use_type_invariant(&*self);
        }
        self.inner = wrap_rem_i128(
            self.inner as i128,
            other as i128,
            self.min as i128,
            self.max as i128,
        ) as i8;
    }
}

/// Takes the remainder by the value stored in another instance and folds it
/// back into the range. Nothing overflows on the way.
impl RemAssign<WrappingI8> for WrappingI8 {
    fn rem_assign(&mut self, other: WrappingI8)
        requires
            other.value() != 0,
        ensures
            final(self).value() == wrap(
                remainder(old(self).value() as int, other.value() as int),
                old(self).lower() as int,
                old(self).upper() as int,
            ),
            final(self).lower() == old(self).lower(),
            final(self).upper() == old(self).upper(),
    {
        proof {
            use_type_invariant(&*self);
        }
        self.inner = wrap_rem_i128(
            self.inner as i128,
            other.inner as i128,
            self.min as i128,
            self.max as i128,
        ) as i8;
    }
}

/// Equal to a bare number exactly when the stored values are equal.
impl PartialEq<i8> for WrappingI8 {
    fn eq(&self, other: &i8) -> (r: bool) {
        self.inner == *other
    }
}

impl PartialEqSpecImpl<i8> for WrappingI8 {
    open spec fn obeys_eq_spec() -> bool {
        true
    }

    open spec fn eq_spec(&self, other: &i8) -> bool {
        self.value() == *other
    }
}

/// Equal to another instance exactly when the stored values are equal; the
/// bounds play no part.
impl PartialEq<WrappingI8> for WrappingI8 {
    fn eq(&self, other: &WrappingI8) -> (r: bool) {
        self.inner == other.inner
    }
}

impl PartialEqSpecImpl<WrappingI8> for WrappingI8 {
    open spec fn obeys_eq_spec() -> bool {
        true
    }

    open spec fn eq_spec(&self, other: &WrappingI8) -> bool {
        self.value() == other.value()
    }
}

/// Ordered against a bare number by the stored values.
impl PartialOrd<i8> for WrappingI8 {
    fn partial_cmp(&self, other: &i8) -> (r: Option<Ordering>) {
        self.inner.partial_cmp(other)
    }
}

impl PartialOrdSpecImpl<i8> for WrappingI8 {
    open spec fn obeys_partial_cmp_spec() -> bool {
        true
    }

    open spec fn partial_cmp_spec(&self, other: &i8) -> Option<Ordering> {
        if self.value() < *other {
            Some(Ordering::Less)
        } else if self.value() > *other {
            Some(Ordering::Greater)
        } else {
            Some(Ordering::Equal)
        }
    }
}

/// Ordered against another instance by the stored values; the bounds play no
/// part.
impl PartialOrd<WrappingI8> for WrappingI8 {
    fn partial_cmp(&self, other: &WrappingI8) -> (r: Option<Ordering>) {
        self.inner.partial_cmp(&other.inner)
    }
}

impl PartialOrdSpecImpl<WrappingI8> for WrappingI8 {
    open spec fn obeys_partial_cmp_spec() -> bool {
        true
    }

    open spec fn partial_cmp_spec(&self, other: &WrappingI8) -> Option<Ordering> {
        if self.value() < other.value() {
            Some(Ordering::Less)
        } else if self.value() > other.value() {
            Some(Ordering::Greater)
        } else {
            Some(Ordering::Equal)
        }
    }
}

} // verus!
