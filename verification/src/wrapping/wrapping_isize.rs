//! An `isize` that wraps around inside bounds chosen when it is made.
use crate::model::in_range;
use crate::model::lemma_quotient_bounds;
use crate::model::lemma_wrap_fixes_range;
use crate::model::quotient;
use crate::model::remainder;
use crate::model::wrap;
use crate::model::wrapped_difference;
use crate::wide::wrap_add_i128;
use crate::wide::wrap_div_i128;
use crate::wide::wrap_i128;
use crate::wide::wrap_mul_i128;
use crate::wide::wrap_rem_i128;
use crate::wide::wrap_sub_i128;
use core::cmp::Ordering;
use core::ops::Add;
use core::ops::AddAssign;
use core::ops::Div;
use core::ops::DivAssign;
use core::ops::Mul;
use core::ops::MulAssign;
use core::ops::Range;
use core::ops::Rem;
use core::ops::RemAssign;
use core::ops::Sub;
use core::ops::SubAssign;
use vstd::prelude::*;
use vstd::std_specs::cmp::PartialEqSpecImpl;
use vstd::std_specs::cmp::PartialOrdSpecImpl;
use vstd::std_specs::ops::AddSpecImpl;
use vstd::std_specs::ops::DivSpecImpl;
use vstd::std_specs::ops::MulSpecImpl;
use vstd::std_specs::ops::RemSpecImpl;
use vstd::std_specs::ops::SubSpecImpl;

verus! {

/// An `isize` kept inside `min..max` by wrapping around.
///
/// The plain operators hand back the raw `isize` result; the assigning
/// operators fold their result back into the range.
#[derive(Debug, Clone, Copy, Eq)]
pub struct WrappingISize {
    inner: isize,
    min: isize,
    max: isize,
}

impl WrappingISize {
    #[verifier::type_invariant]
    spec fn in_bounds(self) -> bool {
        self.min <= self.inner < self.max
    }

    /// The stored value.
    pub closed spec fn value(self) -> isize {
        self.inner
    }

    /// The lower bound, which the value may reach.
    pub closed spec fn lower(self) -> isize {
        self.min
    }

    /// The upper bound, which the value stays below.
    pub closed spec fn upper(self) -> isize {
        self.max
    }

    /// Folds `inner` into `min..max`.
    pub fn new(inner: isize, min: isize, max: isize) -> (r: Self)
        requires
            min < max,
        ensures
            r.value() == wrap(inner as int, min as int, max as int),
            in_range(inner as int, min as int, max as int) ==> r.value() == inner,
            r.lower() == min,
            r.upper() == max,
    {
        proof {
            if in_range(inner as int, min as int, max as int) {
                lemma_wrap_fixes_range(inner as int, min as int, max as int);
            }
        }
        Self { inner: wrap_i128(inner as i128, min as i128, max as i128) as isize, min, max }
    }

    /// The stored value, which always lies in `min..max`.
    pub fn inner(&self) -> (r: isize)
        ensures
            r == self.value(),
            self.lower() <= r < self.upper(),
    {
        proof {
            use_type_invariant(self);
        }
        self.inner
    }

    /// The range the value lives in.
    pub fn range(&self) -> (r: Range<isize>)
        ensures
            r.start == self.lower(),
            r.end == self.upper(),
            r.start < r.end,
    {
        proof {
            use_type_invariant(self);
        }
        self.min..self.max
    }

    /// The lower bound, which the value may reach.
    pub fn min_bound(&self) -> (r: isize)
        ensures
            r == self.lower(),
    {
        self.min
    }

    /// The upper bound, which the value stays below.
    pub fn max_bound(&self) -> (r: isize)
        ensures
            r == self.upper(),
    {
        self.max
    }
}

/// The raw sum of the stored value and a bare number. It may lie outside the
/// bounds.
impl Add<isize> for WrappingISize {
    type Output = isize;

    fn add(self, other: isize) -> (r: isize) {
        self.inner + other
    }
}

impl AddSpecImpl<isize> for WrappingISize {
    open spec fn obeys_add_spec() -> bool {
        true
    }

    open spec fn add_req(self, other: isize) -> bool {
        isize::MIN <= self.value() + other <= isize::MAX
    }

    open spec fn add_spec(self, other: isize) -> isize {
        (self.value() + other) as isize
    }
}

/// The raw sum of the stored value and the value stored in another instance. It
/// may lie outside the bounds.
impl Add<WrappingISize> for WrappingISize {
    type Output = isize;

    fn add(self, other: WrappingISize) -> (r: isize) {
        self.inner + other.inner
    }
}

impl AddSpecImpl<WrappingISize> for WrappingISize {
    open spec fn obeys_add_spec() -> bool {
        true
    }

    open spec fn add_req(self, other: WrappingISize) -> bool {
        isize::MIN <= self.value() + other.value() <= isize::MAX
    }

    open spec fn add_spec(self, other: WrappingISize) -> isize {
        (self.value() + other.value()) as isize
    }
}

/// The raw difference of the stored value and a bare number. A subtrahend
/// greater than the stored value is folded into the range before it is taken
/// away.
impl Sub<isize> for WrappingISize {
    type Output = isize;

    fn sub(self, other: isize) -> (r: isize) {
        proof {
            use_type_invariant(self);
        }
        if other > self.inner {
            self.inner - wrap_i128(other as i128, self.min as i128, self.max as i128) as isize
        } else {
            self.inner - other
        }
    }
}

impl SubSpecImpl<isize> for WrappingISize {
    open spec fn obeys_sub_spec() -> bool {
        true
    }

    open spec fn sub_req(self, other: isize) -> bool {
        isize::MIN <= wrapped_difference(
            self.value() as int,
            other as int,
            self.lower() as int,
            self.upper() as int,
        ) <= isize::MAX
    }

    open spec fn sub_spec(self, other: isize) -> isize {
        wrapped_difference(
            self.value() as int,
            other as int,
            self.lower() as int,
            self.upper() as int,
        ) as isize
    }
}

/// The raw difference of the stored value and the value stored in another
/// instance. A subtrahend greater than the stored value is folded into the
/// range before it is taken away.
impl Sub<WrappingISize> for WrappingISize {
    type Output = isize;

    fn sub(self, other: WrappingISize) -> (r: isize) {
        proof {
            use_type_invariant(self);
        }
        if other.inner > self.inner {
            self.inner - wrap_i128(other.inner as i128, self.min as i128, self.max as i128) as isize
        } else {
            self.inner - other.inner
        }
    }
}

impl SubSpecImpl<WrappingISize> for WrappingISize {
    open spec fn obeys_sub_spec() -> bool {
        true
    }

    open spec fn sub_req(self, other: WrappingISize) -> bool {
        isize::MIN <= wrapped_difference(
            self.value() as int,
            other.value() as int,
            self.lower() as int,
            self.upper() as int,
        ) <= isize::MAX
    }

    open spec fn sub_spec(self, other: WrappingISize) -> isize {
        wrapped_difference(
            self.value() as int,
            other.value() as int,
            self.lower() as int,
            self.upper() as int,
        ) as isize
    }
}

/// The raw product of the stored value and a bare number. It may lie outside
/// the bounds.
impl Mul<isize> for WrappingISize {
    type Output = isize;

    fn mul(self, other: isize) -> (r: isize) {
        self.inner * other
    }
}

impl MulSpecImpl<isize> for WrappingISize {
    open spec fn obeys_mul_spec() -> bool {
        true
    }

    open spec fn mul_req(self, other: isize) -> bool {
        isize::MIN <= self.value() * other <= isize::MAX
    }

    open spec fn mul_spec(self, other: isize) -> isize {
        (self.value() * other) as isize
    }
}

/// The raw product of the stored value and the value stored in another
/// instance. It may lie outside the bounds.
impl Mul<WrappingISize> for WrappingISize {
    type Output = isize;

    fn mul(self, other: WrappingISize) -> (r: isize) {
        self.inner * other.inner
    }
}

impl MulSpecImpl<WrappingISize> for WrappingISize {
    open spec fn obeys_mul_spec() -> bool {
        true
    }

    open spec fn mul_req(self, other: WrappingISize) -> bool {
        isize::MIN <= self.value() * other.value() <= isize::MAX
    }

    open spec fn mul_spec(self, other: WrappingISize) -> isize {
        (self.value() * other.value()) as isize
    }
}

/// The raw quotient of the stored value and a bare number. It may lie outside
/// the bounds.
impl Div<isize> for WrappingISize {
    type Output = isize;

    fn div(self, other: isize) -> (r: isize) {
        proof {
            lemma_quotient_bounds(self.value() as int, other as int);
        }
        self.inner / other
    }
}

impl DivSpecImpl<isize> for WrappingISize {
    open spec fn obeys_div_spec() -> bool {
        true
    }

    open spec fn div_req(self, other: isize) -> bool {
        other != 0 && !(self.value() == isize::MIN && other == -1)
    }

    open spec fn div_spec(self, other: isize) -> isize {
        quotient(self.value() as int, other as int) as isize
    }
}

/// The raw quotient of the stored value and the value stored in another
/// instance. It may lie outside the bounds.
impl Div<WrappingISize> for WrappingISize {
    type Output = isize;

    fn div(self, other: WrappingISize) -> (r: isize) {
        proof {
            lemma_quotient_bounds(self.value() as int, other.value() as int);
        }
        self.inner / other.inner
    }
}

impl DivSpecImpl<WrappingISize> for WrappingISize {
    open spec fn obeys_div_spec() -> bool {
        true
    }

    open spec fn div_req(self, other: WrappingISize) -> bool {
        other.value() != 0 && !(self.value() == isize::MIN && other.value() == -1)
    }

    open spec fn div_spec(self, other: WrappingISize) -> isize {
        quotient(self.value() as int, other.value() as int) as isize
    }
}

/// The raw remainder of the stored value and a bare number. It may lie outside
/// the bounds.
impl Rem<isize> for WrappingISize {
    type Output = isize;

    fn rem(self, other: isize) -> (r: isize) {
        self.inner % other
    }
}

impl RemSpecImpl<isize> for WrappingISize {
    open spec fn obeys_rem_spec() -> bool {
        true
    }

    open spec fn rem_req(self, other: isize) -> bool {
        other != 0 && !(self.value() == isize::MIN && other == -1)
    }

    open spec fn rem_spec(self, other: isize) -> isize {
        remainder(self.value() as int, other as int) as isize
    }
}

/// The raw remainder of the stored value and the value stored in another
/// instance. It may lie outside the bounds.
impl Rem<WrappingISize> for WrappingISize {
    type Output = isize;

    fn rem(self, other: WrappingISize) -> (r: isize) {
        self.inner % other.inner
    }
}

impl RemSpecImpl<WrappingISize> for WrappingISize {
    open spec fn obeys_rem_spec() -> bool {
        true
    }

    open spec fn rem_req(self, other: WrappingISize) -> bool {
        other.value() != 0 && !(self.value() == isize::MIN && other.value() == -1)
    }

    open spec fn rem_spec(self, other: WrappingISize) -> isize {
        remainder(self.value() as int, other.value() as int) as isize
    }
}

/// Adds a bare number and folds the exact result back into the range. Nothing
/// overflows on the way, however large the operand is.
impl AddAssign<isize> for WrappingISize {
    fn add_assign(&mut self, other: isize)
        ensures
            final(self).value() == wrap(
                old(self).value() + other,
                old(self).lower() as int,
                old(self).upper() as int,
            ),
            final(self).lower() == old(self).lower(),
            final(self).upper() == old(self).upper(),
    {
        proof {
            use_type_invariant(&*self);
        }
        self.inner = wrap_add_i128(
            self.inner as i128,
            other as i128,
            self.min as i128,
            self.max as i128,
        ) as isize;
    }
}

/// Adds the value stored in another instance and folds the exact result back
/// into the range. Nothing overflows on the way, however large the operand is.
impl AddAssign<WrappingISize> for WrappingISize {
    fn add_assign(&mut self, other: WrappingISize)
        ensures
            final(self).value() == wrap(
                old(self).value() + other.value(),
                old(self).lower() as int,
                old(self).upper() as int,
            ),
            final(self).lower() == old(self).lower(),
            final(self).upper() == old(self).upper(),
    {
        proof {
            use_type_invariant(&*self);
        }
        self.inner = wrap_add_i128(
            self.inner as i128,
            other.inner as i128,
            self.min as i128,
            self.max as i128,
        ) as isize;
    }
}

/// Takes away a bare number and folds the exact result back into the range.
/// Nothing overflows on the way, however large the operand is.
impl SubAssign<isize> for WrappingISize {
    fn sub_assign(&mut self, other: isize)
        ensures
            final(self).value() == wrap(
                old(self).value() - other,
                old(self).lower() as int,
                old(self).upper() as int,
            ),
            final(self).lower() == old(self).lower(),
            final(self).upper() == old(self).upper(),
    {
        proof {
            use_type_invariant(&*self);
        }
        self.inner = wrap_sub_i128(
            self.inner as i128,
            other as i128,
            self.min as i128,
            self.max as i128,
        ) as isize;
    }
}

/// Takes away the value stored in another instance and folds the exact result
/// back into the range. Nothing overflows on the way, however large the operand
/// is.
impl SubAssign<WrappingISize> for WrappingISize {
    fn sub_assign(&mut self, other: WrappingISize)
        ensures
            final(self).value() == wrap(
                old(self).value() - other.value(),
                old(self).lower() as int,
                old(self).upper() as int,
            ),
            final(self).lower() == old(self).lower(),
            final(self).upper() == old(self).upper(),
    {
        proof {
            use_type_invariant(&*self);
        }
        self.inner = wrap_sub_i128(
            self.inner as i128,
            other.inner as i128,
            self.min as i128,
            self.max as i128,
        ) as isize;
    }
}

/// Multiplies by a bare number and folds the exact product back into the range.
/// Nothing overflows on the way, however large the operand is.
impl MulAssign<isize> for WrappingISize {
    fn mul_assign(&mut self, other: isize)
        ensures
            final(self).value() == wrap(
                old(self).value() * other,
                old(self).lower() as int,
                old(self).upper() as int,
            ),
            final(self).lower() == old(self).lower(),
            final(self).upper() == old(self).upper(),
    {
        proof {
            use_type_invariant(&*self);
        }
        self.inner = wrap_mul_i128(
            self.inner as i128,
            other as i128,
            self.min as i128,
            self.max as i128,
        ) as isize;
    }
}

/// Multiplies by the value stored in another instance and folds the exact
/// product back into the range. Nothing overflows on the way, however large the
/// operand is.
impl MulAssign<WrappingISize> for WrappingISize {
    fn mul_assign(&mut self, other: WrappingISize)
        ensures
            final(self).value() == wrap(
                old(self).value() * other.value(),
                old(self).lower() as int,
                old(self).upper() as int,
            ),
            final(self).lower() == old(self).lower(),
            final(self).upper() == old(self).upper(),
    {
        proof {
            use_type_invariant(&*self);
        }
        self.inner = wrap_mul_i128(
            self.inner as i128,
            other.inner as i128,
            self.min as i128,
            self.max as i128,
        ) as isize;
    }
}

/// Divides by a bare number, rounding toward zero, and folds the exact quotient
/// back into the range. Nothing overflows on the way.
impl DivAssign<isize> for WrappingISize {
    fn div_assign(&mut self, other: isize)
        requires
            other != 0,
        ensures
            final(self).value() == wrap(
                quotient(old(self).value() as int, other as int),
                old(self).lower() as int,
                old(self).upper() as int,
            ),
            final(self).lower() == old(self).lower(),
            final(self).upper() == old(self).upper(),
    {
        proof {
            use_type_invariant(&*self);
        }
        self.inner = wrap_div_i128(
            self.inner as i128,
            other as i128,
            self.min as i128,
            self.max as i128,
        ) as isize;
    }
}

/// Divides by the value stored in another instance, rounding toward zero, and
/// folds the exact quotient back into the range. Nothing overflows on the way.
impl DivAssign<WrappingISize> for WrappingISize {
    fn div_assign(&mut self, other: WrappingISize)
        requires
            other.value() != 0,
        ensures
            final(self).value() == wrap(
                quotient(old(self).value() as int, other.value() as int),
                old(self).lower() as int,
                old(self).upper() as int,
            ),
            final(self).lower() == old(self).lower(),
            final(self).upper() == old(self).upper(),
    {
        proof {
            use_type_invariant(&*self);
        }
        self.inner = wrap_div_i128(
            self.inner as i128,
            other.inner as i128,
            self.min as i128,
            self.max as i128,
        ) as isize;
    }
}

/// Takes the remainder by a bare number and folds it back into the range.
/// Nothing overflows on the way.
impl RemAssign<isize> for WrappingISize {
    fn rem_assign(&mut self, other: isize)
        requires
            other != 0,
        ensures
            final(self).value() == wrap(
                remainder(old(self).value() as int, other as int),
                old(self).lower() as int,
                old(self).upper() as int,
            ),
            final(self).lower() == old(self).lower(),
            final(self).upper() == old(self).upper(),
    {
        proof {
            use_type_invariant(&*self);
        }
        self.inner = wrap_rem_i128(
            self.inner as i128,
            other as i128,
            self.min as i128,
            self.max as i128,
        ) as isize;
    }
}

/// Takes the remainder by the value stored in another instance and folds it
/// back into the range. Nothing overflows on the way.
impl RemAssign<WrappingISize> for WrappingISize {
    fn rem_assign(&mut self, other: WrappingISize)
        requires
            other.value() != 0,
        ensures
            final(self).value() == wrap(
                remainder(old(self).value() as int, other.value() as int),
                old(self).lower() as int,
                old(self).upper() as int,
            ),
            final(self).lower() == old(self).lower(),
            final(self).upper() == old(self).upper(),
    {
        proof {
            use_type_invariant(&*self);
        }
        self.inner = wrap_rem_i128(
            self.inner as i128,
            other.inner as i128,
            self.min as i128,
            self.max as i128,
        ) as isize;
    }
}

/// Equal to a bare number exactly when the stored values are equal.
impl PartialEq<isize> for WrappingISize {
    fn eq(&self, other: &isize) -> (r: bool) {
        self.inner == *other
    }
}

impl PartialEqSpecImpl<isize> for WrappingISize {
    open spec fn obeys_eq_spec() -> bool {
        true
    }

    open spec fn eq_spec(&self, other: &isize) -> bool {
        self.value() == *other
    }
}

/// Equal to another instance exactly when the stored values are equal; the
/// bounds play no part.
impl PartialEq<WrappingISize> for WrappingISize {
    fn eq(&self, other: &WrappingISize) -> (r: bool) {
        self.inner == other.inner
    }
}

impl PartialEqSpecImpl<WrappingISize> for WrappingISize {
    open spec fn obeys_eq_spec() -> bool {
        true
    }

    open spec fn eq_spec(&self, other: &WrappingISize) -> bool {
        self.value() == other.value()
    }
}

/// Ordered against a bare number by the stored values.
impl PartialOrd<isize> for WrappingISize {
    fn partial_cmp(&self, other: &isize) -> (r: Option<Ordering>) {
        self.inner.partial_cmp(other)
    }
}

impl PartialOrdSpecImpl<isize> for WrappingISize {
    open spec fn obeys_partial_cmp_spec() -> bool {
        true
    }

    open spec fn partial_cmp_spec(&self, other: &isize) -> Option<Ordering> {
        if self.value() < *other {
            Some(Ordering::Less)
        } else if self.value() > *other {
            Some(Ordering::Greater)
        } else {
            Some(Ordering::Equal)
        }
    }
}

/// Ordered against another instance by the stored values; the bounds play no
/// part.
impl PartialOrd<WrappingISize> for WrappingISize {
    fn partial_cmp(&self, other: &WrappingISize) -> (r: Option<Ordering>) {
        self.inner.partial_cmp(&other.inner)
    }
}

impl PartialOrdSpecImpl<WrappingISize> for WrappingISize {
    open spec fn obeys_partial_cmp_spec() -> bool {
        true
    }

    open spec fn partial_cmp_spec(&self, other: &WrappingISize) -> Option<Ordering> {
        if self.value() < other.value() {
            Some(Ordering::Less)
        } else if self.value() > other.value() {
            Some(Ordering::Greater)
        } else {
            Some(Ordering::Equal)
        }
    }
}

} // verus!
