//! A `usize` that cannot be made outside bounds fixed by its type.
use crate::bounded::rejection;
use crate::bounded::BoundsError;
use crate::model::lemma_quotient_bounds;
use crate::model::quotient;
use crate::model::remainder;
use core::cmp::Ordering;
use core::ops::Add;
use core::ops::Div;
use core::ops::Mul;
use core::ops::Range;
use core::ops::Rem;
use core::ops::Sub;
use vstd::prelude::*;
use vstd::std_specs::cmp::PartialEqSpecImpl;
use vstd::std_specs::cmp::PartialOrdSpecImpl;
use vstd::std_specs::ops::AddSpecImpl;
use vstd::std_specs::ops::DivSpecImpl;
use vstd::std_specs::ops::MulSpecImpl;
use vstd::std_specs::ops::RemSpecImpl;
use vstd::std_specs::ops::SubSpecImpl;

verus! {

/// A `usize` known to lie in `MIN..MAX`.
///
/// The bounds are checked once, when the value is made. The operators
/// hand back the raw `usize` result and check nothing.
#[derive(Debug, Clone, Copy, Eq, Ord)]
pub struct BoundedUSize<const MIN: usize, const MAX: usize>(usize);

impl<const MIN: usize, const MAX: usize> BoundedUSize<MIN, MAX> {
    #[verifier::type_invariant]
    spec fn in_bounds(self) -> bool {
        MIN <= self.0 < MAX
    }

    /// The stored value.
    pub closed spec fn value(self) -> usize {
        self.0
    }

    /// Accepts `inner` unchanged if it lies in `MIN..MAX`, and says on
    /// which side it falls out otherwise.
    pub fn new(inner: usize) -> (r: Result<Self, BoundsError>)
        requires
            MIN < MAX,
        ensures
            match r {
                Ok(b) => {
                    &&& rejection(inner as int, MIN as int, MAX as int) is None
                    &&& b.value() == inner
                },
                Err(e) => rejection(inner as int, MIN as int, MAX as int) == Some(e),
            },
    {
        if inner >= MAX {
            Err(BoundsError::TooLarge)
        } else if inner < MIN {
            Err(BoundsError::TooSmall)
        } else {
            Ok(Self(inner))
        }
    }

    /// The stored value, which always lies in `MIN..MAX`.
    pub fn inner(&self) -> (r: usize)
        ensures
            r == self.value(),
            MIN <= r < MAX,
    {
        proof {
            use_type_invariant(self);
        }
        self.0
    }

    /// The range the value lives in.
    pub fn range(&self) -> (r: Range<usize>)
        ensures
            r.start == MIN,
            r.end == MAX,
            r.start < r.end,
    {
        proof {
            use_type_invariant(self);
        }
        MIN..MAX
    }

    /// The lower bound, which the value may reach.
    pub fn min_bound(&self) -> (r: usize)
        ensures
            r == MIN,
    {
        MIN
    }

    /// The upper bound, which the value stays below.
    pub fn max_bound(&self) -> (r: usize)
        ensures
            r == MAX,
    {
        MAX
    }
}

/// The raw sum of the stored value and a bare number. It may lie outside the
/// bounds.
impl<const MIN: usize, const MAX: usize> Add<usize> for BoundedUSize<MIN, MAX> {
    type Output = usize;

    fn add(self, other: usize) -> (r: usize) {
        self.0 + other
    }
}

impl<const MIN: usize, const MAX: usize> AddSpecImpl<usize> for BoundedUSize<MIN, MAX> {
    open spec fn obeys_add_spec() -> bool {
        true
    }

    open spec fn add_req(self, other: usize) -> bool {
        usize::MIN <= self.value() + other <= usize::MAX
    }

    open spec fn add_spec(self, other: usize) -> usize {
        (self.value() + other) as usize
    }
}

/// The raw sum of the stored value and the value stored in another instance. It
/// may lie outside the bounds.
impl<
    const MIN: usize,
    const MAX: usize,
    const OTHER_MIN: usize,
    const OTHER_MAX: usize,
> Add<BoundedUSize<OTHER_MIN, OTHER_MAX>> for BoundedUSize<MIN, MAX> {
    type Output = usize;

    fn add(self, other: BoundedUSize<OTHER_MIN, OTHER_MAX>) -> (r: usize) {
        self.0 + other.0
    }
}

impl<
    const MIN: usize,
    const MAX: usize,
    const OTHER_MIN: usize,
    const OTHER_MAX: usize,
> AddSpecImpl<BoundedUSize<OTHER_MIN, OTHER_MAX>> for BoundedUSize<MIN, MAX> {
    open spec fn obeys_add_spec() -> bool {
        true
    }

    open spec fn add_req(self, other: BoundedUSize<OTHER_MIN, OTHER_MAX>) -> bool {
        usize::MIN <= self.value() + other.value() <= usize::MAX
    }

    open spec fn add_spec(self, other: BoundedUSize<OTHER_MIN, OTHER_MAX>) -> usize {
        (self.value() + other.value()) as usize
    }
}

/// The raw difference of the stored value and a bare number. It may lie outside
/// the bounds.
impl<const MIN: usize, const MAX: usize> Sub<usize> for BoundedUSize<MIN, MAX> {
    type Output = usize;

    fn sub(self, other: usize) -> (r: usize) {
        self.0 - other
    }
}

impl<const MIN: usize, const MAX: usize> SubSpecImpl<usize> for BoundedUSize<MIN, MAX> {
    open spec fn obeys_sub_spec() -> bool {
        true
    }

    open spec fn sub_req(self, other: usize) -> bool {
        usize::MIN <= self.value() - other <= usize::MAX
    }

    open spec fn sub_spec(self, other: usize) -> usize {
        (self.value() - other) as usize
    }
}

/// The raw difference of the stored value and the value stored in another
/// instance. It may lie outside the bounds.
impl<
    const MIN: usize,
    const MAX: usize,
    const OTHER_MIN: usize,
    const OTHER_MAX: usize,
> Sub<BoundedUSize<OTHER_MIN, OTHER_MAX>> for BoundedUSize<MIN, MAX> {
    type Output = usize;

    fn sub(self, other: BoundedUSize<OTHER_MIN, OTHER_MAX>) -> (r: usize) {
        self.0 - other.0
    }
}

impl<
    const MIN: usize,
    const MAX: usize,
    const OTHER_MIN: usize,
    const OTHER_MAX: usize,
> SubSpecImpl<BoundedUSize<OTHER_MIN, OTHER_MAX>> for BoundedUSize<MIN, MAX> {
    open spec fn obeys_sub_spec() -> bool {
        true
    }

    open spec fn sub_req(self, other: BoundedUSize<OTHER_MIN, OTHER_MAX>) -> bool {
        usize::MIN <= self.value() - other.value() <= usize::MAX
    }

    open spec fn sub_spec(self, other: BoundedUSize<OTHER_MIN, OTHER_MAX>) -> usize {
        (self.value() - other.value()) as usize
    }
}

/// The raw product of the stored value and a bare number. It may lie outside
/// the bounds.
impl<const MIN: usize, const MAX: usize> Mul<usize> for BoundedUSize<MIN, MAX> {
    type Output = usize;

    fn mul(self, other: usize) -> (r: usize) {
        self.0 * other
    }
}

impl<const MIN: usize, const MAX: usize> MulSpecImpl<usize> for BoundedUSize<MIN, MAX> {
    open spec fn obeys_mul_spec() -> bool {
        true
    }

    open spec fn mul_req(self, other: usize) -> bool {
        usize::MIN <= self.value() * other <= usize::MAX
    }

    open spec fn mul_spec(self, other: usize) -> usize {
        (self.value() * other) as usize
    }
}

/// The raw product of the stored value and the value stored in another
/// instance. It may lie outside the bounds.
impl<
    const MIN: usize,
    const MAX: usize,
    const OTHER_MIN: usize,
    const OTHER_MAX: usize,
> Mul<BoundedUSize<OTHER_MIN, OTHER_MAX>> for BoundedUSize<MIN, MAX> {
    type Output = usize;

    fn mul(self, other: BoundedUSize<OTHER_MIN, OTHER_MAX>) -> (r: usize) {
        self.0 * other.0
    }
}

impl<
    const MIN: usize,
    const MAX: usize,
    const OTHER_MIN: usize,
    const OTHER_MAX: usize,
> MulSpecImpl<BoundedUSize<OTHER_MIN, OTHER_MAX>> for BoundedUSize<MIN, MAX> {
    open spec fn obeys_mul_spec() -> bool {
        true
    }

    open spec fn mul_req(self, other: BoundedUSize<OTHER_MIN, OTHER_MAX>) -> bool {
        usize::MIN <= self.value() * other.value() <= usize::MAX
    }

    open spec fn mul_spec(self, other: BoundedUSize<OTHER_MIN, OTHER_MAX>) -> usize {
        (self.value() * other.value()) as usize
    }
}

/// The raw quotient of the stored value and a bare number. It may lie outside
/// the bounds.
impl<const MIN: usize, const MAX: usize> Div<usize> for BoundedUSize<MIN, MAX> {
    type Output = usize;

    fn div(self, other: usize) -> (r: usize) {
        proof {
            lemma_quotient_bounds(self.value() as int, other as int);
        }
        self.0 / other
    }
}

impl<const MIN: usize, const MAX: usize> DivSpecImpl<usize> for BoundedUSize<MIN, MAX> {
    open spec fn obeys_div_spec() -> bool {
        true
    }

    open spec fn div_req(self, other: usize) -> bool {
        other != 0
    }

    open spec fn div_spec(self, other: usize) -> usize {
        quotient(self.value() as int, other as int) as usize
    }
}

/// The raw quotient of the stored value and the value stored in another
/// instance. It may lie outside the bounds.
impl<
    const MIN: usize,
    const MAX: usize,
    const OTHER_MIN: usize,
    const OTHER_MAX: usize,
> Div<BoundedUSize<OTHER_MIN, OTHER_MAX>> for BoundedUSize<MIN, MAX> {
    type Output = usize;

    fn div(self, other: BoundedUSize<OTHER_MIN, OTHER_MAX>) -> (r: usize) {
        proof {
            lemma_quotient_bounds(self.value() as int, other.value() as int);
        }
        self.0 / other.0
    }
}

impl<
    const MIN: usize,
    const MAX: usize,
    const OTHER_MIN: usize,
    const OTHER_MAX: usize,
> DivSpecImpl<BoundedUSize<OTHER_MIN, OTHER_MAX>> for BoundedUSize<MIN, MAX> {
    open spec fn obeys_div_spec() -> bool {
        true
    }

    open spec fn div_req(self, other: BoundedUSize<OTHER_MIN, OTHER_MAX>) -> bool {
        other.value() != 0
    }

    open spec fn div_spec(self, other: BoundedUSize<OTHER_MIN, OTHER_MAX>) -> usize {
        quotient(self.value() as int, other.value() as int) as usize
    }
}

/// The raw remainder of the stored value and a bare number. It may lie outside
/// the bounds.
impl<const MIN: usize, const MAX: usize> Rem<usize> for BoundedUSize<MIN, MAX> {
    type Output = usize;

    fn rem(self, other: usize) -> (r: usize) {
        self.0 % other
    }
}

impl<const MIN: usize, const MAX: usize> RemSpecImpl<usize> for BoundedUSize<MIN, MAX> {
    open spec fn obeys_rem_spec() -> bool {
        true
    }

    open spec fn rem_req(self, other: usize) -> bool {
        other != 0
    }

    open spec fn rem_spec(self, other: usize) -> usize {
        remainder(self.value() as int, other as int) as usize
    }
}

/// The raw remainder of the stored value and the value stored in another
/// instance. It may lie outside the bounds.
impl<
    const MIN: usize,
    const MAX: usize,
    const OTHER_MIN: usize,
    const OTHER_MAX: usize,
> Rem<BoundedUSize<OTHER_MIN, OTHER_MAX>> for BoundedUSize<MIN, MAX> {
    type Output = usize;

    fn rem(self, other: BoundedUSize<OTHER_MIN, OTHER_MAX>) -> (r: usize) {
        self.0 % other.0
    }
}

impl<
    const MIN: usize,
    const MAX: usize,
    const OTHER_MIN: usize,
    const OTHER_MAX: usize,
> RemSpecImpl<BoundedUSize<OTHER_MIN, OTHER_MAX>> for BoundedUSize<MIN, MAX> {
    open spec fn obeys_rem_spec() -> bool {
        true
    }

    open spec fn rem_req(self, other: BoundedUSize<OTHER_MIN, OTHER_MAX>) -> bool {
        other.value() != 0
    }

    open spec fn rem_spec(self, other: BoundedUSize<OTHER_MIN, OTHER_MAX>) -> usize {
        remainder(self.value() as int, other.value() as int) as usize
    }
}

/// Equal to a bare number exactly when the stored values are equal.
impl<const MIN: usize, const MAX: usize> PartialEq<usize> for BoundedUSize<MIN, MAX> {
    fn eq(&self, other: &usize) -> (r: bool) {
        self.0 == *other
    }
}

impl<const MIN: usize, const MAX: usize> PartialEqSpecImpl<usize> for BoundedUSize<MIN, MAX> {
    open spec fn obeys_eq_spec() -> bool {
        true
    }

    open spec fn eq_spec(&self, other: &usize) -> bool {
        self.value() == *other
    }
}

/// Equal to another instance exactly when the stored values are equal; the
/// bounds play no part.
impl<
    const MIN: usize,
    const MAX: usize,
    const OTHER_MIN: usize,
    const OTHER_MAX: usize,
> PartialEq<BoundedUSize<OTHER_MIN, OTHER_MAX>> for BoundedUSize<MIN, MAX> {
    fn eq(&self, other: &BoundedUSize<OTHER_MIN, OTHER_MAX>) -> (r: bool) {
        self.0 == other.0
    }
}

impl<
    const MIN: usize,
    const MAX: usize,
    const OTHER_MIN: usize,
    const OTHER_MAX: usize,
> PartialEqSpecImpl<BoundedUSize<OTHER_MIN, OTHER_MAX>> for BoundedUSize<MIN, MAX> {
    open spec fn obeys_eq_spec() -> bool {
        true
    }

    open spec fn eq_spec(&self, other: &BoundedUSize<OTHER_MIN, OTHER_MAX>) -> bool {
        self.value() == other.value()
    }
}

/// Ordered against a bare number by the stored values.
impl<const MIN: usize, const MAX: usize> PartialOrd<usize> for BoundedUSize<MIN, MAX> {
    fn partial_cmp(&self, other: &usize) -> (r: Option<Ordering>) {
        self.0.partial_cmp(other)
    }
}

impl<const MIN: usize, const MAX: usize> PartialOrdSpecImpl<usize> for BoundedUSize<MIN, MAX> {
    open spec fn obeys_partial_cmp_spec() -> bool {
        true
    }

    open spec fn partial_cmp_spec(&self, other: &usize) -> Option<Ordering> {
        if self.value() < *other {
            Some(Ordering::Less)
        } else if self.value() > *other {
            Some(Ordering::Greater)
        } else {
            Some(Ordering::Equal)
        }
    }
}

/// Ordered against another instance by the stored values; the bounds play no
/// part.
impl<
    const MIN: usize,
    const MAX: usize,
    const OTHER_MIN: usize,
    const OTHER_MAX: usize,
> PartialOrd<BoundedUSize<OTHER_MIN, OTHER_MAX>> for BoundedUSize<MIN, MAX> {
    fn partial_cmp(&self, other: &BoundedUSize<OTHER_MIN, OTHER_MAX>) -> (r: Option<Ordering>) {
        self.0.partial_cmp(&other.0)
    }
}

impl<
    const MIN: usize,
    const MAX: usize,
    const OTHER_MIN: usize,
    const OTHER_MAX: usize,
> PartialOrdSpecImpl<BoundedUSize<OTHER_MIN, OTHER_MAX>> for BoundedUSize<MIN, MAX> {
    open spec fn obeys_partial_cmp_spec() -> bool {
        true
    }

    open spec fn partial_cmp_spec(
        &self,
        other: &BoundedUSize<OTHER_MIN, OTHER_MAX>,
    ) -> Option<Ordering> {
        if self.value() < other.value() {
            Some(Ordering::Less)
        } else if self.value() > other.value() {
            Some(Ordering::Greater)
        } else {
            Some(Ordering::Equal)
        }
    }
}

} // verus!
