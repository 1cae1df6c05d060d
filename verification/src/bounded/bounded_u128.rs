//! A `u128` that cannot be made outside bounds fixed by its type.
use crate::bounded::rejection;
use crate::bounded::BoundsError;
use crate::model::lemma_quotient_bounds;
use crate::model::quotient;
use crate::model::remainder;
use core::cmp::Ordering;
use core::ops::Add;
use core::ops::Div;
use core::ops::Mul;
use core::ops::Range;
use core::ops::Rem;
use core::ops::Sub;
use vstd::prelude::*;
use vstd::std_specs::cmp::PartialEqSpecImpl;
use vstd::std_specs::cmp::PartialOrdSpecImpl;
use vstd::std_specs::ops::AddSpecImpl;
use vstd::std_specs::ops::DivSpecImpl;
use vstd::std_specs::ops::MulSpecImpl;
use vstd::std_specs::ops::RemSpecImpl;
use vstd::std_specs::ops::SubSpecImpl;

verus! {

/// A `u128` known to lie in `MIN..MAX`.
///
/// The bounds are checked once, when the value is made. The operators
/// hand back the raw `u128` result and check nothing.
#[derive(Debug, Clone, Copy, Eq, Ord)]
pub struct BoundedU128<const MIN: u128, const MAX: u128>(u128);

impl<const MIN: u128, const MAX: u128> BoundedU128<MIN, MAX> {
    #[verifier::type_invariant]
    spec fn in_bounds(self) -> bool {
        MIN <= self.0 < MAX
    }

    /// The stored value.
    pub closed spec fn value(self) -> u128 {
        self.0
    }

    /// Accepts `inner` unchanged if it lies in `MIN..MAX`, and says on
    /// which side it falls out otherwise.
    pub fn new(inner: u128) -> (r: Result<Self, BoundsError>)
        requires
            MIN < MAX,
        ensures
            match r {
                Ok(b) => {
                    &&& rejection(inner as int, MIN as int, MAX as int) is None
                    &&& b.value() == inner
                },
                Err(e) => rejection(inner as int, MIN as int, MAX as int) == Some(e),
            },
    {
        if inner >= MAX {
            Err(BoundsError::TooLarge)
        } else if inner < MIN {
            Err(BoundsError::TooSmall)
        } else {
            Ok(Self(inner))
        }
    }

    /// The stored value, which always lies in `MIN..MAX`.
    pub fn inner(&self) -> (r: u128)
        ensures
            r == self.value(),
            MIN <= r < MAX,
    {
        proof {
            use_type_invariant(self);
        }
        self.0
    }

    /// The range the value lives in.
    pub fn range(&self) -> (r: Range<u128>)
        ensures
            r.start == MIN,
            r.end == MAX,
            r.start < r.end,
    {
        proof {
            use_type_invariant(self);
        }
        MIN..MAX
    }

    /// The lower bound, which the value may reach.
    pub fn min_bound(&self) -> (r: u128)
        ensures
            r == MIN,
    {
        MIN
    }

    /// The upper bound, which the value stays below.
    pub fn max_bound(&self) -> (r: u128)
        ensures
            r == MAX,
    {
        MAX
    }
}

/// The raw sum of the stored value and a bare number. It may lie outside the
/// bounds.
impl<const MIN: u128, const MAX: u128> Add<u128> for BoundedU128<MIN, MAX> {
    type Output = u128;

    fn add(self, other: u128) -> (r: u128) {
        self.0 + other
    }
}

impl<const MIN: u128, const MAX: u128> AddSpecImpl<u128> for BoundedU128<MIN, MAX> {
    open spec fn obeys_add_spec() -> bool {
        true
    }

    open spec fn add_req(self, other: u128) -> bool {
        u128::MIN <= self.value() + other <= u128::MAX
    }

    open spec fn add_spec(self, other: u128) -> u128 {
        (self.value() + other) as u128
    }
}

/// The raw sum of the stored value and the value stored in another instance. It
/// may lie outside the bounds.
impl<
    const MIN: u128,
    const MAX: u128,
    const OTHER_MIN: u128,
    const OTHER_MAX: u128,
> Add<BoundedU128<OTHER_MIN, OTHER_MAX>> for BoundedU128<MIN, MAX> {
    type Output = u128;

    fn add(self, other: BoundedU128<OTHER_MIN, OTHER_MAX>) -> (r: u128) {
        self.0 + other.0
    }
}

impl<
    const MIN: u128,
    const MAX: u128,
    const OTHER_MIN: u128,
    const OTHER_MAX: u128,
> AddSpecImpl<BoundedU128<OTHER_MIN, OTHER_MAX>> for BoundedU128<MIN, MAX> {
    open spec fn obeys_add_spec() -> bool {
        true
    }

    open spec fn add_req(self, other: BoundedU128<OTHER_MIN, OTHER_MAX>) -> bool {
        u128::MIN <= self.value() + other.value() <= u128::MAX
    }

    open spec fn add_spec(self, other: BoundedU128<OTHER_MIN, OTHER_MAX>) -> u128 {
        (self.value() + other.value()) as u128
    }
}

/// The raw difference of the stored value and a bare number. It may lie outside
/// the bounds.
impl<const MIN: u128, const MAX: u128> Sub<u128> for BoundedU128<MIN, MAX> {
    type Output = u128;

    fn sub(self, other: u128) -> (r: u128) {
        self.0 - other
    }
}

impl<const MIN: u128, const MAX: u128> SubSpecImpl<u128> for BoundedU128<MIN, MAX> {
    open spec fn obeys_sub_spec() -> bool {
        true
    }

    open spec fn sub_req(self, other: u128) -> bool {
        u128::MIN <= self.value() - other <= u128::MAX
    }

    open spec fn sub_spec(self, other: u128) -> u128 {
        (self.value() - other) as u128
    }
}

/// The raw difference of the stored value and the value stored in another
/// instance. It may lie outside the bounds.
impl<
    const MIN: u128,
    const MAX: u128,
    const OTHER_MIN: u128,
    const OTHER_MAX: u128,
> Sub<BoundedU128<OTHER_MIN, OTHER_MAX>> for BoundedU128<MIN, MAX> {
    type Output = u128;

    fn sub(self, other: BoundedU128<OTHER_MIN, OTHER_MAX>) -> (r: u128) {
        self.0 - other.0
    }
}

impl<
    const MIN: u128,
    const MAX: u128,
    const OTHER_MIN: u128,
    const OTHER_MAX: u128,
> SubSpecImpl<BoundedU128<OTHER_MIN, OTHER_MAX>> for BoundedU128<MIN, MAX> {
    open spec fn obeys_sub_spec() -> bool {
        true
    }

    open spec fn sub_req(self, other: BoundedU128<OTHER_MIN, OTHER_MAX>) -> bool {
        u128::MIN <= self.value() - other.value() <= u128::MAX
    }

    open spec fn sub_spec(self, other: BoundedU128<OTHER_MIN, OTHER_MAX>) -> u128 {
        (self.value() - other.value()) as u128
    }
}

/// The raw product of the stored value and a bare number. It may lie outside
/// the bounds.
impl<const MIN: u128, const MAX: u128> Mul<u128> for BoundedU128<MIN, MAX> {
    type Output = u128;

    fn mul(self, other: u128) -> (r: u128) {
        self.0 * other
    }
}

impl<const MIN: u128, const MAX: u128> MulSpecImpl<u128> for BoundedU128<MIN, MAX> {
    open spec fn obeys_mul_spec() -> bool {
        true
    }

    open spec fn mul_req(self, other: u128) -> bool {
        u128::MIN <= self.value() * other <= u128::MAX
    }

    open spec fn mul_spec(self, other: u128) -> u128 {
        (self.value() * other) as u128
    }
}

/// The raw product of the stored value and the value stored in another
/// instance. It may lie outside the bounds.
impl<
    const MIN: u128,
    const MAX: u128,
    const OTHER_MIN: u128,
    const OTHER_MAX: u128,
> Mul<BoundedU128<OTHER_MIN, OTHER_MAX>> for BoundedU128<MIN, MAX> {
    type Output = u128;

    fn mul(self, other: BoundedU128<OTHER_MIN, OTHER_MAX>) -> (r: u128) {
        self.0 * other.0
    }
}

impl<
    const MIN: u128,
    const MAX: u128,
    const OTHER_MIN: u128,
    const OTHER_MAX: u128,
> MulSpecImpl<BoundedU128<OTHER_MIN, OTHER_MAX>> for BoundedU128<MIN, MAX> {
    open spec fn obeys_mul_spec() -> bool {
        true
    }

    open spec fn mul_req(self, other: BoundedU128<OTHER_MIN, OTHER_MAX>) -> bool {
        u128::MIN <= self.value() * other.value() <= u128::MAX
    }

    open spec fn mul_spec(self, other: BoundedU128<OTHER_MIN, OTHER_MAX>) -> u128 {
        (self.value() * other.value()) as u128
    }
}

/// The raw quotient of the stored value and a bare number. It may lie outside
/// the bounds.
impl<const MIN: u128, const MAX: u128> Div<u128> for BoundedU128<MIN, MAX> {
    type Output = u128;

    fn div(self, other: u128) -> (r: u128) {
        proof {
            lemma_quotient_bounds(self.value() as int, other as int);
        }
        self.0 / other
    }
}

impl<const MIN: u128, const MAX: u128> DivSpecImpl<u128> for BoundedU128<MIN, MAX> {
    open spec fn obeys_div_spec() -> bool {
        true
    }

    open spec fn div_req(self, other: u128) -> bool {
        other != 0
    }

    open spec fn div_spec(self, other: u128) -> u128 {
        quotient(self.value() as int, other as int) as u128
    }
}

/// The raw quotient of the stored value and the value stored in another
/// instance. It may lie outside the bounds.
impl<
    const MIN: u128,
    const MAX: u128,
    const OTHER_MIN: u128,
    const OTHER_MAX: u128,
> Div<BoundedU128<OTHER_MIN, OTHER_MAX>> for BoundedU128<MIN, MAX> {
    type Output = u128;

    fn div(self, other: BoundedU128<OTHER_MIN, OTHER_MAX>) -> (r: u128) {
        proof {
            lemma_quotient_bounds(self.value() as int, other.value() as int);
        }
        self.0 / other.0
    }
}

impl<
    const MIN: u128,
    const MAX: u128,
    const OTHER_MIN: u128,
    const OTHER_MAX: u128,
> DivSpecImpl<BoundedU128<OTHER_MIN, OTHER_MAX>> for BoundedU128<MIN, MAX> {
    open spec fn obeys_div_spec() -> bool {
        true
    }

    open spec fn div_req(self, other: BoundedU128<OTHER_MIN, OTHER_MAX>) -> bool {
        other.value() != 0
    }

    open spec fn div_spec(self, other: BoundedU128<OTHER_MIN, OTHER_MAX>) -> u128 {
        quotient(self.value() as int, other.value() as int) as u128
    }
}

/// The raw remainder of the stored value and a bare number. It may lie outside
/// the bounds.
impl<const MIN: u128, const MAX: u128> Rem<u128> for BoundedU128<MIN, MAX> {
    type Output = u128;

    fn rem(self, other: u128) -> (r: u128) {
        self.0 % other
    }
}

impl<const MIN: u128, const MAX: u128> RemSpecImpl<u128> for BoundedU128<MIN, MAX> {
    open spec fn obeys_rem_spec() -> bool {
        true
    }

    open spec fn rem_req(self, other: u128) -> bool {
        other != 0
    }

    open spec fn rem_spec(self, other: u128) -> u128 {
        remainder(self.value() as int, other as int) as u128
    }
}

/// The raw remainder of the stored value and the value stored in another
/// instance. It may lie outside the bounds.
impl<
    const MIN: u128,
    const MAX: u128,
    const OTHER_MIN: u128,
    const OTHER_MAX: u128,
> Rem<BoundedU128<OTHER_MIN, OTHER_MAX>> for BoundedU128<MIN, MAX> {
    type Output = u128;

    fn rem(self, other: BoundedU128<OTHER_MIN, OTHER_MAX>) -> (r: u128) {
        self.0 % other.0
    }
}

impl<
    const MIN: u128,
    const MAX: u128,
    const OTHER_MIN: u128,
    const OTHER_MAX: u128,
> RemSpecImpl<BoundedU128<OTHER_MIN, OTHER_MAX>> for BoundedU128<MIN, MAX> {
    open spec fn obeys_rem_spec() -> bool {
        true
    }

    open spec fn rem_req(self, other: BoundedU128<OTHER_MIN, OTHER_MAX>) -> bool {
        other.value() != 0
    }

    open spec fn rem_spec(self, other: BoundedU128<OTHER_MIN, OTHER_MAX>) -> u128 {
        remainder(self.value() as int, other.value() as int) as u128
    }
}

/// Equal to a bare number exactly when the stored values are equal.
impl<const MIN: u128, const MAX: u128> PartialEq<u128> for BoundedU128<MIN, MAX> {
    fn eq(&self, other: &u128) -> (r: bool) {
        self.0 == *other
    }
}

impl<const MIN: u128, const MAX: u128> PartialEqSpecImpl<u128> for BoundedU128<MIN, MAX> {
    open spec fn obeys_eq_spec() -> bool {
        true
    }

    open spec fn eq_spec(&self, other: &u128) -> bool {
        self.value() == *other
    }
}

/// Equal to another instance exactly when the stored values are equal; the
/// bounds play no part.
impl<
    const MIN: u128,
    const MAX: u128,
    const OTHER_MIN: u128,
    const OTHER_MAX: u128,
> PartialEq<BoundedU128<OTHER_MIN, OTHER_MAX>> for BoundedU128<MIN, MAX> {
    fn eq(&self, other: &BoundedU128<OTHER_MIN, OTHER_MAX>) -> (r: bool) {
        self.0 == other.0
    }
}

impl<
    const MIN: u128,
    const MAX: u128,
    const OTHER_MIN: u128,
    const OTHER_MAX: u128,
> PartialEqSpecImpl<BoundedU128<OTHER_MIN, OTHER_MAX>> for BoundedU128<MIN, MAX> {
    open spec fn obeys_eq_spec() -> bool {
        true
    }

    open spec fn eq_spec(&self, other: &BoundedU128<OTHER_MIN, OTHER_MAX>) -> bool {
        self.value() == other.value()
    }
}

/// Ordered against a bare number by the stored values.
impl<const MIN: u128, const MAX: u128> PartialOrd<u128> for BoundedU128<MIN, MAX> {
    fn partial_cmp(&self, other: &u128) -> (r: Option<Ordering>) {
        self.0.partial_cmp(other)
    }
}

impl<const MIN: u128, const MAX: u128> PartialOrdSpecImpl<u128> for BoundedU128<MIN, MAX> {
    open spec fn obeys_partial_cmp_spec() -> bool {
        true
    }

    open spec fn partial_cmp_spec(&self, other: &u128) -> Option<Ordering> {
        if self.value() < *other {
            Some(Ordering::Less)
        } else if self.value() > *other {
            Some(Ordering::Greater)
        } else {
            Some(Ordering::Equal)
        }
    }
}

/// Ordered against another instance by the stored values; the bounds play no
/// part.
impl<
    const MIN: u128,
    const MAX: u128,
    const OTHER_MIN: u128,
    const OTHER_MAX: u128,
> PartialOrd<BoundedU128<OTHER_MIN, OTHER_MAX>> for BoundedU128<MIN, MAX> {
    fn partial_cmp(&self, other: &BoundedU128<OTHER_MIN, OTHER_MAX>) -> (r: Option<Ordering>) {
        self.0.partial_cmp(&other.0)
    }
}

impl<
    const MIN: u128,
    const MAX: u128,
    const OTHER_MIN: u128,
    const OTHER_MAX: u128,
> PartialOrdSpecImpl<BoundedU128<OTHER_MIN, OTHER_MAX>> for BoundedU128<MIN, MAX> {
    open spec fn obeys_partial_cmp_spec() -> bool {
        true
    }

    open spec fn partial_cmp_spec(
        &self,
        other: &BoundedU128<OTHER_MIN, OTHER_MAX>,
    ) -> Option<Ordering> {
        if self.value() < other.value() {
            Some(Ordering::Less)
        } else if self.value() > other.value() {
            Some(Ordering::Greater)
        } else {
            Some(Ordering::Equal)
        }
    }
}

} // verus!
