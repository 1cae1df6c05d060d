//! A `u64` that cannot be made outside bounds fixed by its type.
use crate::bounded::rejection;
use crate::bounded::BoundsError;
use crate::model::lemma_quotient_bounds;
use crate::model::quotient;
use crate::model::remainder;
use core::cmp::Ordering;
use core::ops::Add;
use core::ops::Div;
use core::ops::Mul;
use core::ops::Range;
use core::ops::Rem;
use core::ops::Sub;
use vstd::prelude::*;
use vstd::std_specs::cmp::PartialEqSpecImpl;
use vstd::std_specs::cmp::PartialOrdSpecImpl;
use vstd::std_specs::ops::AddSpecImpl;
use vstd::std_specs::ops::DivSpecImpl;
use vstd::std_specs::ops::MulSpecImpl;
use vstd::std_specs::ops::RemSpecImpl;
use vstd::std_specs::ops::SubSpecImpl;

verus! {

/// A `u64` known to lie in `MIN..MAX`.
///
/// The bounds are checked once, when the value is made. The operators
/// hand back the raw `u64` result and check nothing.
#[derive(Debug, Clone, Copy, Eq, Ord)]
pub struct BoundedU64<const MIN: u64, const MAX: u64>(u64);

impl<const MIN: u64, const MAX: u64> BoundedU64<MIN, MAX> {
    #[verifier::type_invariant]
    spec fn in_bounds(self) -> bool {
        MIN <= self.0 < MAX
    }

    /// The stored value.
    pub closed spec fn value(self) -> u64 {
        self.0
    }

    /// Accepts `inner` unchanged if it lies in `MIN..MAX`, and says on
    /// which side it falls out otherwise.
    pub fn new(inner: u64) -> (r: Result<Self, BoundsError>)
        requires
            MIN < MAX,
        ensures
            match r {
                Ok(b) => {
                    &&& rejection(inner as int, MIN as int, MAX as int) is None
                    &&& b.value() == inner
                },
                Err(e) => rejection(inner as int, MIN as int, MAX as int) == Some(e),
            },
    {
        if inner >= MAX {
            Err(BoundsError::TooLarge)
        } else if inner < MIN {
            Err(BoundsError::TooSmall)
        } else {
            Ok(Self(inner))
        }
    }

    /// The stored value, which always lies in `MIN..MAX`.
    pub fn inner(&self) -> (r: u64)
        ensures
            r == self.value(),
            MIN <= r < MAX,
    {
        proof {
            use_type_invariant(self);
        }
        self.0
    }

    /// The range the value lives in.
    pub fn range(&self) -> (r: Range<u64>)
        ensures
            r.start == MIN,
            r.end == MAX,
            r.start < r.end,
    {
        proof {
            use_type_invariant(self);
        }
        MIN..MAX
    }

    /// The lower bound, which the value may reach.
    pub fn min_bound(&self) -> (r: u64)
        ensures
            r == MIN,
    {
        MIN
    }

    /// The upper bound, which the value stays below.
    pub fn max_bound(&self) -> (r: u64)
        ensures
            r == MAX,
    {
        MAX
    }
}

/// The raw sum of the stored value and a bare number. It may lie outside the
/// bounds.
impl<const MIN: u64, const MAX: u64> Add<u64> for BoundedU64<MIN, MAX> {
    type Output = u64;

    fn add(self, other: u64) -> (r: u64) {
        self.0 + other
    }
}

impl<const MIN: u64, const MAX: u64> AddSpecImpl<u64> for BoundedU64<MIN, MAX> {
    open spec fn obeys_add_spec() -> bool {
        true
    }

    open spec fn add_req(self, other: u64) -> bool {
        u64::MIN <= self.value() + other <= u64::MAX
    }

    open spec fn add_spec(self, other: u64) -> u64 {
        (self.value() + other) as u64
    }
}

/// The raw sum of the stored value and the value stored in another instance. It
/// may lie outside the bounds.
impl<
    const MIN: u64,
    const MAX: u64,
    const OTHER_MIN: u64,
    const OTHER_MAX: u64,
> Add<BoundedU64<OTHER_MIN, OTHER_MAX>> for BoundedU64<MIN, MAX> {
    type Output = u64;

    fn add(self, other: BoundedU64<OTHER_MIN, OTHER_MAX>) -> (r: u64) {
        self.0 + other.0
    }
}

impl<
    const MIN: u64,
    const MAX: u64,
    const OTHER_MIN: u64,
    const OTHER_MAX: u64,
> AddSpecImpl<BoundedU64<OTHER_MIN, OTHER_MAX>> for BoundedU64<MIN, MAX> {
    open spec fn obeys_add_spec() -> bool {
        true
    }

    open spec fn add_req(self, other: BoundedU64<OTHER_MIN, OTHER_MAX>) -> bool {
        u64::MIN <= self.value() + other.value() <= u64::MAX
    }

    open spec fn add_spec(self, other: BoundedU64<OTHER_MIN, OTHER_MAX>) -> u64 {
        (self.value() + other.value()) as u64
    }
}

/// The raw difference of the stored value and a bare number. It may lie outside
/// the bounds.
impl<const MIN: u64, const MAX: u64> Sub<u64> for BoundedU64<MIN, MAX> {
    type Output = u64;

    fn sub(self, other: u64) -> (r: u64) {
        self.0 - other
    }
}

impl<const MIN: u64, const MAX: u64> SubSpecImpl<u64> for BoundedU64<MIN, MAX> {
    open spec fn obeys_sub_spec() -> bool {
        true
    }

    open spec fn sub_req(self, other: u64) -> bool {
        u64::MIN <= self.value() - other <= u64::MAX
    }

    open spec fn sub_spec(self, other: u64) -> u64 {
        (self.value() - other) as u64
    }
}

/// The raw difference of the stored value and the value stored in another
/// instance. It may lie outside the bounds.
impl<
    const MIN: u64,
    const MAX: u64,
    const OTHER_MIN: u64,
    const OTHER_MAX: u64,
> Sub<BoundedU64<OTHER_MIN, OTHER_MAX>> for BoundedU64<MIN, MAX> {
    type Output = u64;

    fn sub(self, other: BoundedU64<OTHER_MIN, OTHER_MAX>) -> (r: u64) {
        self.0 - other.0
    }
}

impl<
    const MIN: u64,
    const MAX: u64,
    const OTHER_MIN: u64,
    const OTHER_MAX: u64,
> SubSpecImpl<BoundedU64<OTHER_MIN, OTHER_MAX>> for BoundedU64<MIN, MAX> {
    open spec fn obeys_sub_spec() -> bool {
        true
    }

    open spec fn sub_req(self, other: BoundedU64<OTHER_MIN, OTHER_MAX>) -> bool {
        u64::MIN <= self.value() - other.value() <= u64::MAX
    }

    open spec fn sub_spec(self, other: BoundedU64<OTHER_MIN, OTHER_MAX>) -> u64 {
        (self.value() - other.value()) as u64
    }
}

/// The raw product of the stored value and a bare number. It may lie outside
/// the bounds.
impl<const MIN: u64, const MAX: u64> Mul<u64> for BoundedU64<MIN, MAX> {
    type Output = u64;

    fn mul(self, other: u64) -> (r: u64) {
        self.0 * other
    }
}

impl<const MIN: u64, const MAX: u64> MulSpecImpl<u64> for BoundedU64<MIN, MAX> {
    open spec fn obeys_mul_spec() -> bool {
        true
    }

    open spec fn mul_req(self, other: u64) -> bool {
        u64::MIN <= self.value() * other <= u64::MAX
    }

    open spec fn mul_spec(self, other: u64) -> u64 {
        (self.value() * other) as u64
    }
}

/// The raw product of the stored value and the value stored in another
/// instance. It may lie outside the bounds.
impl<
    const MIN: u64,
    const MAX: u64,
    const OTHER_MIN: u64,
    const OTHER_MAX: u64,
> Mul<BoundedU64<OTHER_MIN, OTHER_MAX>> for BoundedU64<MIN, MAX> {
    type Output = u64;

    fn mul(self, other: BoundedU64<OTHER_MIN, OTHER_MAX>) -> (r: u64) {
        self.0 * other.0
    }
}

impl<
    const MIN: u64,
    const MAX: u64,
    const OTHER_MIN: u64,
    const OTHER_MAX: u64,
> MulSpecImpl<BoundedU64<OTHER_MIN, OTHER_MAX>> for BoundedU64<MIN, MAX> {
    open spec fn obeys_mul_spec() -> bool {
        true
    }

    open spec fn mul_req(self, other: BoundedU64<OTHER_MIN, OTHER_MAX>) -> bool {
        u64::MIN <= self.value() * other.value() <= u64::MAX
    }

    open spec fn mul_spec(self, other: BoundedU64<OTHER_MIN, OTHER_MAX>) -> u64 {
        (self.value() * other.value()) as u64
    }
}

/// The raw quotient of the stored value and a bare number. It may lie outside
/// the bounds.
impl<const MIN: u64, const MAX: u64> Div<u64> for BoundedU64<MIN, MAX> {
    type Output = u64;

    fn div(self, other: u64) -> (r: u64) {
        proof {
            lemma_quotient_bounds(self.value() as int, other as int);
        }
        self.0 / other
    }
}

impl<const MIN: u64, const MAX: u64> DivSpecImpl<u64> for BoundedU64<MIN, MAX> {
    open spec fn obeys_div_spec() -> bool {
        true
    }

    open spec fn div_req(self, other: u64) -> bool {
        other != 0
    }

    open spec fn div_spec(self, other: u64) -> u64 {
        quotient(self.value() as int, other as int) as u64
    }
}

/// The raw quotient of the stored value and the value stored in another
/// instance. It may lie outside the bounds.
impl<
    const MIN: u64,
    const MAX: u64,
    const OTHER_MIN: u64,
    const OTHER_MAX: u64,
> Div<BoundedU64<OTHER_MIN, OTHER_MAX>> for BoundedU64<MIN, MAX> {
    type Output = u64;

    fn div(self, other: BoundedU64<OTHER_MIN, OTHER_MAX>) -> (r: u64) {
        proof {
            lemma_quotient_bounds(self.value() as int, other.value() as int);
        }
        self.0 / other.0
    }
}

impl<
    const MIN: u64,
    const MAX: u64,
    const OTHER_MIN: u64,
    const OTHER_MAX: u64,
> DivSpecImpl<BoundedU64<OTHER_MIN, OTHER_MAX>> for BoundedU64<MIN, MAX> {
    open spec fn obeys_div_spec() -> bool {
        true
    }

    open spec fn div_req(self, other: BoundedU64<OTHER_MIN, OTHER_MAX>) -> bool {
        other.value() != 0
    }

    open spec fn div_spec(self, other: BoundedU64<OTHER_MIN, OTHER_MAX>) -> u64 {
        quotient(self.value() as int, other.value() as int) as u64
    }
}

/// The raw remainder of the stored value and a bare number. It may lie outside
/// the bounds.
impl<const MIN: u64, const MAX: u64> Rem<u64> for BoundedU64<MIN, MAX> {
    type Output = u64;

    fn rem(self, other: u64) -> (r: u64) {
        self.0 % other
    }
}

impl<const MIN: u64, const MAX: u64> RemSpecImpl<u64> for BoundedU64<MIN, MAX> {
    open spec fn obeys_rem_spec() -> bool {
        true
    }

    open spec fn rem_req(self, other: u64) -> bool {
        other != 0
    }

    open spec fn rem_spec(self, other: u64) -> u64 {
        remainder(self.value() as int, other as int) as u64
    }
}

/// The raw remainder of the stored value and the value stored in another
/// instance. It may lie outside the bounds.
impl<
    const MIN: u64,
    const MAX: u64,
    const OTHER_MIN: u64,
    const OTHER_MAX: u64,
> Rem<BoundedU64<OTHER_MIN, OTHER_MAX>> for BoundedU64<MIN, MAX> {
    type Output = u64;

    fn rem(self, other: BoundedU64<OTHER_MIN, OTHER_MAX>) -> (r: u64) {
        self.0 % other.0
    }
}

impl<
    const MIN: u64,
    const MAX: u64,
    const OTHER_MIN: u64,
    const OTHER_MAX: u64,
> RemSpecImpl<BoundedU64<OTHER_MIN, OTHER_MAX>> for BoundedU64<MIN, MAX> {
    open spec fn obeys_rem_spec() -> bool {
        true
    }

    open spec fn rem_req(self, other: BoundedU64<OTHER_MIN, OTHER_MAX>) -> bool {
        other.value() != 0
    }

    open spec fn rem_spec(self, other: BoundedU64<OTHER_MIN, OTHER_MAX>) -> u64 {
        remainder(self.value() as int, other.value() as int) as u64
    }
}

/// Equal to a bare number exactly when the stored values are equal.
impl<const MIN: u64, const MAX: u64> PartialEq<u64> for BoundedU64<MIN, MAX> {
    fn eq(&self, other: &u64) -> (r: bool) {
        self.0 == *other
    }
}

impl<const MIN: u64, const MAX: u64> PartialEqSpecImpl<u64> for BoundedU64<MIN, MAX> {
    open spec fn obeys_eq_spec() -> bool {
        true
    }

    open spec fn eq_spec(&self, other: &u64) -> bool {
        self.value() == *other
    }
}

/// Equal to another instance exactly when the stored values are equal; the
/// bounds play no part.
impl<
    const MIN: u64,
    const MAX: u64,
    const OTHER_MIN: u64,
    const OTHER_MAX: u64,
> PartialEq<BoundedU64<OTHER_MIN, OTHER_MAX>> for BoundedU64<MIN, MAX> {
    fn eq(&self, other: &BoundedU64<OTHER_MIN, OTHER_MAX>) -> (r: bool) {
        self.0 == other.0
    }
}

impl<
    const MIN: u64,
    const MAX: u64,
    const OTHER_MIN: u64,
    const OTHER_MAX: u64,
> PartialEqSpecImpl<BoundedU64<OTHER_MIN, OTHER_MAX>> for BoundedU64<MIN, MAX> {
    open spec fn obeys_eq_spec() -> bool {
        true
    }

    open spec fn eq_spec(&self, other: &BoundedU64<OTHER_MIN, OTHER_MAX>) -> bool {
        self.value() == other.value()
    }
}

/// Ordered against a bare number by the stored values.
impl<const MIN: u64, const MAX: u64> PartialOrd<u64> for BoundedU64<MIN, MAX> {
    fn partial_cmp(&self, other: &u64) -> (r: Option<Ordering>) {
        self.0.partial_cmp(other)
    }
}

impl<const MIN: u64, const MAX: u64> PartialOrdSpecImpl<u64> for BoundedU64<MIN, MAX> {
    open spec fn obeys_partial_cmp_spec() -> bool {
        true
    }

    open spec fn partial_cmp_spec(&self, other: &u64) -> Option<Ordering> {
        if self.value() < *other {
            Some(Ordering::Less)
        } else if self.value() > *other {
            Some(Ordering::Greater)
        } else {
            Some(Ordering::Equal)
        }
    }
}

/// Ordered against another instance by the stored values; the bounds play no
/// part.
impl<
    const MIN: u64,
    const MAX: u64,
    const OTHER_MIN: u64,
    const OTHER_MAX: u64,
> PartialOrd<BoundedU64<OTHER_MIN, OTHER_MAX>> for BoundedU64<MIN, MAX> {
    fn partial_cmp(&self, other: &BoundedU64<OTHER_MIN, OTHER_MAX>) -> (r: Option<Ordering>) {
        self.0.partial_cmp(&other.0)
    }
}

impl<
    const MIN: u64,
    const MAX: u64,
    const OTHER_MIN: u64,
    const OTHER_MAX: u64,
> PartialOrdSpecImpl<BoundedU64<OTHER_MIN, OTHER_MAX>> for BoundedU64<MIN, MAX> {
    open spec fn obeys_partial_cmp_spec() -> bool {
        true
    }

    open spec fn partial_cmp_spec(
        &self,
        other: &BoundedU64<OTHER_MIN, OTHER_MAX>,
    ) -> Option<Ordering> {
        if self.value() < other.value() {
            Some(Ordering::Less)
        } else if self.value() > other.value() {
            Some(Ordering::Greater)
        } else {
            Some(Ordering::Equal)
        }
    }
}

} // verus!
