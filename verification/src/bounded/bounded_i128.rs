//! An `i128` that cannot be made outside bounds chosen when it is made.
use crate::bounded::rejection;
use crate::bounded::BoundsError;
use crate::model::lemma_quotient_bounds;
use crate::model::quotient;
use crate::model::remainder;
use core::cmp::Ordering;
use core::ops::Add;
use core::ops::Div;
use core::ops::Mul;
use core::ops::Range;
use core::ops::Rem;
use core::ops::Sub;
use vstd::prelude::*;
use vstd::std_specs::cmp::PartialEqSpecImpl;
use vstd::std_specs::cmp::PartialOrdSpecImpl;
use vstd::std_specs::ops::AddSpecImpl;
use vstd::std_specs::ops::DivSpecImpl;
use vstd::std_specs::ops::MulSpecImpl;
use vstd::std_specs::ops::RemSpecImpl;
use vstd::std_specs::ops::SubSpecImpl;

verus! {

/// An `i128` known to lie in `min..max`.
///
/// The bounds are checked once, when the value is made. The operators
/// hand back the raw `i128` result and check nothing.
#[derive(Debug, Clone, Copy, Eq)]
pub struct BoundedI128 {
    inner: i128,
    min: i128,
    max: i128,
}

impl BoundedI128 {
    #[verifier::type_invariant]
    spec fn in_bounds(self) -> bool {
        self.min <= self.inner < self.max
    }

    /// The stored value.
    pub closed spec fn value(self) -> i128 {
        self.inner
    }

    /// The lower bound, which the value may reach.
    pub closed spec fn lower(self) -> i128 {
        self.min
    }

    /// The upper bound, which the value stays below.
    pub closed spec fn upper(self) -> i128 {
        self.max
    }

    /// Accepts `inner` unchanged if it lies in `min..max`, and says on
    /// which side it falls out otherwise.
    pub fn new(inner: i128, min: i128, max: i128) -> (r: Result<Self, BoundsError>)
        requires
            min < max,
        ensures
            match r {
                Ok(b) => {
                    &&& rejection(inner as int, min as int, max as int) is None
                    &&& b.value() == inner
                    &&& b.lower() == min
                    &&& b.upper() == max
                },
                Err(e) => rejection(inner as int, min as int, max as int) == Some(e),
            },
    {
        if inner >= max {
            Err(BoundsError::TooLarge)
        } else if inner < min {
            Err(BoundsError::TooSmall)
        } else {
            Ok(Self { inner, min, max })
        }
    }

    /// The stored value, which always lies in `min..max`.
    pub fn inner(&self) -> (r: i128)
        ensures
            r == self.value(),
            self.lower() <= r < self.upper(),
    {
        proof {
            use_type_invariant(self);
        }
        self.inner
    }

    /// The range the value lives in.
    pub fn range(&self) -> (r: Range<i128>)
        ensures
            r.start == self.lower(),
            r.end == self.upper(),
            r.start < r.end,
    {
        proof {
            use_type_invariant(self);
        }
        self.min..self.max
    }

    /// The lower bound, which the value may reach.
    pub fn min_bound(&self) -> (r: i128)
        ensures
            r == self.lower(),
    {
        self.min
    }

    /// The upper bound, which the value stays below.
    pub fn max_bound(&self) -> (r: i128)
        ensures
            r == self.upper(),
    {
        self.max
    }
}

/// The raw sum of the stored value and a bare number. It may lie outside the
/// bounds.
impl Add<i128> for BoundedI128 {
    type Output = i128;

    fn add(self, other: i128) -> (r: i128) {
        self.inner + other
    }
}

impl AddSpecImpl<i128> for BoundedI128 {
    open spec fn obeys_add_spec() -> bool {
        true
    }

    open spec fn add_req(self, other: i128) -> bool {
        i128::MIN <= self.value() + other <= i128::MAX
    }

    open spec fn add_spec(self, other: i128) -> i128 {
        (self.value() + other) as i128
    }
}

/// The raw sum of the stored value and the value stored in another instance. It
/// may lie outside the bounds.
impl Add<BoundedI128> for BoundedI128 {
    type Output = i128;

    fn add(self, other: BoundedI128) -> (r: i128) {
        self.inner + other.inner
    }
}

impl AddSpecImpl<BoundedI128> for BoundedI128 {
    open spec fn obeys_add_spec() -> bool {
        true
    }

    open spec fn add_req(self, other: BoundedI128) -> bool {
        i128::MIN <= self.value() + other.value() <= i128::MAX
    }

    open spec fn add_spec(self, other: BoundedI128) -> i128 {
        (self.value() + other.value()) as i128
    }
}

/// The raw difference of the stored value and a bare number. It may lie outside
/// the bounds.
impl Sub<i128> for BoundedI128 {
    type Output = i128;

    fn sub(self, other: i128) -> (r: i128) {
        self.inner - other
    }
}

impl SubSpecImpl<i128> for BoundedI128 {
    open spec fn obeys_sub_spec() -> bool {
        true
    }

    open spec fn sub_req(self, other: i128) -> bool {
        i128::MIN <= self.value() - other <= i128::MAX
    }

    open spec fn sub_spec(self, other: i128) -> i128 {
        (self.value() - other) as i128
    }
}

/// The raw difference of the stored value and the value stored in another
/// instance. It may lie outside the bounds.
impl Sub<BoundedI128> for BoundedI128 {
    type Output = i128;

    fn sub(self, other: BoundedI128) -> (r: i128) {
        self.inner - other.inner
    }
}

impl SubSpecImpl<BoundedI128> for BoundedI128 {
    open spec fn obeys_sub_spec() -> bool {
        true
    }

    open spec fn sub_req(self, other: BoundedI128) -> bool {
        i128::MIN <= self.value() - other.value() <= i128::MAX
    }

    open spec fn sub_spec(self, other: BoundedI128) -> i128 {
        (self.value() - other.value()) as i128
    }
}

/// The raw product of the stored value and a bare number. It may lie outside
/// the bounds.
impl Mul<i128> for BoundedI128 {
    type Output = i128;

    fn mul(self, other: i128) -> (r: i128) {
        self.inner * other
    }
}

impl MulSpecImpl<i128> for BoundedI128 {
    open spec fn obeys_mul_spec() -> bool {
        true
    }

    open spec fn mul_req(self, other: i128) -> bool {
        i128::MIN <= self.value() * other <= i128::MAX
    }

    open spec fn mul_spec(self, other: i128) -> i128 {
        (self.value() * other) as i128
    }
}

/// The raw product of the stored value and the value stored in another
/// instance. It may lie outside the bounds.
impl Mul<BoundedI128> for BoundedI128 {
    type Output = i128;

    fn mul(self, other: BoundedI128) -> (r: i128) {
        self.inner * other.inner
    }
}

impl MulSpecImpl<BoundedI128> for BoundedI128 {
    open spec fn obeys_mul_spec() -> bool {
        true
    }

    open spec fn mul_req(self, other: BoundedI128) -> bool {
        i128::MIN <= self.value() * other.value() <= i128::MAX
    }

    open spec fn mul_spec(self, other: BoundedI128) -> i128 {
        (self.value() * other.value()) as i128
    }
}

/// The raw quotient of the stored value and a bare number. It may lie outside
/// the bounds.
impl Div<i128> for BoundedI128 {
    type Output = i128;

    fn div(self, other: i128) -> (r: i128) {
        proof {
            lemma_quotient_bounds(self.value() as int, other as int);
        }
        self.inner / other
    }
}

impl DivSpecImpl<i128> for BoundedI128 {
    open spec fn obeys_div_spec() -> bool {
        true
    }

    open spec fn div_req(self, other: i128) -> bool {
        other != 0 && !(self.value() == i128::MIN && other == -1)
    }

    open spec fn div_spec(self, other: i128) -> i128 {
        quotient(self.value() as int, other as int) as i128
    }
}

/// The raw quotient of the stored value and the value stored in another
/// instance. It may lie outside the bounds.
impl Div<BoundedI128> for BoundedI128 {
    type Output = i128;

    fn div(self, other: BoundedI128) -> (r: i128) {
        proof {
            lemma_quotient_bounds(self.value() as int, other.value() as int);
        }
        self.inner / other.inner
    }
}

impl DivSpecImpl<BoundedI128> for BoundedI128 {
    open spec fn obeys_div_spec() -> bool {
        true
    }

    open spec fn div_req(self, other: BoundedI128) -> bool {
        other.value() != 0 && !(self.value() == i128::MIN && other.value() == -1)
    }

    open spec fn div_spec(self, other: BoundedI128) -> i128 {
        quotient(self.value() as int, other.value() as int) as i128
    }
}

/// The raw remainder of the stored value and a bare number. It may lie outside
/// the bounds.
impl Rem<i128> for BoundedI128 {
    type Output = i128;

    fn rem(self, other: i128) -> (r: i128) {
        self.inner % other
    }
}

impl RemSpecImpl<i128> for BoundedI128 {
    open spec fn obeys_rem_spec() -> bool {
        true
    }

    open spec fn rem_req(self, other: i128) -> bool {
        other != 0 && !(self.value() == i128::MIN && other == -1)
    }

    open spec fn rem_spec(self, other: i128) -> i128 {
        remainder(self.value() as int, other as int) as i128
    }
}

/// The raw remainder of the stored value and the value stored in another
/// instance. It may lie outside the bounds.
impl Rem<BoundedI128> for BoundedI128 {
    type Output = i128;

    fn rem(self, other: BoundedI128) -> (r: i128) {
        self.inner % other.inner
    }
}

impl RemSpecImpl<BoundedI128> for BoundedI128 {
    open spec fn obeys_rem_spec() -> bool {
        true
    }

    open spec fn rem_req(self, other: BoundedI128) -> bool {
        other.value() != 0 && !(self.value() == i128::MIN && other.value() == -1)
    }

    open spec fn rem_spec(self, other: BoundedI128) -> i128 {
        remainder(self.value() as int, other.value() as int) as i128
    }
}

/// Equal to a bare number exactly when the stored values are equal.
impl PartialEq<i128> for BoundedI128 {
    fn eq(&self, other: &i128) -> (r: bool) {
        self.inner == *other
    }
}

impl PartialEqSpecImpl<i128> for BoundedI128 {
    open spec fn obeys_eq_spec() -> bool {
        true
    }

    open spec fn eq_spec(&self, other: &i128) -> bool {
        self.value() == *other
    }
}

/// Equal to another instance exactly when the stored values are equal; the
/// bounds play no part.
impl PartialEq<BoundedI128> for BoundedI128 {
    fn eq(&self, other: &BoundedI128) -> (r: bool) {
        self.inner == other.inner
    }
}

impl PartialEqSpecImpl<BoundedI128> for BoundedI128 {
    open spec fn obeys_eq_spec() -> bool {
        true
    }

    open spec fn eq_spec(&self, other: &BoundedI128) -> bool {
        self.value() == other.value()
    }
}

/// Ordered against a bare number by the stored values.
impl PartialOrd<i128> for BoundedI128 {
    fn partial_cmp(&self, other: &i128) -> (r: Option<Ordering>) {
        self.inner.partial_cmp(other)
    }
}

impl PartialOrdSpecImpl<i128> for BoundedI128 {
    open spec fn obeys_partial_cmp_spec() -> bool {
        true
    }

    open spec fn partial_cmp_spec(&self, other: &i128) -> Option<Ordering> {
        if self.value() < *other {
            Some(Ordering::Less)
        } else if self.value() > *other {
            Some(Ordering::Greater)
        } else {
            Some(Ordering::Equal)
        }
    }
}

/// Ordered against another instance by the stored values; the bounds play no
/// part.
impl PartialOrd<BoundedI128> for BoundedI128 {
    fn partial_cmp(&self, other: &BoundedI128) -> (r: Option<Ordering>) {
        self.inner.partial_cmp(&other.inner)
    }
}

impl PartialOrdSpecImpl<BoundedI128> for BoundedI128 {
    open spec fn obeys_partial_cmp_spec() -> bool {
        true
    }

    open spec fn partial_cmp_spec(&self, other: &BoundedI128) -> Option<Ordering> {
        if self.value() < other.value() {
            Some(Ordering::Less)
        } else if self.value() > other.value() {
            Some(Ordering::Greater)
        } else {
            Some(Ordering::Equal)
        }
    }
}

} // verus!
