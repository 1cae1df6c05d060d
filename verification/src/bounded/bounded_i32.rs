//! An `i32` that cannot be made outside bounds chosen when it is made.
use crate::bounded::rejection;
use crate::bounded::BoundsError;
use crate::model::lemma_quotient_bounds;
use crate::model::quotient;
use crate::model::remainder;
use core::cmp::Ordering;
use core::ops::Add;
use core::ops::Div;
use core::ops::Mul;
use core::ops::Range;
use core::ops::Rem;
use core::ops::Sub;
use vstd::prelude::*;
use vstd::std_specs::cmp::PartialEqSpecImpl;
use vstd::std_specs::cmp::PartialOrdSpecImpl;
use vstd::std_specs::ops::AddSpecImpl;
use vstd::std_specs::ops::DivSpecImpl;
use vstd::std_specs::ops::MulSpecImpl;
use vstd::std_specs::ops::RemSpecImpl;
use vstd::std_specs::ops::SubSpecImpl;

verus! {

/// An `i32` known to lie in `min..max`.
///
/// The bounds are checked once, when the value is made. The operators
/// hand back the raw `i32` result and check nothing.
#[derive(Debug, Clone, Copy, Eq)]
pub struct BoundedI32 {
    inner: i32,
    min: i32,
    max: i32,
}

impl BoundedI32 {
    #[verifier::type_invariant]
    spec fn in_bounds(self) -> bool {
        self.min <= self.inner < self.max
    }

    /// The stored value.
    pub closed spec fn value(self) -> i32 {
        self.inner
    }

    /// The lower bound, which the value may reach.
    pub closed spec fn lower(self) -> i32 {
        self.min
    }

    /// The upper bound, which the value stays below.
    pub closed spec fn upper(self) -> i32 {
        self.max
    }

    /// Accepts `inner` unchanged if it lies in `min..max`, and says on
    /// which side it falls out otherwise.
    pub fn new(inner: i32, min: i32, max: i32) -> (r: Result<Self, BoundsError>)
        requires
            min < max,
        ensures
            match r {
                Ok(b) => {
                    &&& rejection(inner as int, min as int, max as int) is None
                    &&& b.value() == inner
                    &&& b.lower() == min
                    &&& b.upper() == max
                },
                Err(e) => rejection(inner as int, min as int, max as int) == Some(e),
            },
    {
        if inner >= max {
            Err(BoundsError::TooLarge)
        } else if inner < min {
            Err(BoundsError::TooSmall)
        } else {
            Ok(Self { inner, min, max })
        }
    }

    /// The stored value, which always lies in `min..max`.
    pub fn inner(&self) -> (r: i32)
        ensures
            r == self.value(),
            self.lower() <= r < self.upper(),
    {
        proof {
            use_type_invariant(self);
        }
        self.inner
    }

    /// The range the value lives in.
    pub fn range(&self) -> (r: Range<i32>)
        ensures
            r.start == self.lower(),
            r.end == self.upper(),
            r.start < r.end,
    {
        proof {
            use_type_invariant(self);
        }
        self.min..self.max
    }

    /// The lower bound, which the value may reach.
    pub fn min_bound(&self) -> (r: i32)
        ensures
            r == self.lower(),
    {
        self.min
    }

    /// The upper bound, which the value stays below.
    pub fn max_bound(&self) -> (r: i32)
        ensures
            r == self.upper(),
    {
        self.max
    }
}

/// The raw sum of the stored value and a bare number. It may lie outside the
/// bounds.
impl Add<i32> for BoundedI32 {
    type Output = i32;

    fn add(self, other: i32) -> (r: i32) {
        self.inner + other
    }
}

impl AddSpecImpl<i32> for BoundedI32 {
    open spec fn obeys_add_spec() -> bool {
        true
    }

    open spec fn add_req(self, other: i32) -> bool {
        i32::MIN <= self.value() + other <= i32::MAX
    }

    open spec fn add_spec(self, other: i32) -> i32 {
        (self.value() + other) as i32
    }
}

/// The raw sum of the stored value and the value stored in another instance. It
/// may lie outside the bounds.
impl Add<BoundedI32> for BoundedI32 {
    type Output = i32;

    fn add(self, other: BoundedI32) -> (r: i32) {
        self.inner + other.inner
    }
}

impl AddSpecImpl<BoundedI32> for BoundedI32 {
    open spec fn obeys_add_spec() -> bool {
        true
    }

    open spec fn add_req(self, other: BoundedI32) -> bool {
        i32::MIN <= self.value() + other.value() <= i32::MAX
    }

    open spec fn add_spec(self, other: BoundedI32) -> i32 {
        (self.value() + other.value()) as i32
    }
}

/// The raw difference of the stored value and a bare number. It may lie outside
/// the bounds.
impl Sub<i32> for BoundedI32 {
    type Output = i32;

    fn sub(self, other: i32) -> (r: i32) {
        self.inner - other
    }
}

impl SubSpecImpl<i32> for BoundedI32 {
    open spec fn obeys_sub_spec() -> bool {
        true
    }

    open spec fn sub_req(self, other: i32) -> bool {
        i32::MIN <= self.value() - other <= i32::MAX
    }

    open spec fn sub_spec(self, other: i32) -> i32 {
        (self.value() - other) as i32
    }
}

/// The raw difference of the stored value and the value stored in another
/// instance. It may lie outside the bounds.
impl Sub<BoundedI32> for BoundedI32 {
    type Output = i32;

    fn sub(self, other: BoundedI32) -> (r: i32) {
        self.inner - other.inner
    }
}

impl SubSpecImpl<BoundedI32> for BoundedI32 {
    open spec fn obeys_sub_spec() -> bool {
        true
    }

    open spec fn sub_req(self, other: BoundedI32) -> bool {
        i32::MIN <= self.value() - other.value() <= i32::MAX
    }

    open spec fn sub_spec(self, other: BoundedI32) -> i32 {
        (self.value() - other.value()) as i32
    }
}

/// The raw product of the stored value and a bare number. It may lie outside
/// the bounds.
impl Mul<i32> for BoundedI32 {
    type Output = i32;

    fn mul(self, other: i32) -> (r: i32) {
        self.inner * other
    }
}

impl MulSpecImpl<i32> for BoundedI32 {
    open spec fn obeys_mul_spec() -> bool {
        true
    }

    open spec fn mul_req(self, other: i32) -> bool {
        i32::MIN <= self.value() * other <= i32::MAX
    }

    open spec fn mul_spec(self, other: i32) -> i32 {
        (self.value() * other) as i32
    }
}

/// The raw product of the stored value and the value stored in another
/// instance. It may lie outside the bounds.
impl Mul<BoundedI32> for BoundedI32 {
    type Output = i32;

    fn mul(self, other: BoundedI32) -> (r: i32) {
        self.inner * other.inner
    }
}

impl MulSpecImpl<BoundedI32> for BoundedI32 {
    open spec fn obeys_mul_spec() -> bool {
        true
    }

    open spec fn mul_req(self, other: BoundedI32) -> bool {
        i32::MIN <= self.value() * other.value() <= i32::MAX
    }

    open spec fn mul_spec(self, other: BoundedI32) -> i32 {
        (self.value() * other.value()) as i32
    }
}

/// The raw quotient of the stored value and a bare number. It may lie outside
/// the bounds.
impl Div<i32> for BoundedI32 {
    type Output = i32;

    fn div(self, other: i32) -> (r: i32) {
        proof {
            lemma_quotient_bounds(self.value() as int, other as int);
        }
        self.inner / other
    }
}

impl DivSpecImpl<i32> for BoundedI32 {
    open spec fn obeys_div_spec() -> bool {
        true
    }

    open spec fn div_req(self, other: i32) -> bool {
        other != 0 && !(self.value() == i32::MIN && other == -1)
    }

    open spec fn div_spec(self, other: i32) -> i32 {
        quotient(self.value() as int, other as int) as i32
    }
}

/// The raw quotient of the stored value and the value stored in another
/// instance. It may lie outside the bounds.
impl Div<BoundedI32> for BoundedI32 {
    type Output = i32;

    fn div(self, other: BoundedI32) -> (r: i32) {
        proof {
            lemma_quotient_bounds(self.value() as int, other.value() as int);
        }
        self.inner / other.inner
    }
}

impl DivSpecImpl<BoundedI32> for BoundedI32 {
    open spec fn obeys_div_spec() -> bool {
        true
    }

    open spec fn div_req(self, other: BoundedI32) -> bool {
        other.value() != 0 && !(self.value() == i32::MIN && other.value() == -1)
    }

    open spec fn div_spec(self, other: BoundedI32) -> i32 {
        quotient(self.value() as int, other.value() as int) as i32
    }
}

/// The raw remainder of the stored value and a bare number. It may lie outside
/// the bounds.
impl Rem<i32> for BoundedI32 {
    type Output = i32;

    fn rem(self, other: i32) -> (r: i32) {
        self.inner % other
    }
}

impl RemSpecImpl<i32> for BoundedI32 {
    open spec fn obeys_rem_spec() -> bool {
        true
    }

    open spec fn rem_req(self, other: i32) -> bool {
        other != 0 && !(self.value() == i32::MIN && other == -1)
    }

    open spec fn rem_spec(self, other: i32) -> i32 {
        remainder(self.value() as int, other as int) as i32
    }
}

/// The raw remainder of the stored value and the value stored in another
/// instance. It may lie outside the bounds.
impl Rem<BoundedI32> for BoundedI32 {
    type Output = i32;

    fn rem(self, other: BoundedI32) -> (r: i32) {
        self.inner % other.inner
    }
}

impl RemSpecImpl<BoundedI32> for BoundedI32 {
    open spec fn obeys_rem_spec() -> bool {
        true
    }

    open spec fn rem_req(self, other: BoundedI32) -> bool {
        other.value() != 0 && !(self.value() == i32::MIN && other.value() == -1)
    }

    open spec fn rem_spec(self, other: BoundedI32) -> i32 {
        remainder(self.value() as int, other.value() as int) as i32
    }
}

/// Equal to a bare number exactly when the stored values are equal.
impl PartialEq<i32> for BoundedI32 {
    fn eq(&self, other: &i32) -> (r: bool) {
        self.inner == *other
    }
}

impl PartialEqSpecImpl<i32> for BoundedI32 {
    open spec fn obeys_eq_spec() -> bool {
        true
    }

    open spec fn eq_spec(&self, other: &i32) -> bool {
        self.value() == *other
    }
}

/// Equal to another instance exactly when the stored values are equal; the
/// bounds play no part.
impl PartialEq<BoundedI32> for BoundedI32 {
    fn eq(&self, other: &BoundedI32) -> (r: bool) {
        self.inner == other.inner
    }
}

impl PartialEqSpecImpl<BoundedI32> for BoundedI32 {
    open spec fn obeys_eq_spec() -> bool {
        true
    }

    open spec fn eq_spec(&self, other: &BoundedI32) -> bool {
        self.value() == other.value()
    }
}

/// Ordered against a bare number by the stored values.
impl PartialOrd<i32> for BoundedI32 {
    fn partial_cmp(&self, other: &i32) -> (r: Option<Ordering>) {
        self.inner.partial_cmp(other)
    }
}

impl PartialOrdSpecImpl<i32> for BoundedI32 {
    open spec fn obeys_partial_cmp_spec() -> bool {
        true
    }

    open spec fn partial_cmp_spec(&self, other: &i32) -> Option<Ordering> {
        if self.value() < *other {
            Some(Ordering::Less)
        } else if self.value() > *other {
            Some(Ordering::Greater)
        } else {
            Some(Ordering::Equal)
        }
    }
}

/// Ordered against another instance by the stored values; the bounds play no
/// part.
impl PartialOrd<BoundedI32> for BoundedI32 {
    fn partial_cmp(&self, other: &BoundedI32) -> (r: Option<Ordering>) {
        self.inner.partial_cmp(&other.inner)
    }
}

impl PartialOrdSpecImpl<BoundedI32> for BoundedI32 {
    open spec fn obeys_partial_cmp_spec() -> bool {
        true
    }

    open spec fn partial_cmp_spec(&self, other: &BoundedI32) -> Option<Ordering> {
        if self.value() < other.value() {
            Some(Ordering::Less)
        } else if self.value() > other.value() {
            Some(Ordering::Greater)
        } else {
            Some(Ordering::Equal)
        }
    }
}

} // verus!
