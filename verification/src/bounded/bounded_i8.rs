//! An `i8` that cannot be made outside bounds chosen when it is made.
use crate::bounded::rejection;
use crate::bounded::BoundsError;
use crate::model::lemma_quotient_bounds;
use crate::model::quotient;
use crate::model::remainder;
use core::cmp::Ordering;
use core::ops::Add;
use core::ops::Div;
use core::ops::Mul;
use core::ops::Range;
use core::ops::Rem;
use core::ops::Sub;
use vstd::prelude::*;
use vstd::std_specs::cmp::PartialEqSpecImpl;
use vstd::std_specs::cmp::PartialOrdSpecImpl;
use vstd::std_specs::ops::AddSpecImpl;
use vstd::std_specs::ops::DivSpecImpl;
use vstd::std_specs::ops::MulSpecImpl;
use vstd::std_specs::ops::RemSpecImpl;
use vstd::std_specs::ops::SubSpecImpl;

verus! {

/// An `i8` known to lie in `min..max`.
///
/// The bounds are checked once, when the value is made. The operators
/// hand back the raw `i8` result and check nothing.
#[derive(Debug, Clone, Copy, Eq)]
pub struct BoundedI8 {
    inner: i8,
    min: i8,
    max: i8,
}

impl BoundedI8 {
    #[verifier::type_invariant]
    spec fn in_bounds(self) -> bool {
        self.min <= self.inner < self.max
    }

    /// The stored value.
    pub closed spec fn value(self) -> i8 {
        self.inner
    }

    /// The lower bound, which the value may reach.
    pub closed spec fn lower(self) -> i8 {
        self.min
    }

    /// The upper bound, which the value stays below.
    pub closed spec fn upper(self) -> i8 {
        self.max
    }

    /// Accepts `inner` unchanged if it lies in `min..max`, and says on
    /// which side it falls out otherwise.
    pub fn new(inner: i8, min: i8, max: i8) -> (r: Result<Self, BoundsError>)
        requires
            min < max,
        ensures
            match r {
                Ok(b) => {
                    &&& rejection(inner as int, min as int, max as int) is None
                    &&& b.value() == inner
                    &&& b.lower() == min
                    &&& b.upper() == max
                },
                Err(e) => rejection(inner as int, min as int, max as int) == Some(e),
            },
    {
        if inner >= max {
            Err(BoundsError::TooLarge)
        } else if inner < min {
            Err(BoundsError::TooSmall)
        } else {
            Ok(Self { inner, min, max })
        }
    }

    /// The stored value, which always lies in `min..max`.
    pub fn inner(&self) -> (r: i8)
        ensures
            r == self.value(),
            self.lower() <= r < self.upper(),
    {
        proof {
            use_type_invariant(self);
        }
        self.inner
    }

    /// The range the value lives in.
    pub fn range(&self) -> (r: Range<i8>)
        ensures
            r.start == self.lower(),
            r.end == self.upper(),
            r.start < r.end,
    {
        proof {
            use_type_invariant(self);
        }
        self.min..self.max
    }

    /// The lower bound, which the value may reach.
    pub fn min_bound(&self) -> (r: i8)
        ensures
            r == self.lower(),
    {
        self.min
    }

    /// The upper bound, which the value stays below.
    pub fn max_bound(&self) -> (r: i8)
        ensures
            r == self.upper(),
    {
        self.max
    }
}

/// The raw sum of the stored value and a bare number. It may lie outside the
/// bounds.
impl Add<i8> for BoundedI8 {
    type Output = i8;

    fn add(self, other: i8) -> (r: i8) {
        self.inner + other
    }
}

impl AddSpecImpl<i8> for BoundedI8 {
    open spec fn obeys_add_spec() -> bool {
        true
    }

    open spec fn add_req(self, other: i8) -> bool {
        i8::MIN <= self.value() + other <= i8::MAX
    }

    open spec fn add_spec(self, other: i8) -> i8 {
        (self.value() + other) as i8
    }
}

/// The raw sum of the stored value and the value stored in another instance. It
/// may lie outside the bounds.
impl Add<BoundedI8> for BoundedI8 {
    type Output = i8;

    fn add(self, other: BoundedI8) -> (r: i8) {
        self.inner + other.inner
    }
}

impl AddSpecImpl<BoundedI8> for BoundedI8 {
    open spec fn obeys_add_spec() -> bool {
        true
    }

    open spec fn add_req(self, other: BoundedI8) -> bool {
        i8::MIN <= self.value() + other.value() <= i8::MAX
    }

    open spec fn add_spec(self, other: BoundedI8) -> i8 {
        (self.value() + other.value()) as i8
    }
}

/// The raw difference of the stored value and a bare number. It may lie outside
/// the bounds.
impl Sub<i8> for BoundedI8 {
    type Output = i8;

    fn sub(self, other: i8) -> (r: i8) {
        self.inner - other
    }
}

impl SubSpecImpl<i8> for BoundedI8 {
    open spec fn obeys_sub_spec() -> bool {
        true
    }

    open spec fn sub_req(self, other: i8) -> bool {
        i8::MIN <= self.value() - other <= i8::MAX
    }

    open spec fn sub_spec(self, other: i8) -> i8 {
        (self.value() - other) as i8
    }
}

/// The raw difference of the stored value and the value stored in another
/// instance. It may lie outside the bounds.
impl Sub<BoundedI8> for BoundedI8 {
    type Output = i8;

    fn sub(self, other: BoundedI8) -> (r: i8) {
        self.inner - other.inner
    }
}

impl SubSpecImpl<BoundedI8> for BoundedI8 {
    open spec fn obeys_sub_spec() -> bool {
        true
    }

    open spec fn sub_req(self, other: BoundedI8) -> bool {
        i8::MIN <= self.value() - other.value() <= i8::MAX
    }

    open spec fn sub_spec(self, other: BoundedI8) -> i8 {
        (self.value() - other.value()) as i8
    }
}

/// The raw product of the stored value and a bare number. It may lie outside
/// the bounds.
impl Mul<i8> for BoundedI8 {
    type Output = i8;

    fn mul(self, other: i8) -> (r: i8) {
        self.inner * other
    }
}

impl MulSpecImpl<i8> for BoundedI8 {
    open spec fn obeys_mul_spec() -> bool {
        true
    }

    open spec fn mul_req(self, other: i8) -> bool {
        i8::MIN <= self.value() * other <= i8::MAX
    }

    open spec fn mul_spec(self, other: i8) -> i8 {
        (self.value() * other) as i8
    }
}

/// The raw product of the stored value and the value stored in another
/// instance. It may lie outside the bounds.
impl Mul<BoundedI8> for BoundedI8 {
    type Output = i8;

    fn mul(self, other: BoundedI8) -> (r: i8) {
        self.inner * other.inner
    }
}

impl MulSpecImpl<BoundedI8> for BoundedI8 {
    open spec fn obeys_mul_spec() -> bool {
        true
    }

    open spec fn mul_req(self, other: BoundedI8) -> bool {
        i8::MIN <= self.value() * other.value() <= i8::MAX
    }

    open spec fn mul_spec(self, other: BoundedI8) -> i8 {
        (self.value() * other.value()) as i8
    }
}

/// The raw quotient of the stored value and a bare number. It may lie outside
/// the bounds.
impl Div<i8> for BoundedI8 {
    type Output = i8;

    fn div(self, other: i8) -> (r: i8) {
        proof {
            lemma_quotient_bounds(self.value() as int, other as int);
        }
        self.inner / other
    }
}

impl DivSpecImpl<i8> for BoundedI8 {
    open spec fn obeys_div_spec() -> bool {
        true
    }

    open spec fn div_req(self, other: i8) -> bool {
        other != 0 && !(self.value() == i8::MIN && other == -1)
    }

    open spec fn div_spec(self, other: i8) -> i8 {
        quotient(self.value() as int, other as int) as i8
    }
}

/// The raw quotient of the stored value and the value stored in another
/// instance. It may lie outside the bounds.
impl Div<BoundedI8> for BoundedI8 {
    type Output = i8;

    fn div(self, other: BoundedI8) -> (r: i8) {
        proof {
            lemma_quotient_bounds(self.value() as int, other.value() as int);
        }
        self.inner / other.inner
    }
}

impl DivSpecImpl<BoundedI8> for BoundedI8 {
    open spec fn obeys_div_spec() -> bool {
        true
    }

    open spec fn div_req(self, other: BoundedI8) -> bool {
        other.value() != 0 && !(self.value() == i8::MIN && other.value() == -1)
    }

    open spec fn div_spec(self, other: BoundedI8) -> i8 {
        quotient(self.value() as int, other.value() as int) as i8
    }
}

/// The raw remainder of the stored value and a bare number. It may lie outside
/// the bounds.
impl Rem<i8> for BoundedI8 {
    type Output = i8;

    fn rem(self, other: i8) -> (r: i8) {
        self.inner % other
    }
}

impl RemSpecImpl<i8> for BoundedI8 {
    open spec fn obeys_rem_spec() -> bool {
        true
    }

    open spec fn rem_req(self, other: i8) -> bool {
        other != 0 && !(self.value() == i8::MIN && other == -1)
    }

    open spec fn rem_spec(self, other: i8) -> i8 {
        remainder(self.value() as int, other as int) as i8
    }
}

/// The raw remainder of the stored value and the value stored in another
/// instance. It may lie outside the bounds.
impl Rem<BoundedI8> for BoundedI8 {
    type Output = i8;

    fn rem(self, other: BoundedI8) -> (r: i8) {
        self.inner % other.inner
    }
}

impl RemSpecImpl<BoundedI8> for BoundedI8 {
    open spec fn obeys_rem_spec() -> bool {
        true
    }

    open spec fn rem_req(self, other: BoundedI8) -> bool {
        other.value() != 0 && !(self.value() == i8::MIN && other.value() == -1)
    }

    open spec fn rem_spec(self, other: BoundedI8) -> i8 {
        remainder(self.value() as int, other.value() as int) as i8
    }
}

/// Equal to a bare number exactly when the stored values are equal.
impl PartialEq<i8> for BoundedI8 {
    fn eq(&self, other: &i8) -> (r: bool) {
        self.inner == *other
    }
}

impl PartialEqSpecImpl<i8> for BoundedI8 {
    open spec fn obeys_eq_spec() -> bool {
        true
    }

    open spec fn eq_spec(&self, other: &i8) -> bool {
        self.value() == *other
    }
}

/// Equal to another instance exactly when the stored values are equal; the
/// bounds play no part.
impl PartialEq<BoundedI8> for BoundedI8 {
    fn eq(&self, other: &BoundedI8) -> (r: bool) {
        self.inner == other.inner
    }
}

impl PartialEqSpecImpl<BoundedI8> for BoundedI8 {
    open spec fn obeys_eq_spec() -> bool {
        true
    }

    open spec fn eq_spec(&self, other: &BoundedI8) -> bool {
        self.value() == other.value()
    }
}

/// Ordered against a bare number by the stored values.
impl PartialOrd<i8> for BoundedI8 {
    fn partial_cmp(&self, other: &i8) -> (r: Option<Ordering>) {
        self.inner.partial_cmp(other)
    }
}

impl PartialOrdSpecImpl<i8> for BoundedI8 {
    open spec fn obeys_partial_cmp_spec() -> bool {
        true
    }

    open spec fn partial_cmp_spec(&self, other: &i8) -> Option<Ordering> {
        if self.value() < *other {
            Some(Ordering::Less)
        } else if self.value() > *other {
            Some(Ordering::Greater)
        } else {
            Some(Ordering::Equal)
        }
    }
}

/// Ordered against another instance by the stored values; the bounds play no
/// part.
impl PartialOrd<BoundedI8> for BoundedI8 {
    fn partial_cmp(&self, other: &BoundedI8) -> (r: Option<Ordering>) {
        self.inner.partial_cmp(&other.inner)
    }
}

impl PartialOrdSpecImpl<BoundedI8> for BoundedI8 {
    open spec fn obeys_partial_cmp_spec() -> bool {
        true
    }

    open spec fn partial_cmp_spec(&self, other: &BoundedI8) -> Option<Ordering> {
        if self.value() < other.value() {
            Some(Ordering::Less)
        } else if self.value() > other.value() {
            Some(Ordering::Greater)
        } else {
            Some(Ordering::Equal)
        }
    }
}

} // verus!
