//! An `isize` that cannot be made outside bounds chosen when it is made.
use crate::bounded::rejection;
use crate::bounded::BoundsError;
use crate::model::lemma_quotient_bounds;
use crate::model::quotient;
use crate::model::remainder;
use core::cmp::Ordering;
use core::ops::Add;
use core::ops::Div;
use core::ops::Mul;
use core::ops::Range;
use core::ops::Rem;
use core::ops::Sub;
use vstd::prelude::*;
use vstd::std_specs::cmp::PartialEqSpecImpl;
use vstd::std_specs::cmp::PartialOrdSpecImpl;
use vstd::std_specs::ops::AddSpecImpl;
use vstd::std_specs::ops::DivSpecImpl;
use vstd::std_specs::ops::MulSpecImpl;
use vstd::std_specs::ops::RemSpecImpl;
use vstd::std_specs::ops::SubSpecImpl;

verus! {

/// An `isize` known to lie in `min..max`.
///
/// The bounds are checked once, when the value is made. The operators
/// hand back the raw `isize` result and check nothing.
#[derive(Debug, Clone, Copy, Eq)]
pub struct BoundedISize {
    inner: isize,
    min: isize,
    max: isize,
}

impl BoundedISize {
    #[verifier::type_invariant]
    spec fn in_bounds(self) -> bool {
        self.min <= self.inner < self.max
    }

    /// The stored value.
    pub closed spec fn value(self) -> isize {
        self.inner
    }

    /// The lower bound, which the value may reach.
    pub closed spec fn lower(self) -> isize {
        self.min
    }

    /// The upper bound, which the value stays below.
    pub closed spec fn upper(self) -> isize {
        self.max
    }

    /// Accepts `inner` unchanged if it lies in `min..max`, and says on
    /// which side it falls out otherwise.
    pub fn new(inner: isize, min: isize, max: isize) -> (r: Result<Self, BoundsError>)
        requires
            min < max,
        ensures
            match r {
                Ok(b) => {
                    &&& rejection(inner as int, min as int, max as int) is None
                    &&& b.value() == inner
                    &&& b.lower() == min
                    &&& b.upper() == max
                },
                Err(e) => rejection(inner as int, min as int, max as int) == Some(e),
            },
    {
        if inner >= max {
            Err(BoundsError::TooLarge)
        } else if inner < min {
            Err(BoundsError::TooSmall)
        } else {
            Ok(Self { inner, min, max })
        }
    }

    /// The stored value, which always lies in `min..max`.
    pub fn inner(&self) -> (r: isize)
        ensures
            r == self.value(),
            self.lower() <= r < self.upper(),
    {
        proof {
            use_type_invariant(self);
        }
        self.inner
    }

    /// The range the value lives in.
    pub fn range(&self) -> (r: Range<isize>)
        ensures
            r.start == self.lower(),
            r.end == self.upper(),
            r.start < r.end,
    {
        proof {
            use_type_invariant(self);
        }
        self.min..self.max
    }

    /// The lower bound, which the value may reach.
    pub fn min_bound(&self) -> (r: isize)
        ensures
            r == self.lower(),
    {
        self.min
    }

    /// The upper bound, which the value stays below.
    pub fn max_bound(&self) -> (r: isize)
        ensures
            r == self.upper(),
    {
        self.max
    }
}

/// The raw sum of the stored value and a bare number. It may lie outside the
/// bounds.
impl Add<isize> for BoundedISize {
    type Output = isize;

    fn add(self, other: isize) -> (r: isize) {
        self.inner + other
    }
}

impl AddSpecImpl<isize> for BoundedISize {
    open spec fn obeys_add_spec() -> bool {
        true
    }

    open spec fn add_req(self, other: isize) -> bool {
        isize::MIN <= self.value() + other <= isize::MAX
    }

    open spec fn add_spec(self, other: isize) -> isize {
        (self.value() + other) as isize
    }
}

/// The raw sum of the stored value and the value stored in another instance. It
/// may lie outside the bounds.
impl Add<BoundedISize> for BoundedISize {
    type Output = isize;

    fn add(self, other: BoundedISize) -> (r: isize) {
        self.inner + other.inner
    }
}

impl AddSpecImpl<BoundedISize> for BoundedISize {
    open spec fn obeys_add_spec() -> bool {
        true
    }

    open spec fn add_req(self, other: BoundedISize) -> bool {
        isize::MIN <= self.value() + other.value() <= isize::MAX
    }

    open spec fn add_spec(self, other: BoundedISize) -> isize {
        (self.value() + other.value()) as isize
    }
}

/// The raw difference of the stored value and a bare number. It may lie outside
/// the bounds.
impl Sub<isize> for BoundedISize {
    type Output = isize;

    fn sub(self, other: isize) -> (r: isize) {
        self.inner - other
    }
}

impl SubSpecImpl<isize> for BoundedISize {
    open spec fn obeys_sub_spec() -> bool {
        true
    }

    open spec fn sub_req(self, other: isize) -> bool {
        isize::MIN <= self.value() - other <= isize::MAX
    }

    open spec fn sub_spec(self, other: isize) -> isize {
        (self.value() - other) as isize
    }
}

/// The raw difference of the stored value and the value stored in another
/// instance. It may lie outside the bounds.
impl Sub<BoundedISize> for BoundedISize {
    type Output = isize;

    fn sub(self, other: BoundedISize) -> (r: isize) {
        self.inner - other.inner
    }
}

impl SubSpecImpl<BoundedISize> for BoundedISize {
    open spec fn obeys_sub_spec() -> bool {
        true
    }

    open spec fn sub_req(self, other: BoundedISize) -> bool {
        isize::MIN <= self.value() - other.value() <= isize::MAX
    }

    open spec fn sub_spec(self, other: BoundedISize) -> isize {
        (self.value() - other.value()) as isize
    }
}

/// The raw product of the stored value and a bare number. It may lie outside
/// the bounds.
impl Mul<isize> for BoundedISize {
    type Output = isize;

    fn mul(self, other: isize) -> (r: isize) {
        self.inner * other
    }
}

impl MulSpecImpl<isize> for BoundedISize {
    open spec fn obeys_mul_spec() -> bool {
        true
    }

    open spec fn mul_req(self, other: isize) -> bool {
        isize::MIN <= self.value() * other <= isize::MAX
    }

    open spec fn mul_spec(self, other: isize) -> isize {
        (self.value() * other) as isize
    }
}

/// The raw product of the stored value and the value stored in another
/// instance. It may lie outside the bounds.
impl Mul<BoundedISize> for BoundedISize {
    type Output = isize;

    fn mul(self, other: BoundedISize) -> (r: isize) {
        self.inner * other.inner
    }
}

impl MulSpecImpl<BoundedISize> for BoundedISize {
    open spec fn obeys_mul_spec() -> bool {
        true
    }

    open spec fn mul_req(self, other: BoundedISize) -> bool {
        isize::MIN <= self.value() * other.value() <= isize::MAX
    }

    open spec fn mul_spec(self, other: BoundedISize) -> isize {
        (self.value() * other.value()) as isize
    }
}

/// The raw quotient of the stored value and a bare number. It may lie outside
/// the bounds.
impl Div<isize> for BoundedISize {
    type Output = isize;

    fn div(self, other: isize) -> (r: isize) {
        proof {
            lemma_quotient_bounds(self.value() as int, other as int);
        }
        self.inner / other
    }
}

impl DivSpecImpl<isize> for BoundedISize {
    open spec fn obeys_div_spec() -> bool {
        true
    }

    open spec fn div_req(self, other: isize) -> bool {
        other != 0 && !(self.value() == isize::MIN && other == -1)
    }

    open spec fn div_spec(self, other: isize) -> isize {
        quotient(self.value() as int, other as int) as isize
    }
}

/// The raw quotient of the stored value and the value stored in another
/// instance. It may lie outside the bounds.
impl Div<BoundedISize> for BoundedISize {
    type Output = isize;

    fn div(self, other: BoundedISize) -> (r: isize) {
        proof {
            lemma_quotient_bounds(self.value() as int, other.value() as int);
        }
        self.inner / other.inner
    }
}

impl DivSpecImpl<BoundedISize> for BoundedISize {
    open spec fn obeys_div_spec() -> bool {
        true
    }

    open spec fn div_req(self, other: BoundedISize) -> bool {
        other.value() != 0 && !(self.value() == isize::MIN && other.value() == -1)
    }

    open spec fn div_spec(self, other: BoundedISize) -> isize {
        quotient(self.value() as int, other.value() as int) as isize
    }
}

/// The raw remainder of the stored value and a bare number. It may lie outside
/// the bounds.
impl Rem<isize> for BoundedISize {
    type Output = isize;

    fn rem(self, other: isize) -> (r: isize) {
        self.inner % other
    }
}

impl RemSpecImpl<isize> for BoundedISize {
    open spec fn obeys_rem_spec() -> bool {
        true
    }

    open spec fn rem_req(self, other: isize) -> bool {
        other != 0 && !(self.value() == isize::MIN && other == -1)
    }

    open spec fn rem_spec(self, other: isize) -> isize {
        remainder(self.value() as int, other as int) as isize
    }
}

/// The raw remainder of the stored value and the value stored in another
/// instance. It may lie outside the bounds.
impl Rem<BoundedISize> for BoundedISize {
    type Output = isize;

    fn rem(self, other: BoundedISize) -> (r: isize) {
        self.inner % other.inner
    }
}

impl RemSpecImpl<BoundedISize> for BoundedISize {
    open spec fn obeys_rem_spec() -> bool {
        true
    }

    open spec fn rem_req(self, other: BoundedISize) -> bool {
        other.value() != 0 && !(self.value() == isize::MIN && other.value() == -1)
    }

    open spec fn rem_spec(self, other: BoundedISize) -> isize {
        remainder(self.value() as int, other.value() as int) as isize
    }
}

/// Equal to a bare number exactly when the stored values are equal.
impl PartialEq<isize> for BoundedISize {
    fn eq(&self, other: &isize) -> (r: bool) {
        self.inner == *other
    }
}

impl PartialEqSpecImpl<isize> for BoundedISize {
    open spec fn obeys_eq_spec() -> bool {
        true
    }

    open spec fn eq_spec(&self, other: &isize) -> bool {
        self.value() == *other
    }
}

/// Equal to another instance exactly when the stored values are equal; the
/// bounds play no part.
impl PartialEq<BoundedISize> for BoundedISize {
    fn eq(&self, other: &BoundedISize) -> (r: bool) {
        self.inner == other.inner
    }
}

impl PartialEqSpecImpl<BoundedISize> for BoundedISize {
    open spec fn obeys_eq_spec() -> bool {
        true
    }

    open spec fn eq_spec(&self, other: &BoundedISize) -> bool {
        self.value() == other.value()
    }
}

/// Ordered against a bare number by the stored values.
impl PartialOrd<isize> for BoundedISize {
    fn partial_cmp(&self, other: &isize) -> (r: Option<Ordering>) {
        self.inner.partial_cmp(other)
    }
}

impl PartialOrdSpecImpl<isize> for BoundedISize {
    open spec fn obeys_partial_cmp_spec() -> bool {
        true
    }

    open spec fn partial_cmp_spec(&self, other: &isize) -> Option<Ordering> {
        if self.value() < *other {
            Some(Ordering::Less)
        } else if self.value() > *other {
            Some(Ordering::Greater)
        } else {
            Some(Ordering::Equal)
        }
    }
}

/// Ordered against another instance by the stored values; the bounds play no
/// part.
impl PartialOrd<BoundedISize> for BoundedISize {
    fn partial_cmp(&self, other: &BoundedISize) -> (r: Option<Ordering>) {
        self.inner.partial_cmp(&other.inner)
    }
}

impl PartialOrdSpecImpl<BoundedISize> for BoundedISize {
    open spec fn obeys_partial_cmp_spec() -> bool {
        true
    }

    open spec fn partial_cmp_spec(&self, other: &BoundedISize) -> Option<Ordering> {
        if self.value() < other.value() {
            Some(Ordering::Less)
        } else if self.value() > other.value() {
            Some(Ordering::Greater)
        } else {
            Some(Ordering::Equal)
        }
    }
}

} // verus!
