//! A number of any ordered type that wraps around inside bounds stored with
//! it.
use core::fmt::Debug;
use core::ops::Add;
use core::ops::AddAssign;
use core::ops::Div;
use core::ops::DivAssign;
use core::ops::Mul;
use core::ops::MulAssign;
use core::ops::Range;
use core::ops::Rem;
use core::ops::RemAssign;
use core::ops::Sub;
use core::ops::SubAssign;
use crate::model::lemma_wrap_fixes_range;
use crate::model::lemma_wrap_from_below;
use crate::model::lemma_wrap_in_range;
use crate::model::wrap;
use crate::text::describe;
use crate::text::layout;
use vstd::prelude::*;
use vstd::std_specs::cmp::PartialEqSpec;
use vstd::std_specs::cmp::PartialEqSpecImpl;
use vstd::std_specs::cmp::PartialOrdIs;
use vstd::std_specs::cmp::PartialOrdSpec;
use vstd::std_specs::ops::AddSpec;
use vstd::std_specs::ops::AddSpecImpl;
use vstd::std_specs::ops::DivSpec;
use vstd::std_specs::ops::DivSpecImpl;
use vstd::std_specs::ops::MulSpec;
use vstd::std_specs::ops::MulSpecImpl;
use vstd::std_specs::ops::RemSpec;
use vstd::std_specs::ops::RemSpecImpl;
use vstd::std_specs::ops::SubSpec;
use vstd::std_specs::ops::SubSpecImpl;

verus! {

/// A value kept between `min` and `max` by wrapping around.
///
/// The plain operators hand back the raw result of the underlying
/// operator; the assigning operators fold their result back into the
/// range.
#[derive(Debug, Clone, Copy)]
pub struct Wrapping<T> {
    inner: T,
    min: T,
    max: T,
}

impl<T> Wrapping<T> {
    /// The stored value.
    pub closed spec fn value(self) -> T {
        self.inner
    }

    /// The lower bound.
    pub closed spec fn lower(self) -> T {
        self.min
    }

    /// The upper bound.
    pub closed spec fn upper(self) -> T {
        self.max
    }

    /// The stored value.
    pub fn inner(&self) -> (r: &T)
        ensures
            *r == self.value(),
    {
        &self.inner
    }

    /// Gives up the bounds and hands out the stored value.
    pub fn into_inner(self) -> (r: T)
        ensures
            r == self.value(),
    {
        self.inner
    }

    /// The lower bound.
    pub fn min_bound(&self) -> (r: &T)
        ensures
            *r == self.lower(),
    {
        &self.min
    }

    /// The upper bound.
    pub fn max_bound(&self) -> (r: &T)
        ensures
            *r == self.upper(),
    {
        &self.max
    }

    /// The range the value lives in.
    pub fn range(&self) -> (r: Range<&T>)
        ensures
            *r.start == self.lower(),
            *r.end == self.upper(),
    {
        &self.min..&self.max
    }
}

impl<T: Debug> Wrapping<T> {
    /// The value and its bounds as text, each written as `T` writes
    /// itself for debugging, laid out under the name of the type.
    pub fn debug_string(&self) -> (r: String)
        ensures
            exists|a: Seq<char>, b: Seq<char>, c: Seq<char>| r@ == layout("Wrapping"@, a, b, c),
    {
        describe("Wrapping", &self.inner, &self.min, &self.max)
    }
}

impl<T: PartialOrd> Wrapping<T> {
    /// The bounds are in order: the lower one is less than the upper one.
    pub open spec fn wf(self) -> bool {
        self.lower().is_lt(&self.upper())
    }
}

impl<T: PartialOrd + Copy + Add<Output = T> + Rem<Output = T> + Sub<Output = T>> Wrapping<T> {
    /// The comparisons, additions, subtractions and remainders of `T` do
    /// what their specifications say.
    pub open spec fn lawful() -> bool {
        &&& T::obeys_partial_cmp_spec()
        &&& T::obeys_add_spec()
        &&& T::obeys_sub_spec()
        &&& T::obeys_rem_spec()
    }

    /// `inner` can be folded between `min` and `max`: the bounds are in
    /// order, and `T` can carry out each step of the folding.
    pub open spec fn can_fold(inner: T, min: T, max: T) -> bool {
        &&& Self::lawful()
        &&& min.is_lt(&max)
        &&& if inner.is_ge(&max) {
            &&& max.sub_req(min)
            &&& inner.sub_req(min)
            &&& inner.sub_spec(min).rem_req(max.sub_spec(min))
            &&& min.add_req(inner.sub_spec(min).rem_spec(max.sub_spec(min)))
        } else if inner.is_lt(&min) {
            &&& max.sub_req(min)
            &&& min.sub_req(inner)
            &&& min.sub_spec(inner).rem_req(max.sub_spec(min))
            &&& max.sub_req(min.sub_spec(inner).rem_spec(max.sub_spec(min)))
        } else {
            true
        }
    }

    /// What folding `inner` between `min` and `max` gives, read off the
    /// operators of `T`. A value at or above `max` is measured from
    /// `min`, and its remainder by the width of the range is put back on
    /// `min`. A value below `min` is measured down from `min`, and the
    /// remainder of that distance is taken back off `max`.
    pub open spec fn folded(inner: T, min: T, max: T) -> T {
        if inner.is_ge(&max) {
            min.add_spec(inner.sub_spec(min).rem_spec(max.sub_spec(min)))
        } else if inner.is_lt(&min) {
            let back = max.sub_spec(min.sub_spec(inner).rem_spec(max.sub_spec(min)));
            if back.is_ge(&max) {
                min
            } else {
                back
            }
        } else {
            inner
        }
    }

    /// Folds `inner` between `min` and `max`.
    pub fn new(inner: T, min: T, max: T) -> (r: Self)
        requires
            Self::can_fold(inner, min, max),
        ensures
            r.value() == Self::folded(inner, min, max),
            r.lower() == min,
            r.upper() == max,
            r.wf(),
    {
        if inner >= max {
            let rem = (inner - min) % (max - min);
            Self { inner: min + rem, min, max }
        } else if inner < min {
            let rem = (min - inner) % (max - min);
            let back = max - rem;
            if back >= max {
                Self { inner: min, min, max }
            } else {
                Self { inner: back, min, max }
            }
        } else {
            Self { inner, min, max }
        }
    }
}

/// The raw sum of the stored value and a bare value, as `T` computes it.
/// Nothing is checked or put back into the range.
impl<T: Add> Add<T> for Wrapping<T> {
    type Output = T::Output;

    fn add(self, other: T) -> (r: T::Output) {
        self.inner + other
    }
}

impl<T: Add> AddSpecImpl<T> for Wrapping<T> {
    open spec fn obeys_add_spec() -> bool {
        T::obeys_add_spec()
    }

    open spec fn add_req(self, other: T) -> bool {
        self.value().add_req(other)
    }

    open spec fn add_spec(self, other: T) -> T::Output {
        self.value().add_spec(other)
    }
}

/// The raw sum of the stored value and the value stored in another instance, as
/// `T` computes it. Nothing is checked or put back into the range.
impl<T: Add> Add<Wrapping<T>> for Wrapping<T> {
    type Output = T::Output;

    fn add(self, other: Wrapping<T>) -> (r: T::Output) {
        self.inner + other.inner
    }
}

impl<T: Add> AddSpecImpl<Wrapping<T>> for Wrapping<T> {
    open spec fn obeys_add_spec() -> bool {
        T::obeys_add_spec()
    }

    open spec fn add_req(self, other: Wrapping<T>) -> bool {
        self.value().add_req(other.value())
    }

    open spec fn add_spec(self, other: Wrapping<T>) -> T::Output {
        self.value().add_spec(other.value())
    }
}

/// The raw difference of the stored value and a bare value, as `T` computes it.
/// Nothing is checked or put back into the range.
impl<T: Sub> Sub<T> for Wrapping<T> {
    type Output = T::Output;

    fn sub(self, other: T) -> (r: T::Output) {
        self.inner - other
    }
}

impl<T: Sub> SubSpecImpl<T> for Wrapping<T> {
    open spec fn obeys_sub_spec() -> bool {
        T::obeys_sub_spec()
    }

    open spec fn sub_req(self, other: T) -> bool {
        self.value().sub_req(other)
    }

    open spec fn sub_spec(self, other: T) -> T::Output {
        self.value().sub_spec(other)
    }
}

/// The raw difference of the stored value and the value stored in another
/// instance, as `T` computes it. Nothing is checked or put back into the range.
impl<T: Sub> Sub<Wrapping<T>> for Wrapping<T> {
    type Output = T::Output;

    fn sub(self, other: Wrapping<T>) -> (r: T::Output) {
        self.inner - other.inner
    }
}

impl<T: Sub> SubSpecImpl<Wrapping<T>> for Wrapping<T> {
    open spec fn obeys_sub_spec() -> bool {
        T::obeys_sub_spec()
    }

    open spec fn sub_req(self, other: Wrapping<T>) -> bool {
        self.value().sub_req(other.value())
    }

    open spec fn sub_spec(self, other: Wrapping<T>) -> T::Output {
        self.value().sub_spec(other.value())
    }
}

/// The raw product of the stored value and a bare value, as `T` computes it.
/// Nothing is checked or put back into the range.
impl<T: Mul> Mul<T> for Wrapping<T> {
    type Output = T::Output;

    fn mul(self, other: T) -> (r: T::Output) {
        self.inner * other
    }
}

impl<T: Mul> MulSpecImpl<T> for Wrapping<T> {
    open spec fn obeys_mul_spec() -> bool {
        T::obeys_mul_spec()
    }

    open spec fn mul_req(self, other: T) -> bool {
        self.value().mul_req(other)
    }

    open spec fn mul_spec(self, other: T) -> T::Output {
        self.value().mul_spec(other)
    }
}

/// The raw product of the stored value and the value stored in another
/// instance, as `T` computes it. Nothing is checked or put back into the range.
impl<T: Mul> Mul<Wrapping<T>> for Wrapping<T> {
    type Output = T::Output;

    fn mul(self, other: Wrapping<T>) -> (r: T::Output) {
        self.inner * other.inner
    }
}

impl<T: Mul> MulSpecImpl<Wrapping<T>> for Wrapping<T> {
    open spec fn obeys_mul_spec() -> bool {
        T::obeys_mul_spec()
    }

    open spec fn mul_req(self, other: Wrapping<T>) -> bool {
        self.value().mul_req(other.value())
    }

    open spec fn mul_spec(self, other: Wrapping<T>) -> T::Output {
        self.value().mul_spec(other.value())
    }
}

/// The raw quotient of the stored value and a bare value, as `T` computes it.
/// Nothing is checked or put back into the range.
impl<T: Div> Div<T> for Wrapping<T> {
    type Output = T::Output;

    fn div(self, other: T) -> (r: T::Output) {
        self.inner / other
    }
}

impl<T: Div> DivSpecImpl<T> for Wrapping<T> {
    open spec fn obeys_div_spec() -> bool {
        T::obeys_div_spec()
    }

    open spec fn div_req(self, other: T) -> bool {
        self.value().div_req(other)
    }

    open spec fn div_spec(self, other: T) -> T::Output {
        self.value().div_spec(other)
    }
}

/// The raw quotient of the stored value and the value stored in another
/// instance, as `T` computes it. Nothing is checked or put back into the range.
impl<T: Div> Div<Wrapping<T>> for Wrapping<T> {
    type Output = T::Output;

    fn div(self, other: Wrapping<T>) -> (r: T::Output) {
        self.inner / other.inner
    }
}

impl<T: Div> DivSpecImpl<Wrapping<T>> for Wrapping<T> {
    open spec fn obeys_div_spec() -> bool {
        T::obeys_div_spec()
    }

    open spec fn div_req(self, other: Wrapping<T>) -> bool {
        self.value().div_req(other.value())
    }

    open spec fn div_spec(self, other: Wrapping<T>) -> T::Output {
        self.value().div_spec(other.value())
    }
}

/// The raw remainder of the stored value and a bare value, as `T` computes it.
/// Nothing is checked or put back into the range.
impl<T: Rem> Rem<T> for Wrapping<T> {
    type Output = T::Output;

    fn rem(self, other: T) -> (r: T::Output) {
        self.inner % other
    }
}

impl<T: Rem> RemSpecImpl<T> for Wrapping<T> {
    open spec fn obeys_rem_spec() -> bool {
        T::obeys_rem_spec()
    }

    open spec fn rem_req(self, other: T) -> bool {
        self.value().rem_req(other)
    }

    open spec fn rem_spec(self, other: T) -> T::Output {
        self.value().rem_spec(other)
    }
}

/// The raw remainder of the stored value and the value stored in another
/// instance, as `T` computes it. Nothing is checked or put back into the range.
impl<T: Rem> Rem<Wrapping<T>> for Wrapping<T> {
    type Output = T::Output;

    fn rem(self, other: Wrapping<T>) -> (r: T::Output) {
        self.inner % other.inner
    }
}

impl<T: Rem> RemSpecImpl<Wrapping<T>> for Wrapping<T> {
    open spec fn obeys_rem_spec() -> bool {
        T::obeys_rem_spec()
    }

    open spec fn rem_req(self, other: Wrapping<T>) -> bool {
        self.value().rem_req(other.value())
    }

    open spec fn rem_spec(self, other: Wrapping<T>) -> T::Output {
        self.value().rem_spec(other.value())
    }
}

/// Adds a bare value, as `T` computes it, and folds the result back between the
/// bounds.
impl<T> AddAssign<T> for Wrapping<T> where
    T: PartialOrd + Copy + Add<Output = T> + Rem<Output = T> + Sub<Output = T>,
{
    fn add_assign(&mut self, other: T)
        requires
            old(self).wf(),
            T::obeys_add_spec(),
            old(self).value().add_req(other),
            Self::can_fold(old(self).value().add_spec(other), old(self).lower(), old(self).upper()),
        ensures
            final(self).value() == Self::folded(
                old(self).value().add_spec(other),
                old(self).lower(),
                old(self).upper(),
            ),
            final(self).lower() == old(self).lower(),
            final(self).upper() == old(self).upper(),
            final(self).wf(),
    {
        *self = Wrapping::new(self.inner + other, self.min, self.max);
    }
}

/// Adds the value stored in another instance, as `T` computes it, and folds the
/// result back between the bounds.
impl<T> AddAssign<Wrapping<T>> for Wrapping<T> where
    T: PartialOrd + Copy + Add<Output = T> + Rem<Output = T> + Sub<Output = T>,
{
    fn add_assign(&mut self, other: Wrapping<T>)
        requires
            old(self).wf(),
            T::obeys_add_spec(),
            old(self).value().add_req(other.value()),
            Self::can_fold(
                old(self).value().add_spec(other.value()),
                old(self).lower(),
                old(self).upper(),
            ),
        ensures
            final(self).value() == Self::folded(
                old(self).value().add_spec(other.value()),
                old(self).lower(),
                old(self).upper(),
            ),
            final(self).lower() == old(self).lower(),
            final(self).upper() == old(self).upper(),
            final(self).wf(),
    {
        *self = Wrapping::new(self.inner + other.inner, self.min, self.max);
    }
}

/// Takes away a bare value, as `T` computes it, and folds the result back
/// between the bounds.
impl<T> SubAssign<T> for Wrapping<T> where
    T: PartialOrd + Copy + Add<Output = T> + Rem<Output = T> + Sub<Output = T>,
{
    fn sub_assign(&mut self, other: T)
        requires
            old(self).wf(),
            T::obeys_sub_spec(),
            old(self).value().sub_req(other),
            Self::can_fold(old(self).value().sub_spec(other), old(self).lower(), old(self).upper()),
        ensures
            final(self).value() == Self::folded(
                old(self).value().sub_spec(other),
                old(self).lower(),
                old(self).upper(),
            ),
            final(self).lower() == old(self).lower(),
            final(self).upper() == old(self).upper(),
            final(self).wf(),
    {
        *self = Wrapping::new(self.inner - other, self.min, self.max);
    }
}

/// Takes away the value stored in another instance, as `T` computes it, and
/// folds the result back between the bounds.
impl<T> SubAssign<Wrapping<T>> for Wrapping<T> where
    T: PartialOrd + Copy + Add<Output = T> + Rem<Output = T> + Sub<Output = T>,
{
    fn sub_assign(&mut self, other: Wrapping<T>)
        requires
            old(self).wf(),
            T::obeys_sub_spec(),
            old(self).value().sub_req(other.value()),
            Self::can_fold(
                old(self).value().sub_spec(other.value()),
                old(self).lower(),
                old(self).upper(),
            ),
        ensures
            final(self).value() == Self::folded(
                old(self).value().sub_spec(other.value()),
                old(self).lower(),
                old(self).upper(),
            ),
            final(self).lower() == old(self).lower(),
            final(self).upper() == old(self).upper(),
            final(self).wf(),
    {
        *self = Wrapping::new(self.inner - other.inner, self.min, self.max);
    }
}

/// Multiplies by a bare value, as `T` computes it, and folds the result back
/// between the bounds.
impl<T> MulAssign<T> for Wrapping<T> where
    T: PartialOrd + Copy + Add<Output = T> + Rem<Output = T> + Sub<Output = T> + Mul<Output = T>,
{
    fn mul_assign(&mut self, other: T)
        requires
            old(self).wf(),
            T::obeys_mul_spec(),
            old(self).value().mul_req(other),
            Self::can_fold(old(self).value().mul_spec(other), old(self).lower(), old(self).upper()),
        ensures
            final(self).value() == Self::folded(
                old(self).value().mul_spec(other),
                old(self).lower(),
                old(self).upper(),
            ),
            final(self).lower() == old(self).lower(),
            final(self).upper() == old(self).upper(),
            final(self).wf(),
    {
        *self = Wrapping::new(self.inner * other, self.min, self.max);
    }
}

/// Multiplies by the value stored in another instance, as `T` computes it, and
/// folds the result back between the bounds.
impl<T> MulAssign<Wrapping<T>> for Wrapping<T> where
    T: PartialOrd + Copy + Add<Output = T> + Rem<Output = T> + Sub<Output = T> + Mul<Output = T>,
{
    fn mul_assign(&mut self, other: Wrapping<T>)
        requires
            old(self).wf(),
            T::obeys_mul_spec(),
            old(self).value().mul_req(other.value()),
            Self::can_fold(
                old(self).value().mul_spec(other.value()),
                old(self).lower(),
                old(self).upper(),
            ),
        ensures
            final(self).value() == Self::folded(
                old(self).value().mul_spec(other.value()),
                old(self).lower(),
                old(self).upper(),
            ),
            final(self).lower() == old(self).lower(),
            final(self).upper() == old(self).upper(),
            final(self).wf(),
    {
        *self = Wrapping::new(self.inner * other.inner, self.min, self.max);
    }
}

/// Divides by a bare value, as `T` computes it, and folds the result back
/// between the bounds.
impl<T> DivAssign<T> for Wrapping<T> where
    T: PartialOrd + Copy + Add<Output = T> + Rem<Output = T> + Sub<Output = T> + Div<Output = T>,
{
    fn div_assign(&mut self, other: T)
        requires
            old(self).wf(),
            T::obeys_div_spec(),
            old(self).value().div_req(other),
            Self::can_fold(old(self).value().div_spec(other), old(self).lower(), old(self).upper()),
        ensures
            final(self).value() == Self::folded(
                old(self).value().div_spec(other),
                old(self).lower(),
                old(self).upper(),
            ),
            final(self).lower() == old(self).lower(),
            final(self).upper() == old(self).upper(),
            final(self).wf(),
    {
        *self = Wrapping::new(self.inner / other, self.min, self.max);
    }
}

/// Divides by the value stored in another instance, as `T` computes it, and
/// folds the result back between the bounds.
impl<T> DivAssign<Wrapping<T>> for Wrapping<T> where
    T: PartialOrd + Copy + Add<Output = T> + Rem<Output = T> + Sub<Output = T> + Div<Output = T>,
{
    fn div_assign(&mut self, other: Wrapping<T>)
        requires
            old(self).wf(),
            T::obeys_div_spec(),
            old(self).value().div_req(other.value()),
            Self::can_fold(
                old(self).value().div_spec(other.value()),
                old(self).lower(),
                old(self).upper(),
            ),
        ensures
            final(self).value() == Self::folded(
                old(self).value().div_spec(other.value()),
                old(self).lower(),
                old(self).upper(),
            ),
            final(self).lower() == old(self).lower(),
            final(self).upper() == old(self).upper(),
            final(self).wf(),
    {
        *self = Wrapping::new(self.inner / other.inner, self.min, self.max);
    }
}

/// Takes the remainder by a bare value, as `T` computes it, and folds the
/// result back between the bounds.
impl<T> RemAssign<T> for Wrapping<T> where
    T: PartialOrd + Copy + Add<Output = T> + Rem<Output = T> + Sub<Output = T>,
{
    fn rem_assign(&mut self, other: T)
        requires
            old(self).wf(),
            T::obeys_rem_spec(),
            old(self).value().rem_req(other),
            Self::can_fold(old(self).value().rem_spec(other), old(self).lower(), old(self).upper()),
        ensures
            final(self).value() == Self::folded(
                old(self).value().rem_spec(other),
                old(self).lower(),
                old(self).upper(),
            ),
            final(self).lower() == old(self).lower(),
            final(self).upper() == old(self).upper(),
            final(self).wf(),
    {
        *self = Wrapping::new(self.inner % other, self.min, self.max);
    }
}

/// Takes the remainder by the value stored in another instance, as `T` computes
/// it, and folds the result back between the bounds.
impl<T> RemAssign<Wrapping<T>> for Wrapping<T> where
    T: PartialOrd + Copy + Add<Output = T> + Rem<Output = T> + Sub<Output = T>,
{
    fn rem_assign(&mut self, other: Wrapping<T>)
        requires
            old(self).wf(),
            T::obeys_rem_spec(),
            old(self).value().rem_req(other.value()),
            Self::can_fold(
                old(self).value().rem_spec(other.value()),
                old(self).lower(),
                old(self).upper(),
            ),
        ensures
            final(self).value() == Self::folded(
                old(self).value().rem_spec(other.value()),
                old(self).lower(),
                old(self).upper(),
            ),
            final(self).lower() == old(self).lower(),
            final(self).upper() == old(self).upper(),
            final(self).wf(),
    {
        *self = Wrapping::new(self.inner % other.inner, self.min, self.max);
    }
}

/// Equal to a bare value exactly when `T` finds the stored values equal.
impl<T: PartialEq> PartialEq<T> for Wrapping<T> {
    fn eq(&self, other: &T) -> (r: bool) {
        self.inner == *other
    }
}

impl<T: PartialEq> PartialEqSpecImpl<T> for Wrapping<T> {
    open spec fn obeys_eq_spec() -> bool {
        T::obeys_eq_spec()
    }

    open spec fn eq_spec(&self, other: &T) -> bool {
        self.value().eq_spec(other)
    }
}

/// Equal to another instance exactly when `T` finds the stored values equal;
/// the bounds play no part.
impl<T: PartialEq> PartialEq<Wrapping<T>> for Wrapping<T> {
    fn eq(&self, other: &Wrapping<T>) -> (r: bool) {
        self.inner == other.inner
    }
}

impl<T: PartialEq> PartialEqSpecImpl<Wrapping<T>> for Wrapping<T> {
    open spec fn obeys_eq_spec() -> bool {
        T::obeys_eq_spec()
    }

    open spec fn eq_spec(&self, other: &Wrapping<T>) -> bool {
        self.value().eq_spec(&other.value())
    }
}

impl<T: Eq> Eq for Wrapping<T> {

}

/// On `u8` the folding can always be carried out, and it agrees with the
/// integer model.
pub proof fn lemma_folded_u8(inner: u8, min: u8, max: u8)
    requires
        min < max,
    ensures
        Wrapping::<u8>::can_fold(inner, min, max),
        Wrapping::<u8>::folded(inner, min, max) == wrap(inner as int, min as int, max as int),
{
    lemma_wrap_in_range(inner as int, min as int, max as int);
    if inner < min {
        lemma_wrap_from_below(inner as int, min as int, max as int);
    } else if inner < max {
        lemma_wrap_fixes_range(inner as int, min as int, max as int);
    }
}

/// On `u16` the folding can always be carried out, and it agrees with the
/// integer model.
pub proof fn lemma_folded_u16(inner: u16, min: u16, max: u16)
    requires
        min < max,
    ensures
        Wrapping::<u16>::can_fold(inner, min, max),
        Wrapping::<u16>::folded(inner, min, max) == wrap(inner as int, min as int, max as int),
{
    lemma_wrap_in_range(inner as int, min as int, max as int);
    if inner < min {
        lemma_wrap_from_below(inner as int, min as int, max as int);
    } else if inner < max {
        lemma_wrap_fixes_range(inner as int, min as int, max as int);
    }
}

/// On `u32` the folding can always be carried out, and it agrees with the
/// integer model.
pub proof fn lemma_folded_u32(inner: u32, min: u32, max: u32)
    requires
        min < max,
    ensures
        Wrapping::<u32>::can_fold(inner, min, max),
        Wrapping::<u32>::folded(inner, min, max) == wrap(inner as int, min as int, max as int),
{
    lemma_wrap_in_range(inner as int, min as int, max as int);
    if inner < min {
        lemma_wrap_from_below(inner as int, min as int, max as int);
    } else if inner < max {
        lemma_wrap_fixes_range(inner as int, min as int, max as int);
    }
}

/// On `u64` the folding can always be carried out, and it agrees with the
/// integer model.
pub proof fn lemma_folded_u64(inner: u64, min: u64, max: u64)
    requires
        min < max,
    ensures
        Wrapping::<u64>::can_fold(inner, min, max),
        Wrapping::<u64>::folded(inner, min, max) == wrap(inner as int, min as int, max as int),
{
    lemma_wrap_in_range(inner as int, min as int, max as int);
    if inner < min {
        lemma_wrap_from_below(inner as int, min as int, max as int);
    } else if inner < max {
        lemma_wrap_fixes_range(inner as int, min as int, max as int);
    }
}

/// On `u128` the folding can always be carried out, and it agrees with the
/// integer model.
pub proof fn lemma_folded_u128(inner: u128, min: u128, max: u128)
    requires
        min < max,
    ensures
        Wrapping::<u128>::can_fold(inner, min, max),
        Wrapping::<u128>::folded(inner, min, max) == wrap(inner as int, min as int, max as int),
{
    lemma_wrap_in_range(inner as int, min as int, max as int);
    if inner < min {
        lemma_wrap_from_below(inner as int, min as int, max as int);
    } else if inner < max {
        lemma_wrap_fixes_range(inner as int, min as int, max as int);
    }
}

/// On `usize` the folding can always be carried out, and it agrees with the
/// integer model.
pub proof fn lemma_folded_usize(inner: usize, min: usize, max: usize)
    requires
        min < max,
    ensures
        Wrapping::<usize>::can_fold(inner, min, max),
        Wrapping::<usize>::folded(inner, min, max) == wrap(inner as int, min as int, max as int),
{
    lemma_wrap_in_range(inner as int, min as int, max as int);
    if inner < min {
        lemma_wrap_from_below(inner as int, min as int, max as int);
    } else if inner < max {
        lemma_wrap_fixes_range(inner as int, min as int, max as int);
    }
}

/// On `i8` the folding agrees with the integer model, and it can be
/// carried out exactly when none of the differences it takes overflows.
pub proof fn lemma_folded_i8(inner: i8, min: i8, max: i8)
    requires
        min < max,
    ensures
        Wrapping::<i8>::can_fold(inner, min, max) <==> {
            &&& inner >= max ==> max - min <= i8::MAX && inner - min <= i8::MAX
            &&& inner < min ==> max - min <= i8::MAX && min - inner <= i8::MAX
        },
        Wrapping::<i8>::can_fold(
            inner,
            min,
            max,
        ) ==> Wrapping::<i8>::folded(inner, min, max) == wrap(inner as int, min as int, max as int),
{
    lemma_wrap_in_range(inner as int, min as int, max as int);
    if inner < min {
        lemma_wrap_from_below(inner as int, min as int, max as int);
    } else if inner < max {
        lemma_wrap_fixes_range(inner as int, min as int, max as int);
    }
}

/// On `i16` the folding agrees with the integer model, and it can be
/// carried out exactly when none of the differences it takes overflows.
pub proof fn lemma_folded_i16(inner: i16, min: i16, max: i16)
    requires
        min < max,
    ensures
        Wrapping::<i16>::can_fold(inner, min, max) <==> {
            &&& inner >= max ==> max - min <= i16::MAX && inner - min <= i16::MAX
            &&& inner < min ==> max - min <= i16::MAX && min - inner <= i16::MAX
        },
        Wrapping::<i16>::can_fold(
            inner,
            min,
            max,
        )
            ==> Wrapping::<i16>::folded(
                inner,
                min,
                max,
            ) == wrap(inner as int, min as int, max as int),
{
    lemma_wrap_in_range(inner as int, min as int, max as int);
    if inner < min {
        lemma_wrap_from_below(inner as int, min as int, max as int);
    } else if inner < max {
        lemma_wrap_fixes_range(inner as int, min as int, max as int);
    }
}

/// On `i32` the folding agrees with the integer model, and it can be
/// carried out exactly when none of the differences it takes overflows.
pub proof fn lemma_folded_i32(inner: i32, min: i32, max: i32)
    requires
        min < max,
    ensures
        Wrapping::<i32>::can_fold(inner, min, max) <==> {
            &&& inner >= max ==> max - min <= i32::MAX && inner - min <= i32::MAX
            &&& inner < min ==> max - min <= i32::MAX && min - inner <= i32::MAX
        },
        Wrapping::<i32>::can_fold(
            inner,
            min,
            max,
        )
            ==> Wrapping::<i32>::folded(
                inner,
                min,
                max,
            ) == wrap(inner as int, min as int, max as int),
{
    lemma_wrap_in_range(inner as int, min as int, max as int);
    if inner < min {
        lemma_wrap_from_below(inner as int, min as int, max as int);
    } else if inner < max {
        lemma_wrap_fixes_range(inner as int, min as int, max as int);
    }
}

/// On `i64` the folding agrees with the integer model, and it can be
/// carried out exactly when none of the differences it takes overflows.
pub proof fn lemma_folded_i64(inner: i64, min: i64, max: i64)
    requires
        min < max,
    ensures
        Wrapping::<i64>::can_fold(inner, min, max) <==> {
            &&& inner >= max ==> max - min <= i64::MAX && inner - min <= i64::MAX
            &&& inner < min ==> max - min <= i64::MAX && min - inner <= i64::MAX
        },
        Wrapping::<i64>::can_fold(
            inner,
            min,
            max,
        )
            ==> Wrapping::<i64>::folded(
                inner,
                min,
                max,
            ) == wrap(inner as int, min as int, max as int),
{
    lemma_wrap_in_range(inner as int, min as int, max as int);
    if inner < min {
        lemma_wrap_from_below(inner as int, min as int, max as int);
    } else if inner < max {
        lemma_wrap_fixes_range(inner as int, min as int, max as int);
    }
}

/// On `i128` the folding agrees with the integer model, and it can be
/// carried out exactly when none of the differences it takes overflows.
pub proof fn lemma_folded_i128(inner: i128, min: i128, max: i128)
    requires
        min < max,
    ensures
        Wrapping::<i128>::can_fold(inner, min, max) <==> {
            &&& inner >= max ==> max - min <= i128::MAX && inner - min <= i128::MAX
            &&& inner < min ==> max - min <= i128::MAX && min - inner <= i128::MAX
        },
        Wrapping::<i128>::can_fold(
            inner,
            min,
            max,
        )
            ==> Wrapping::<i128>::folded(
                inner,
                min,
                max,
            ) == wrap(inner as int, min as int, max as int),
{
    lemma_wrap_in_range(inner as int, min as int, max as int);
    if inner < min {
        lemma_wrap_from_below(inner as int, min as int, max as int);
    } else if inner < max {
        lemma_wrap_fixes_range(inner as int, min as int, max as int);
    }
}

/// On `isize` the folding agrees with the integer model, and it can be
/// carried out exactly when none of the differences it takes overflows.
pub proof fn lemma_folded_isize(inner: isize, min: isize, max: isize)
    requires
        min < max,
    ensures
        Wrapping::<isize>::can_fold(inner, min, max) <==> {
            &&& inner >= max ==> max - min <= isize::MAX && inner - min <= isize::MAX
            &&& inner < min ==> max - min <= isize::MAX && min - inner <= isize::MAX
        },
        Wrapping::<isize>::can_fold(
            inner,
            min,
            max,
        )
            ==> Wrapping::<isize>::folded(
                inner,
                min,
                max,
            ) == wrap(inner as int, min as int, max as int),
{
    lemma_wrap_in_range(inner as int, min as int, max as int);
    if inner < min {
        lemma_wrap_from_below(inner as int, min as int, max as int);
    } else if inner < max {
        lemma_wrap_fixes_range(inner as int, min as int, max as int);
    }
}

} // verus!
