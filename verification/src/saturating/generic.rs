//! A number of any ordered type that is pinned inside bounds stored with it.
use core::fmt::Debug;
use core::ops::Add;
use core::ops::AddAssign;
use core::ops::Div;
use core::ops::DivAssign;
use core::ops::Mul;
use core::ops::MulAssign;
use core::ops::Rem;
use core::ops::RemAssign;
use core::ops::Sub;
use core::ops::SubAssign;
use crate::model::clamp;
use crate::text::describe;
use crate::text::layout;
use vstd::prelude::*;
use vstd::std_specs::cmp::PartialEqSpec;
use vstd::std_specs::cmp::PartialEqSpecImpl;
use vstd::std_specs::cmp::PartialOrdIs;
use vstd::std_specs::cmp::PartialOrdSpec;
use vstd::std_specs::ops::AddSpec;
use vstd::std_specs::ops::AddSpecImpl;
use vstd::std_specs::ops::DivSpec;
use vstd::std_specs::ops::DivSpecImpl;
use vstd::std_specs::ops::MulSpec;
use vstd::std_specs::ops::MulSpecImpl;
use vstd::std_specs::ops::RemSpec;
use vstd::std_specs::ops::RemSpecImpl;
use vstd::std_specs::ops::SubSpec;
use vstd::std_specs::ops::SubSpecImpl;

verus! {

/// A value kept between `min` and `max` by pinning it to the nearest
/// bound.
///
/// The plain operators hand back the raw result of the underlying
/// operator; the assigning operators pin their result back into the
/// range.
#[derive(Debug, Clone, Copy)]
pub struct Saturating<T> {
    inner: T,
    min: T,
    max: T,
}

impl<T> Saturating<T> {
    /// The stored value.
    pub closed spec fn value(self) -> T {
        self.inner
    }

    /// The lower bound.
    pub closed spec fn lower(self) -> T {
        self.min
    }

    /// The upper bound.
    pub closed spec fn upper(self) -> T {
        self.max
    }

    /// The stored value.
    pub fn inner(&self) -> (r: &T)
        ensures
            *r == self.value(),
    {
        &self.inner
    }

    /// Gives up the bounds and hands out the stored value.
    pub fn into_inner(self) -> (r: T)
        ensures
            r == self.value(),
    {
        self.inner
    }
}

impl<T: Debug> Saturating<T> {
    /// The value and its bounds as text, each written as `T` writes
    /// itself for debugging, laid out under the name of the type.
    pub fn debug_string(&self) -> (r: String)
        ensures
            exists|a: Seq<char>, b: Seq<char>, c: Seq<char>| r@ == layout("Saturating"@, a, b, c),
    {
        describe("Saturating", &self.inner, &self.min, &self.max)
    }
}

impl<T: PartialOrd> Saturating<T> {
    /// The bounds are in order: the lower one is less than the upper one.
    pub open spec fn wf(self) -> bool {
        self.lower().is_lt(&self.upper())
    }
}

impl<T: PartialOrd + Copy + Add<Output = T> + Rem<Output = T> + Sub<Output = T>> Saturating<T> {
    /// What pinning `inner` between `min` and `max` gives, read off the
    /// order of `T`: whatever is at or above `max` becomes `max`, and
    /// whatever is below `min` becomes `min`.
    pub open spec fn pinned(inner: T, min: T, max: T) -> T {
        if inner.is_ge(&max) {
            max
        } else if inner.is_lt(&min) {
            min
        } else {
            inner
        }
    }

    /// Pins `inner` between `min` and `max`.
    pub fn new(inner: T, min: T, max: T) -> (r: Self)
        requires
            min.is_lt(&max),
        ensures
            T::obeys_partial_cmp_spec() ==> r.value() == Self::pinned(inner, min, max),
            r.value() == inner || r.value() == min || r.value() == max,
            r.lower() == min,
            r.upper() == max,
            r.wf(),
    {
        if inner >= max {
            Self { inner: max, min, max }
        } else if inner < min {
            Self { inner: min, min, max }
        } else {
            Self { inner, min, max }
        }
    }
}

/// The raw sum of the stored value and a bare value, as `T` computes it.
/// Nothing is checked or put back into the range.
impl<T: Add> Add<T> for Saturating<T> {
    type Output = T::Output;

    fn add(self, other: T) -> (r: T::Output) {
        self.inner + other
    }
}

impl<T: Add> AddSpecImpl<T> for Saturating<T> {
    open spec fn obeys_add_spec() -> bool {
        T::obeys_add_spec()
    }

    open spec fn add_req(self, other: T) -> bool {
        self.value().add_req(other)
    }

    open spec fn add_spec(self, other: T) -> T::Output {
        self.value().add_spec(other)
    }
}

/// The raw sum of the stored value and the value stored in another instance, as
/// `T` computes it. Nothing is checked or put back into the range.
impl<T: Add> Add<Saturating<T>> for Saturating<T> {
    type Output = T::Output;

    fn add(self, other: Saturating<T>) -> (r: T::Output) {
        self.inner + other.inner
    }
}

impl<T: Add> AddSpecImpl<Saturating<T>> for Saturating<T> {
    open spec fn obeys_add_spec() -> bool {
        T::obeys_add_spec()
    }

    open spec fn add_req(self, other: Saturating<T>) -> bool {
        self.value().add_req(other.value())
    }

    open spec fn add_spec(self, other: Saturating<T>) -> T::Output {
        self.value().add_spec(other.value())
    }
}

/// The raw difference of the stored value and a bare value, as `T` computes it.
/// Nothing is checked or put back into the range.
impl<T: Sub> Sub<T> for Saturating<T> {
    type Output = T::Output;

    fn sub(self, other: T) -> (r: T::Output) {
        self.inner - other
    }
}

impl<T: Sub> SubSpecImpl<T> for Saturating<T> {
    open spec fn obeys_sub_spec() -> bool {
        T::obeys_sub_spec()
    }

    open spec fn sub_req(self, other: T) -> bool {
        self.value().sub_req(other)
    }

    open spec fn sub_spec(self, other: T) -> T::Output {
        self.value().sub_spec(other)
    }
}

/// The raw difference of the stored value and the value stored in another
/// instance, as `T` computes it. Nothing is checked or put back into the range.
impl<T: Sub> Sub<Saturating<T>> for Saturating<T> {
    type Output = T::Output;

    fn sub(self, other: Saturating<T>) -> (r: T::Output) {
        self.inner - other.inner
    }
}

impl<T: Sub> SubSpecImpl<Saturating<T>> for Saturating<T> {
    open spec fn obeys_sub_spec() -> bool {
        T::obeys_sub_spec()
    }

    open spec fn sub_req(self, other: Saturating<T>) -> bool {
        self.value().sub_req(other.value())
    }

    open spec fn sub_spec(self, other: Saturating<T>) -> T::Output {
        self.value().sub_spec(other.value())
    }
}

/// The raw product of the stored value and a bare value, as `T` computes it.
/// Nothing is checked or put back into the range.
impl<T: Mul> Mul<T> for Saturating<T> {
    type Output = T::Output;

    fn mul(self, other: T) -> (r: T::Output) {
        self.inner * other
    }
}

impl<T: Mul> MulSpecImpl<T> for Saturating<T> {
    open spec fn obeys_mul_spec() -> bool {
        T::obeys_mul_spec()
    }

    open spec fn mul_req(self, other: T) -> bool {
        self.value().mul_req(other)
    }

    open spec fn mul_spec(self, other: T) -> T::Output {
        self.value().mul_spec(other)
    }
}

/// The raw product of the stored value and the value stored in another
/// instance, as `T` computes it. Nothing is checked or put back into the range.
impl<T: Mul> Mul<Saturating<T>> for Saturating<T> {
    type Output = T::Output;

    fn mul(self, other: Saturating<T>) -> (r: T::Output) {
        self.inner * other.inner
    }
}

impl<T: Mul> MulSpecImpl<Saturating<T>> for Saturating<T> {
    open spec fn obeys_mul_spec() -> bool {
        T::obeys_mul_spec()
    }

    open spec fn mul_req(self, other: Saturating<T>) -> bool {
        self.value().mul_req(other.value())
    }

    open spec fn mul_spec(self, other: Saturating<T>) -> T::Output {
        self.value().mul_spec(other.value())
    }
}

/// The raw quotient of the stored value and a bare value, as `T` computes it.
/// Nothing is checked or put back into the range.
impl<T: Div> Div<T> for Saturating<T> {
    type Output = T::Output;

    fn div(self, other: T) -> (r: T::Output) {
        self.inner / other
    }
}

impl<T: Div> DivSpecImpl<T> for Saturating<T> {
    open spec fn obeys_div_spec() -> bool {
        T::obeys_div_spec()
    }

    open spec fn div_req(self, other: T) -> bool {
        self.value().div_req(other)
    }

    open spec fn div_spec(self, other: T) -> T::Output {
        self.value().div_spec(other)
    }
}

/// The raw quotient of the stored value and the value stored in another
/// instance, as `T` computes it. Nothing is checked or put back into the range.
impl<T: Div> Div<Saturating<T>> for Saturating<T> {
    type Output = T::Output;

    fn div(self, other: Saturating<T>) -> (r: T::Output) {
        self.inner / other.inner
    }
}

impl<T: Div> DivSpecImpl<Saturating<T>> for Saturating<T> {
    open spec fn obeys_div_spec() -> bool {
        T::obeys_div_spec()
    }

    open spec fn div_req(self, other: Saturating<T>) -> bool {
        self.value().div_req(other.value())
    }

    open spec fn div_spec(self, other: Saturating<T>) -> T::Output {
        self.value().div_spec(other.value())
    }
}

/// The raw remainder of the stored value and a bare value, as `T` computes it.
/// Nothing is checked or put back into the range.
impl<T: Rem> Rem<T> for Saturating<T> {
    type Output = T::Output;

    fn rem(self, other: T) -> (r: T::Output) {
        self.inner % other
    }
}

impl<T: Rem> RemSpecImpl<T> for Saturating<T> {
    open spec fn obeys_rem_spec() -> bool {
        T::obeys_rem_spec()
    }

    open spec fn rem_req(self, other: T) -> bool {
        self.value().rem_req(other)
    }

    open spec fn rem_spec(self, other: T) -> T::Output {
        self.value().rem_spec(other)
    }
}

/// The raw remainder of the stored value and the value stored in another
/// instance, as `T` computes it. Nothing is checked or put back into the range.
impl<T: Rem> Rem<Saturating<T>> for Saturating<T> {
    type Output = T::Output;

    fn rem(self, other: Saturating<T>) -> (r: T::Output) {
        self.inner % other.inner
    }
}

impl<T: Rem> RemSpecImpl<Saturating<T>> for Saturating<T> {
    open spec fn obeys_rem_spec() -> bool {
        T::obeys_rem_spec()
    }

    open spec fn rem_req(self, other: Saturating<T>) -> bool {
        self.value().rem_req(other.value())
    }

    open spec fn rem_spec(self, other: Saturating<T>) -> T::Output {
        self.value().rem_spec(other.value())
    }
}

/// Adds a bare value, as `T` computes it, and pins the result back between the
/// bounds.
impl<T> AddAssign<T> for Saturating<T> where
    T: PartialOrd + Copy + Add<Output = T> + Rem<Output = T> + Sub<Output = T>,
{
    fn add_assign(&mut self, other: T)
        requires
            old(self).wf(),
            old(self).value().add_req(other),
        ensures
            T::obeys_partial_cmp_spec() && T::obeys_add_spec()
                ==> final(self).value() == Self::pinned(
                    old(self).value().add_spec(other),
                    old(self).lower(),
                    old(self).upper(),
                ),
            final(self).lower() == old(self).lower(),
            final(self).upper() == old(self).upper(),
            final(self).wf(),
    {
        *self = Saturating::new(self.inner + other, self.min, self.max);
    }
}

/// Adds the value stored in another instance, as `T` computes it, and pins the
/// result back between the bounds.
impl<T> AddAssign<Saturating<T>> for Saturating<T> where
    T: PartialOrd + Copy + Add<Output = T> + Rem<Output = T> + Sub<Output = T>,
{
    fn add_assign(&mut self, other: Saturating<T>)
        requires
            old(self).wf(),
            old(self).value().add_req(other.value()),
        ensures
            T::obeys_partial_cmp_spec() && T::obeys_add_spec()
                ==> final(self).value() == Self::pinned(
                    old(self).value().add_spec(other.value()),
                    old(self).lower(),
                    old(self).upper(),
                ),
            final(self).lower() == old(self).lower(),
            final(self).upper() == old(self).upper(),
            final(self).wf(),
    {
        *self = Saturating::new(self.inner + other.inner, self.min, self.max);
    }
}

/// Takes away a bare value, as `T` computes it, and pins the result back
/// between the bounds.
impl<T> SubAssign<T> for Saturating<T> where
    T: PartialOrd + Copy + Add<Output = T> + Rem<Output = T> + Sub<Output = T>,
{
    fn sub_assign(&mut self, other: T)
        requires
            old(self).wf(),
            old(self).value().sub_req(other),
        ensures
            T::obeys_partial_cmp_spec() && T::obeys_sub_spec()
                ==> final(self).value() == Self::pinned(
                    old(self).value().sub_spec(other),
                    old(self).lower(),
                    old(self).upper(),
                ),
            final(self).lower() == old(self).lower(),
            final(self).upper() == old(self).upper(),
            final(self).wf(),
    {
        *self = Saturating::new(self.inner - other, self.min, self.max);
    }
}

/// Takes away the value stored in another instance, as `T` computes it, and
/// pins the result back between the bounds.
impl<T> SubAssign<Saturating<T>> for Saturating<T> where
    T: PartialOrd + Copy + Add<Output = T> + Rem<Output = T> + Sub<Output = T>,
{
    fn sub_assign(&mut self, other: Saturating<T>)
        requires
            old(self).wf(),
            old(self).value().sub_req(other.value()),
        ensures
            T::obeys_partial_cmp_spec() && T::obeys_sub_spec()
                ==> final(self).value() == Self::pinned(
                    old(self).value().sub_spec(other.value()),
                    old(self).lower(),
                    old(self).upper(),
                ),
            final(self).lower() == old(self).lower(),
            final(self).upper() == old(self).upper(),
            final(self).wf(),
    {
        *self = Saturating::new(self.inner - other.inner, self.min, self.max);
    }
}

/// Multiplies by a bare value, as `T` computes it, and pins the result back
/// between the bounds.
impl<T> MulAssign<T> for Saturating<T> where
    T: PartialOrd + Copy + Add<Output = T> + Rem<Output = T> + Sub<Output = T> + Mul<Output = T>,
{
    fn mul_assign(&mut self, other: T)
        requires
            old(self).wf(),
            old(self).value().mul_req(other),
        ensures
            T::obeys_partial_cmp_spec() && T::obeys_mul_spec()
                ==> final(self).value() == Self::pinned(
                    old(self).value().mul_spec(other),
                    old(self).lower(),
                    old(self).upper(),
                ),
            final(self).lower() == old(self).lower(),
            final(self).upper() == old(self).upper(),
            final(self).wf(),
    {
        *self = Saturating::new(self.inner * other, self.min, self.max);
    }
}

/// Multiplies by the value stored in another instance, as `T` computes it, and
/// pins the result back between the bounds.
impl<T> MulAssign<Saturating<T>> for Saturating<T> where
    T: PartialOrd + Copy + Add<Output = T> + Rem<Output = T> + Sub<Output = T> + Mul<Output = T>,
{
    fn mul_assign(&mut self, other: Saturating<T>)
        requires
            old(self).wf(),
            old(self).value().mul_req(other.value()),
        ensures
            T::obeys_partial_cmp_spec() && T::obeys_mul_spec()
                ==> final(self).value() == Self::pinned(
                    old(self).value().mul_spec(other.value()),
                    old(self).lower(),
                    old(self).upper(),
                ),
            final(self).lower() == old(self).lower(),
            final(self).upper() == old(self).upper(),
            final(self).wf(),
    {
        *self = Saturating::new(self.inner * other.inner, self.min, self.max);
    }
}

/// Divides by a bare value, as `T` computes it, and pins the result back
/// between the bounds.
impl<T> DivAssign<T> for Saturating<T> where
    T: PartialOrd + Copy + Add<Output = T> + Rem<Output = T> + Sub<Output = T> + Div<Output = T>,
{
    fn div_assign(&mut self, other: T)
        requires
            old(self).wf(),
            old(self).value().div_req(other),
        ensures
            T::obeys_partial_cmp_spec() && T::obeys_div_spec()
                ==> final(self).value() == Self::pinned(
                    old(self).value().div_spec(other),
                    old(self).lower(),
                    old(self).upper(),
                ),
            final(self).lower() == old(self).lower(),
            final(self).upper() == old(self).upper(),
            final(self).wf(),
    {
        *self = Saturating::new(self.inner / other, self.min, self.max);
    }
}

/// Divides by the value stored in another instance, as `T` computes it, and
/// pins the result back between the bounds.
impl<T> DivAssign<Saturating<T>> for Saturating<T> where
    T: PartialOrd + Copy + Add<Output = T> + Rem<Output = T> + Sub<Output = T> + Div<Output = T>,
{
    fn div_assign(&mut self, other: Saturating<T>)
        requires
            old(self).wf(),
            old(self).value().div_req(other.value()),
        ensures
            T::obeys_partial_cmp_spec() && T::obeys_div_spec()
                ==> final(self).value() == Self::pinned(
                    old(self).value().div_spec(other.value()),
                    old(self).lower(),
                    old(self).upper(),
                ),
            final(self).lower() == old(self).lower(),
            final(self).upper() == old(self).upper(),
            final(self).wf(),
    {
        *self = Saturating::new(self.inner / other.inner, self.min, self.max);
    }
}

/// Takes the remainder by a bare value, as `T` computes it, and pins the result
/// back between the bounds.
impl<T> RemAssign<T> for Saturating<T> where
    T: PartialOrd + Copy + Add<Output = T> + Rem<Output = T> + Sub<Output = T>,
{
    fn rem_assign(&mut self, other: T)
        requires
            old(self).wf(),
            old(self).value().rem_req(other),
        ensures
            T::obeys_partial_cmp_spec() && T::obeys_rem_spec()
                ==> final(self).value() == Self::pinned(
                    old(self).value().rem_spec(other),
                    old(self).lower(),
                    old(self).upper(),
                ),
            final(self).lower() == old(self).lower(),
            final(self).upper() == old(self).upper(),
            final(self).wf(),
    {
        *self = Saturating::new(self.inner % other, self.min, self.max);
    }
}

/// Takes the remainder by the value stored in another instance, as `T` computes
/// it, and pins the result back between the bounds.
impl<T> RemAssign<Saturating<T>> for Saturating<T> where
    T: PartialOrd + Copy + Add<Output = T> + Rem<Output = T> + Sub<Output = T>,
{
    fn rem_assign(&mut self, other: Saturating<T>)
        requires
            old(self).wf(),
            old(self).value().rem_req(other.value()),
        ensures
            T::obeys_partial_cmp_spec() && T::obeys_rem_spec()
                ==> final(self).value() == Self::pinned(
                    old(self).value().rem_spec(other.value()),
                    old(self).lower(),
                    old(self).upper(),
                ),
            final(self).lower() == old(self).lower(),
            final(self).upper() == old(self).upper(),
            final(self).wf(),
    {
        *self = Saturating::new(self.inner % other.inner, self.min, self.max);
    }
}

/// Equal to a bare value exactly when `T` finds the stored values equal.
impl<T: PartialEq> PartialEq<T> for Saturating<T> {
    fn eq(&self, other: &T) -> (r: bool) {
        self.inner == *other
    }
}

impl<T: PartialEq> PartialEqSpecImpl<T> for Saturating<T> {
    open spec fn obeys_eq_spec() -> bool {
        T::obeys_eq_spec()
    }

    open spec fn eq_spec(&self, other: &T) -> bool {
        self.value().eq_spec(other)
    }
}

/// Equal to another instance exactly when `T` finds the stored values equal;
/// the bounds play no part.
impl<T: PartialEq> PartialEq<Saturating<T>> for Saturating<T> {
    fn eq(&self, other: &Saturating<T>) -> (r: bool) {
        self.inner == other.inner
    }
}

impl<T: PartialEq> PartialEqSpecImpl<Saturating<T>> for Saturating<T> {
    open spec fn obeys_eq_spec() -> bool {
        T::obeys_eq_spec()
    }

    open spec fn eq_spec(&self, other: &Saturating<T>) -> bool {
        self.value().eq_spec(&other.value())
    }
}

impl<T: Eq> Eq for Saturating<T> {

}

/// On `u8` the pinning agrees with the integer model.
pub proof fn lemma_pinned_u8(inner: u8, min: u8, max: u8)
    ensures
        Saturating::<u8>::pinned(inner, min, max) == clamp(inner as int, min as int, max as int),
{
}

/// On `u16` the pinning agrees with the integer model.
pub proof fn lemma_pinned_u16(inner: u16, min: u16, max: u16)
    ensures
        Saturating::<u16>::pinned(inner, min, max) == clamp(inner as int, min as int, max as int),
{
}

/// On `u32` the pinning agrees with the integer model.
pub proof fn lemma_pinned_u32(inner: u32, min: u32, max: u32)
    ensures
        Saturating::<u32>::pinned(inner, min, max) == clamp(inner as int, min as int, max as int),
{
}

/// On `u64` the pinning agrees with the integer model.
pub proof fn lemma_pinned_u64(inner: u64, min: u64, max: u64)
    ensures
        Saturating::<u64>::pinned(inner, min, max) == clamp(inner as int, min as int, max as int),
{
}

/// On `u128` the pinning agrees with the integer model.
pub proof fn lemma_pinned_u128(inner: u128, min: u128, max: u128)
    ensures
        Saturating::<u128>::pinned(inner, min, max) == clamp(inner as int, min as int, max as int),
{
}

/// On `usize` the pinning agrees with the integer model.
pub proof fn lemma_pinned_usize(inner: usize, min: usize, max: usize)
    ensures
        Saturating::<usize>::pinned(inner, min, max) == clamp(inner as int, min as int, max as int),
{
}

/// On `i8` the pinning agrees with the integer model.
pub proof fn lemma_pinned_i8(inner: i8, min: i8, max: i8)
    ensures
        Saturating::<i8>::pinned(inner, min, max) == clamp(inner as int, min as int, max as int),
{
}

/// On `i16` the pinning agrees with the integer model.
pub proof fn lemma_pinned_i16(inner: i16, min: i16, max: i16)
    ensures
        Saturating::<i16>::pinned(inner, min, max) == clamp(inner as int, min as int, max as int),
{
}

/// On `i32` the pinning agrees with the integer model.
pub proof fn lemma_pinned_i32(inner: i32, min: i32, max: i32)
    ensures
        Saturating::<i32>::pinned(inner, min, max) == clamp(inner as int, min as int, max as int),
{
}

/// On `i64` the pinning agrees with the integer model.
pub proof fn lemma_pinned_i64(inner: i64, min: i64, max: i64)
    ensures
        Saturating::<i64>::pinned(inner, min, max) == clamp(inner as int, min as int, max as int),
{
}

/// On `i128` the pinning agrees with the integer model.
pub proof fn lemma_pinned_i128(inner: i128, min: i128, max: i128)
    ensures
        Saturating::<i128>::pinned(inner, min, max) == clamp(inner as int, min as int, max as int),
{
}

/// On `isize` the pinning agrees with the integer model.
pub proof fn lemma_pinned_isize(inner: isize, min: isize, max: isize)
    ensures
        Saturating::<isize>::pinned(inner, min, max) == clamp(inner as int, min as int, max as int),
{
}

} // verus!
