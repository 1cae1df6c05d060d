//! A number of any ordered type that cannot be made outside bounds stored
//! with it.
use core::cmp::Ordering;
use core::fmt::Debug;
use core::ops::Add;
use core::ops::Div;
use core::ops::Mul;
use core::ops::Rem;
use core::ops::Sub;
use crate::bounded::BoundsError;
use crate::bounded::rejection;
use crate::text::describe;
use crate::text::layout;
use vstd::prelude::*;
use vstd::std_specs::cmp::PartialEqSpec;
use vstd::std_specs::cmp::PartialEqSpecImpl;
use vstd::std_specs::cmp::PartialOrdIs;
use vstd::std_specs::cmp::PartialOrdSpec;
use vstd::std_specs::cmp::PartialOrdSpecImpl;
use vstd::std_specs::ops::AddSpec;
use vstd::std_specs::ops::AddSpecImpl;
use vstd::std_specs::ops::DivSpec;
use vstd::std_specs::ops::DivSpecImpl;
use vstd::std_specs::ops::MulSpec;
use vstd::std_specs::ops::MulSpecImpl;
use vstd::std_specs::ops::RemSpec;
use vstd::std_specs::ops::RemSpecImpl;
use vstd::std_specs::ops::SubSpec;
use vstd::std_specs::ops::SubSpecImpl;

verus! {

/// A value known to lie between `min` and `max`.
///
/// The bounds are checked once, when the value is made. The operators
/// hand back the raw result of the underlying operator and check nothing.
#[derive(Debug, Clone, Copy)]
pub struct Bounded<T> {
    inner: T,
    min: T,
    max: T,
}

impl<T> Bounded<T> {
    /// The stored value.
    pub closed spec fn value(self) -> T {
        self.inner
    }

    /// The lower bound.
    pub closed spec fn lower(self) -> T {
        self.min
    }

    /// The upper bound.
    pub closed spec fn upper(self) -> T {
        self.max
    }

    /// The stored value.
    pub fn inner(&self) -> (r: &T)
        ensures
            *r == self.value(),
    {
        &self.inner
    }

    /// Gives up the bounds and hands out the stored value.
    pub fn into_inner(self) -> (r: T)
        ensures
            r == self.value(),
    {
        self.inner
    }
}

impl<T: Debug> Bounded<T> {
    /// The value and its bounds as text, each written as `T` writes
    /// itself for debugging, laid out under the name of the type.
    pub fn debug_string(&self) -> (r: String)
        ensures
            exists|a: Seq<char>, b: Seq<char>, c: Seq<char>| r@ == layout("Bounded"@, a, b, c),
    {
        describe("Bounded", &self.inner, &self.min, &self.max)
    }
}

impl<T: PartialOrd> Bounded<T> {
    /// The bounds are in order: the lower one is less than the upper one.
    pub open spec fn wf(self) -> bool {
        self.lower().is_lt(&self.upper())
    }
}

impl<T: PartialOrd + Clone + Add<Output = T> + Rem<Output = T> + Sub<Output = T>> Bounded<T> {
    /// Why `inner` cannot be stored between `min` and `max`, if it
    /// cannot, read off the order of `T`: it is too large if it is at or
    /// above `max`, and too small if it is below `min`.
    pub open spec fn refusal(inner: T, min: T, max: T) -> Option<BoundsError> {
        if inner.is_ge(&max) {
            Some(BoundsError::TooLarge)
        } else if inner.is_lt(&min) {
            Some(BoundsError::TooSmall)
        } else {
            None
        }
    }

    /// Accepts `inner` unchanged if nothing speaks against it, and says on
    /// which side it falls out otherwise.
    pub fn new(inner: T, min: T, max: T) -> (r: Result<Self, BoundsError>)
        requires
            min.is_lt(&max),
        ensures
            T::obeys_partial_cmp_spec() ==> match r {
                Ok(_) => Self::refusal(inner, min, max) is None,
                Err(e) => Self::refusal(inner, min, max) == Some(e),
            },
            match r {
                Ok(b) => b.value() == inner && b.lower() == min && b.upper() == max && b.wf(),
                Err(_) => true,
            },
    {
        if inner >= max {
            Err(BoundsError::TooLarge)
        } else if inner < min {
            Err(BoundsError::TooSmall)
        } else {
            Ok(Self { inner, min, max })
        }
    }
}

/// The raw sum of the stored value and a bare value, as `T` computes it.
/// Nothing is checked or put back into the range.
impl<T: Add> Add<T> for Bounded<T> {
    type Output = T::Output;

    fn add(self, other: T) -> (r: T::Output) {
        self.inner + other
    }
}

impl<T: Add> AddSpecImpl<T> for Bounded<T> {
    open spec fn obeys_add_spec() -> bool {
        T::obeys_add_spec()
    }

    open spec fn add_req(self, other: T) -> bool {
        self.value().add_req(other)
    }

    open spec fn add_spec(self, other: T) -> T::Output {
        self.value().add_spec(other)
    }
}

/// The raw sum of the stored value and the value stored in another instance, as
/// `T` computes it. Nothing is checked or put back into the range.
impl<T: Add> Add<Bounded<T>> for Bounded<T> {
    type Output = T::Output;

    fn add(self, other: Bounded<T>) -> (r: T::Output) {
        self.inner + other.inner
    }
}

impl<T: Add> AddSpecImpl<Bounded<T>> for Bounded<T> {
    open spec fn obeys_add_spec() -> bool {
        T::obeys_add_spec()
    }

    open spec fn add_req(self, other: Bounded<T>) -> bool {
        self.value().add_req(other.value())
    }

    open spec fn add_spec(self, other: Bounded<T>) -> T::Output {
        self.value().add_spec(other.value())
    }
}

/// The raw difference of the stored value and a bare value, as `T` computes it.
/// Nothing is checked or put back into the range.
impl<T: Sub> Sub<T> for Bounded<T> {
    type Output = T::Output;

    fn sub(self, other: T) -> (r: T::Output) {
        self.inner - other
    }
}

impl<T: Sub> SubSpecImpl<T> for Bounded<T> {
    open spec fn obeys_sub_spec() -> bool {
        T::obeys_sub_spec()
    }

    open spec fn sub_req(self, other: T) -> bool {
        self.value().sub_req(other)
    }

    open spec fn sub_spec(self, other: T) -> T::Output {
        self.value().sub_spec(other)
    }
}

/// The raw difference of the stored value and the value stored in another
/// instance, as `T` computes it. Nothing is checked or put back into the range.
impl<T: Sub> Sub<Bounded<T>> for Bounded<T> {
    type Output = T::Output;

    fn sub(self, other: Bounded<T>) -> (r: T::Output) {
        self.inner - other.inner
    }
}

impl<T: Sub> SubSpecImpl<Bounded<T>> for Bounded<T> {
    open spec fn obeys_sub_spec() -> bool {
        T::obeys_sub_spec()
    }

    open spec fn sub_req(self, other: Bounded<T>) -> bool {
        self.value().sub_req(other.value())
    }

    open spec fn sub_spec(self, other: Bounded<T>) -> T::Output {
        self.value().sub_spec(other.value())
    }
}

/// The raw product of the stored value and a bare value, as `T` computes it.
/// Nothing is checked or put back into the range.
impl<T: Mul> Mul<T> for Bounded<T> {
    type Output = T::Output;

    fn mul(self, other: T) -> (r: T::Output) {
        self.inner * other
    }
}

impl<T: Mul> MulSpecImpl<T> for Bounded<T> {
    open spec fn obeys_mul_spec() -> bool {
        T::obeys_mul_spec()
    }

    open spec fn mul_req(self, other: T) -> bool {
        self.value().mul_req(other)
    }

    open spec fn mul_spec(self, other: T) -> T::Output {
        self.value().mul_spec(other)
    }
}

/// The raw product of the stored value and the value stored in another
/// instance, as `T` computes it. Nothing is checked or put back into the range.
impl<T: Mul> Mul<Bounded<T>> for Bounded<T> {
    type Output = T::Output;

    fn mul(self, other: Bounded<T>) -> (r: T::Output) {
        self.inner * other.inner
    }
}

impl<T: Mul> MulSpecImpl<Bounded<T>> for Bounded<T> {
    open spec fn obeys_mul_spec() -> bool {
        T::obeys_mul_spec()
    }

    open spec fn mul_req(self, other: Bounded<T>) -> bool {
        self.value().mul_req(other.value())
    }

    open spec fn mul_spec(self, other: Bounded<T>) -> T::Output {
        self.value().mul_spec(other.value())
    }
}

/// The raw quotient of the stored value and a bare value, as `T` computes it.
/// Nothing is checked or put back into the range.
impl<T: Div> Div<T> for Bounded<T> {
    type Output = T::Output;

    fn div(self, other: T) -> (r: T::Output) {
        self.inner / other
    }
}

impl<T: Div> DivSpecImpl<T> for Bounded<T> {
    open spec fn obeys_div_spec() -> bool {
        T::obeys_div_spec()
    }

    open spec fn div_req(self, other: T) -> bool {
        self.value().div_req(other)
    }

    open spec fn div_spec(self, other: T) -> T::Output {
        self.value().div_spec(other)
    }
}

/// The raw quotient of the stored value and the value stored in another
/// instance, as `T` computes it. Nothing is checked or put back into the range.
impl<T: Div> Div<Bounded<T>> for Bounded<T> {
    type Output = T::Output;

    fn div(self, other: Bounded<T>) -> (r: T::Output) {
        self.inner / other.inner
    }
}

impl<T: Div> DivSpecImpl<Bounded<T>> for Bounded<T> {
    open spec fn obeys_div_spec() -> bool {
        T::obeys_div_spec()
    }

    open spec fn div_req(self, other: Bounded<T>) -> bool {
        self.value().div_req(other.value())
    }

    open spec fn div_spec(self, other: Bounded<T>) -> T::Output {
        self.value().div_spec(other.value())
    }
}

/// The raw remainder of the stored value and a bare value, as `T` computes it.
/// Nothing is checked or put back into the range.
impl<T: Rem> Rem<T> for Bounded<T> {
    type Output = T::Output;

    fn rem(self, other: T) -> (r: T::Output) {
        self.inner % other
    }
}

impl<T: Rem> RemSpecImpl<T> for Bounded<T> {
    open spec fn obeys_rem_spec() -> bool {
        T::obeys_rem_spec()
    }

    open spec fn rem_req(self, other: T) -> bool {
        self.value().rem_req(other)
    }

    open spec fn rem_spec(self, other: T) -> T::Output {
        self.value().rem_spec(other)
    }
}

/// The raw remainder of the stored value and the value stored in another
/// instance, as `T` computes it. Nothing is checked or put back into the range.
impl<T: Rem> Rem<Bounded<T>> for Bounded<T> {
    type Output = T::Output;

    fn rem(self, other: Bounded<T>) -> (r: T::Output) {
        self.inner % other.inner
    }
}

impl<T: Rem> RemSpecImpl<Bounded<T>> for Bounded<T> {
    open spec fn obeys_rem_spec() -> bool {
        T::obeys_rem_spec()
    }

    open spec fn rem_req(self, other: Bounded<T>) -> bool {
        self.value().rem_req(other.value())
    }

    open spec fn rem_spec(self, other: Bounded<T>) -> T::Output {
        self.value().rem_spec(other.value())
    }
}

/// Equal to a bare value exactly when `T` finds the stored values equal.
impl<T: PartialEq> PartialEq<T> for Bounded<T> {
    fn eq(&self, other: &T) -> (r: bool) {
        self.inner == *other
    }
}

impl<T: PartialEq> PartialEqSpecImpl<T> for Bounded<T> {
    open spec fn obeys_eq_spec() -> bool {
        T::obeys_eq_spec()
    }

    open spec fn eq_spec(&self, other: &T) -> bool {
        self.value().eq_spec(other)
    }
}

/// Equal to another instance exactly when `T` finds the stored values equal;
/// the bounds play no part.
impl<T: PartialEq> PartialEq<Bounded<T>> for Bounded<T> {
    fn eq(&self, other: &Bounded<T>) -> (r: bool) {
        self.inner == other.inner
    }
}

impl<T: PartialEq> PartialEqSpecImpl<Bounded<T>> for Bounded<T> {
    open spec fn obeys_eq_spec() -> bool {
        T::obeys_eq_spec()
    }

    open spec fn eq_spec(&self, other: &Bounded<T>) -> bool {
        self.value().eq_spec(&other.value())
    }
}

impl<T: Eq> Eq for Bounded<T> {

}

/// Ordered against a bare value as `T` orders the stored values.
impl<T: PartialOrd> PartialOrd<T> for Bounded<T> {
    fn partial_cmp(&self, other: &T) -> (r: Option<Ordering>) {
        self.inner.partial_cmp(other)
    }
}

impl<T: PartialOrd> PartialOrdSpecImpl<T> for Bounded<T> {
    open spec fn obeys_partial_cmp_spec() -> bool {
        T::obeys_partial_cmp_spec()
    }

    open spec fn partial_cmp_spec(&self, other: &T) -> Option<Ordering> {
        self.value().partial_cmp_spec(other)
    }
}

/// Ordered against another instance as `T` orders the stored values; the bounds
/// play no part.
impl<T: PartialOrd> PartialOrd<Bounded<T>> for Bounded<T> {
    fn partial_cmp(&self, other: &Bounded<T>) -> (r: Option<Ordering>) {
        self.inner.partial_cmp(&other.inner)
    }
}

impl<T: PartialOrd> PartialOrdSpecImpl<Bounded<T>> for Bounded<T> {
    open spec fn obeys_partial_cmp_spec() -> bool {
        T::obeys_partial_cmp_spec()
    }

    open spec fn partial_cmp_spec(&self, other: &Bounded<T>) -> Option<Ordering> {
        self.value().partial_cmp_spec(&other.value())
    }
}

/// On `u8` the refusal agrees with the integer model.
pub proof fn lemma_refusal_u8(inner: u8, min: u8, max: u8)
    ensures
        Bounded::<u8>::refusal(inner, min, max) == rejection(inner as int, min as int, max as int),
{
}

/// On `u16` the refusal agrees with the integer model.
pub proof fn lemma_refusal_u16(inner: u16, min: u16, max: u16)
    ensures
        Bounded::<u16>::refusal(inner, min, max) == rejection(inner as int, min as int, max as int),
{
}

/// On `u32` the refusal agrees with the integer model.
pub proof fn lemma_refusal_u32(inner: u32, min: u32, max: u32)
    ensures
        Bounded::<u32>::refusal(inner, min, max) == rejection(inner as int, min as int, max as int),
{
}

/// On `u64` the refusal agrees with the integer model.
pub proof fn lemma_refusal_u64(inner: u64, min: u64, max: u64)
    ensures
        Bounded::<u64>::refusal(inner, min, max) == rejection(inner as int, min as int, max as int),
{
}

/// On `u128` the refusal agrees with the integer model.
pub proof fn lemma_refusal_u128(inner: u128, min: u128, max: u128)
    ensures
        Bounded::<u128>::refusal(
            inner,
            min,
            max,
        ) == rejection(inner as int, min as int, max as int),
{
}

/// On `usize` the refusal agrees with the integer model.
pub proof fn lemma_refusal_usize(inner: usize, min: usize, max: usize)
    ensures
        Bounded::<usize>::refusal(
            inner,
            min,
            max,
        ) == rejection(inner as int, min as int, max as int),
{
}

/// On `i8` the refusal agrees with the integer model.
pub proof fn lemma_refusal_i8(inner: i8, min: i8, max: i8)
    ensures
        Bounded::<i8>::refusal(inner, min, max) == rejection(inner as int, min as int, max as int),
{
}

/// On `i16` the refusal agrees with the integer model.
pub proof fn lemma_refusal_i16(inner: i16, min: i16, max: i16)
    ensures
        Bounded::<i16>::refusal(inner, min, max) == rejection(inner as int, min as int, max as int),
{
}

/// On `i32` the refusal agrees with the integer model.
pub proof fn lemma_refusal_i32(inner: i32, min: i32, max: i32)
    ensures
        Bounded::<i32>::refusal(inner, min, max) == rejection(inner as int, min as int, max as int),
{
}

/// On `i64` the refusal agrees with the integer model.
pub proof fn lemma_refusal_i64(inner: i64, min: i64, max: i64)
    ensures
        Bounded::<i64>::refusal(inner, min, max) == rejection(inner as int, min as int, max as int),
{
}

/// On `i128` the refusal agrees with the integer model.
pub proof fn lemma_refusal_i128(inner: i128, min: i128, max: i128)
    ensures
        Bounded::<i128>::refusal(
            inner,
            min,
            max,
        ) == rejection(inner as int, min as int, max as int),
{
}

/// On `isize` the refusal agrees with the integer model.
pub proof fn lemma_refusal_isize(inner: isize, min: isize, max: isize)
    ensures
        Bounded::<isize>::refusal(
            inner,
            min,
            max,
        ) == rejection(inner as int, min as int, max as int),
{
}

} // verus!
