//! Endian arithmetic types: like the buffer types, with the arithmetic and
//! bitwise operators of the native value and implicit conversion via `From`.
use core::cmp::Ordering;
use core::marker::PhantomData;
use core::ops::{Add, BitAnd, BitOr, BitXor, Div, Mul, Neg, Not, Rem, Shl, Shr, Sub};
use vstd::prelude::*;
use vstd::std_specs::cmp::{PartialEqSpec, PartialOrdSpec};
use vstd::std_specs::convert::FromSpec;
use vstd::std_specs::ops::{
    AddSpec, BitAndSpec, BitOrSpec, BitXorSpec, DivSpec, MulSpec, NegSpec, NotSpec, RemSpec,
    ShlSpec, ShrSpec, SubSpec,
};

use crate::buffer::{BigEndian, Encoding, LittleEndian, NativeEndian};
use crate::conversion::{converted, lemma_converted_roundtrip, EndianReversible, Order};

verus! {

/// An integer held in the byte order specified by `E`, with the arithmetic of
/// its native value.
#[derive(Debug, Copy, Hash)]
pub struct EndianInt<E: Encoding, T: EndianReversible> {
    stored: T,
    _enc: PhantomData<E>,
}

impl<E: Encoding, T: EndianReversible> View for EndianInt<E, T> {
    type V = T;

    /// The value in native byte order.
    open spec fn view(&self) -> T {
        converted(self.raw(), E::order(), Order::Native)
    }
}

impl<E: Encoding, T: EndianReversible> EndianInt<E, T> {
    /// The stored representation, in the byte order of `E`.
    pub closed spec fn raw(self) -> T {
        self.stored
    }

    /// The `EndianInt` that holds the native value `native`.
    pub closed spec fn holding(native: T) -> Self {
        EndianInt { stored: converted(native, Order::Native, E::order()), _enc: PhantomData }
    }

    /// What `holding` holds: its native value and its stored representation.
    pub broadcast proof fn lemma_holding(native: T)
        ensures
            #[trigger] Self::holding(native).raw() == converted(native, Order::Native, E::order()),
            Self::holding(native)@ == native,
    {
        lemma_converted_roundtrip(native, Order::Native, E::order());
    }

    /// An `EndianInt` is determined by its native value.
    pub broadcast proof fn lemma_view_determines(x: Self)
        ensures
            #[trigger] Self::holding(x@) == x,
    {
        lemma_converted_roundtrip(x.raw(), E::order(), Order::Native);
    }

    /// Constructs from a native-endian value.
    pub fn new(native: T) -> (r: Self)
        ensures
            r == Self::holding(native),
            r@ == native,
    {
        proof {
            Self::lemma_holding(native);
        }
        EndianInt { stored: E::to_stored(native), _enc: PhantomData }
    }

    /// Returns the value in native byte order.
    pub fn get(self) -> (r: T)
        ensures
            r == self@,
    {
        E::to_native(self.stored)
    }

    /// Overwrites with a native-endian value.
    pub fn set(&mut self, native: T)
        ensures
            *final(self) == Self::holding(native),
            final(self)@ == native,
    {
        proof {
            Self::lemma_holding(native);
        }
        self.stored = E::to_stored(native);
    }

    /// The stored representation, in the byte order of `E`.
    pub fn data(&self) -> (r: &T)
        ensures
            *r == self.raw(),
    {
        &self.stored
    }

    /// The smaller of two values by their native values (`self` on a tie).
    pub fn min(self, other: Self) -> (r: Self)
        where
            T: PartialOrd,
        requires
            T::obeys_partial_cmp_spec(),
        ensures
            r == (if other@.partial_cmp_spec(&self@) == Some(Ordering::Less) {
                other
            } else {
                self
            }),
    {
        let a = self.get();
        let b = other.get();
        if b < a {
            other
        } else {
            self
        }
    }

    /// The larger of two values by their native values (`other` on a tie).
    pub fn max(self, other: Self) -> (r: Self)
        where
            T: PartialOrd,
        requires
            T::obeys_partial_cmp_spec(),
        ensures
            r == (if other@.partial_cmp_spec(&self@) == Some(Ordering::Less) {
                self
            } else {
                other
            }),
    {
        let a = self.get();
        let b = other.get();
        if b < a {
            self
        } else {
            other
        }
    }

    /// `self += rhs`, where `rhs` is an `EndianInt` of the same kind or a
    /// plain `T`: `self` becomes `self + rhs`.
    pub fn add_assign<R>(&mut self, rhs: R)
        where
            Self: Add<R, Output = Self>,
        requires
            old(self).add_req(rhs),
        ensures
            call_ensures(<Self as Add<R>>::add, (*old(self), rhs), *final(self)),
            <Self as AddSpec<R>>::obeys_add_spec() ==> *final(self) == old(self).add_spec(rhs),
    {
        *self = (*self).add(rhs);
    }

    /// `self -= rhs`, where `rhs` is an `EndianInt` of the same kind or a
    /// plain `T`: `self` becomes `self - rhs`.
    pub fn sub_assign<R>(&mut self, rhs: R)
        where
            Self: Sub<R, Output = Self>,
        requires
            old(self).sub_req(rhs),
        ensures
            call_ensures(<Self as Sub<R>>::sub, (*old(self), rhs), *final(self)),
            <Self as SubSpec<R>>::obeys_sub_spec() ==> *final(self) == old(self).sub_spec(rhs),
    {
        *self = (*self).sub(rhs);
    }

    /// `self *= rhs`, where `rhs` is an `EndianInt` of the same kind or a
    /// plain `T`: `self` becomes `self * rhs`.
    pub fn mul_assign<R>(&mut self, rhs: R)
        where
            Self: Mul<R, Output = Self>,
        requires
            old(self).mul_req(rhs),
        ensures
            call_ensures(<Self as Mul<R>>::mul, (*old(self), rhs), *final(self)),
            <Self as MulSpec<R>>::obeys_mul_spec() ==> *final(self) == old(self).mul_spec(rhs),
    {
        *self = (*self).mul(rhs);
    }

    /// `self /= rhs`, where `rhs` is an `EndianInt` of the same kind or a
    /// plain `T`: `self` becomes `self / rhs`.
    pub fn div_assign<R>(&mut self, rhs: R)
        where
            Self: Div<R, Output = Self>,
        requires
            old(self).div_req(rhs),
        ensures
            call_ensures(<Self as Div<R>>::div, (*old(self), rhs), *final(self)),
            <Self as DivSpec<R>>::obeys_div_spec() ==> *final(self) == old(self).div_spec(rhs),
    {
        *self = (*self).div(rhs);
    }

    /// `self %= rhs`, where `rhs` is an `EndianInt` of the same kind or a
    /// plain `T`: `self` becomes `self % rhs`.
    pub fn rem_assign<R>(&mut self, rhs: R)
        where
            Self: Rem<R, Output = Self>,
        requires
            old(self).rem_req(rhs),
        ensures
            call_ensures(<Self as Rem<R>>::rem, (*old(self), rhs), *final(self)),
            <Self as RemSpec<R>>::obeys_rem_spec() ==> *final(self) == old(self).rem_spec(rhs),
    {
        *self = (*self).rem(rhs);
    }

    /// `self &= rhs`, where `rhs` is an `EndianInt` of the same kind or a
    /// plain `T`: `self` becomes `self & rhs`.
    pub fn bitand_assign<R>(&mut self, rhs: R)
        where
            Self: BitAnd<R, Output = Self>,
        requires
            old(self).bitand_req(rhs),
        ensures
            call_ensures(<Self as BitAnd<R>>::bitand, (*old(self), rhs), *final(self)),
            <Self as BitAndSpec<R>>::obeys_bitand_spec() ==> *final(self) == old(self).bitand_spec(rhs),
    {
        *self = (*self).bitand(rhs);
    }

    /// `self |= rhs`, where `rhs` is an `EndianInt` of the same kind or a
    /// plain `T`: `self` becomes `self | rhs`.
    pub fn bitor_assign<R>(&mut self, rhs: R)
        where
            Self: BitOr<R, Output = Self>,
        requires
            old(self).bitor_req(rhs),
        ensures
            call_ensures(<Self as BitOr<R>>::bitor, (*old(self), rhs), *final(self)),
            <Self as BitOrSpec<R>>::obeys_bitor_spec() ==> *final(self) == old(self).bitor_spec(rhs),
    {
        *self = (*self).bitor(rhs);
    }

    /// `self ^= rhs`, where `rhs` is an `EndianInt` of the same kind or a
    /// plain `T`: `self` becomes `self ^ rhs`.
    pub fn bitxor_assign<R>(&mut self, rhs: R)
        where
            Self: BitXor<R, Output = Self>,
        requires
            old(self).bitxor_req(rhs),
        ensures
            call_ensures(<Self as BitXor<R>>::bitxor, (*old(self), rhs), *final(self)),
            <Self as BitXorSpec<R>>::obeys_bitxor_spec() ==> *final(self) == old(self).bitxor_spec(rhs),
    {
        *self = (*self).bitxor(rhs);
    }

    /// `self <<= rhs`, where `rhs` is an `EndianInt` of the same kind or a
    /// plain `T`: `self` becomes `self << rhs`.
    pub fn shl_assign<R>(&mut self, rhs: R)
        where
            Self: Shl<R, Output = Self>,
        requires
            old(self).shl_req(rhs),
        ensures
            call_ensures(<Self as Shl<R>>::shl, (*old(self), rhs), *final(self)),
            <Self as ShlSpec<R>>::obeys_shl_spec() ==> *final(self) == old(self).shl_spec(rhs),
    {
        *self = (*self).shl(rhs);
    }

    /// `self >>= rhs`, where `rhs` is an `EndianInt` of the same kind or a
    /// plain `T`: `self` becomes `self >> rhs`.
    pub fn shr_assign<R>(&mut self, rhs: R)
        where
            Self: Shr<R, Output = Self>,
        requires
            old(self).shr_req(rhs),
        ensures
            call_ensures(<Self as Shr<R>>::shr, (*old(self), rhs), *final(self)),
            <Self as ShrSpec<R>>::obeys_shr_spec() ==> *final(self) == old(self).shr_spec(rhs),
    {
        *self = (*self).shr(rhs);
    }
}

impl<E: Encoding, T: EndianReversible> Clone for EndianInt<E, T> {
    fn clone(&self) -> (r: Self)
        ensures
            r == *self,
    {
        EndianInt { stored: self.stored, _enc: PhantomData }
    }
}

impl<E: Encoding, T: EndianReversible> From<T> for EndianInt<E, T> {
    /// Holds the native value `native`.
    fn from(native: T) -> (r: Self)
        ensures
            r == Self::holding(native),
            r@ == native,
    {
        Self::new(native)
    }
}

impl<E: Encoding, T: EndianReversible> vstd::std_specs::convert::FromSpecImpl<T> for EndianInt<E, T> {
    open spec fn obeys_from_spec() -> bool {
        true
    }

    open spec fn from_spec(native: T) -> Self {
        Self::holding(native)
    }
}

/// Equality compares the stored bytes.
impl<E: Encoding, T: EndianReversible + PartialEq> PartialEq for EndianInt<E, T> {
    /// What `==` on `T` gives for the stored values.
    fn eq(&self, other: &Self) -> (r: bool)
        ensures
            call_ensures(T::eq, (&self.raw(), &other.raw()), r),
    {
        self.stored == other.stored
    }
}

impl<E: Encoding, T: EndianReversible + PartialEq> vstd::std_specs::cmp::PartialEqSpecImpl for EndianInt<E, T> {
    open spec fn obeys_eq_spec() -> bool {
        T::obeys_eq_spec()
    }

    open spec fn eq_spec(&self, other: &Self) -> bool {
        self.raw().eq_spec(&other.raw())
    }
}

impl<E: Encoding, T: EndianReversible + Eq> Eq for EndianInt<E, T> {
}

/// Ordering compares the native values.
impl<E: Encoding, T: EndianReversible + PartialOrd> PartialOrd for EndianInt<E, T> {
    /// What `partial_cmp` on `T` gives for the native values.
    fn partial_cmp(&self, other: &Self) -> (r: Option<Ordering>)
        ensures
            call_ensures(T::partial_cmp, (&self@, &other@), r),
    {
        let a = self.get();
        let b = other.get();
        a.partial_cmp(&b)
    }
}

impl<E: Encoding, T: EndianReversible + PartialOrd> vstd::std_specs::cmp::PartialOrdSpecImpl for EndianInt<E, T> {
    open spec fn obeys_partial_cmp_spec() -> bool {
        T::obeys_partial_cmp_spec()
    }

    open spec fn partial_cmp_spec(&self, other: &Self) -> Option<Ordering> {
        self@.partial_cmp_spec(&other@)
    }
}

impl<E: Encoding, T: EndianReversible + Default> Default for EndianInt<E, T> {
    fn default() -> (r: Self)
        ensures
            call_ensures(T::default, (), r@),
    {
        Self::new(T::default())
    }
}

impl<E: Encoding, T: EndianReversible + Neg<Output = T>> Neg for EndianInt<E, T> {
    type Output = Self;

    fn neg(self) -> (r: Self)
        ensures
            call_ensures(T::neg, (self@,), r@),
    {
        Self::new(self.get().neg())
    }
}

impl<E: Encoding, T: EndianReversible + Neg<Output = T>> vstd::std_specs::ops::NegSpecImpl for EndianInt<E, T> {
    open spec fn obeys_neg_spec() -> bool {
        <T as NegSpec>::obeys_neg_spec()
    }

    open spec fn neg_req(self) -> bool {
        self@.neg_req()
    }

    open spec fn neg_spec(self) -> Self {
        Self::holding(self@.neg_spec())
    }
}

impl<E: Encoding, T: EndianReversible + Not<Output = T>> Not for EndianInt<E, T> {
    type Output = Self;

    fn not(self) -> (r: Self)
        ensures
            call_ensures(T::not, (self@,), r@),
    {
        Self::new(self.get().not())
    }
}

impl<E: Encoding, T: EndianReversible + Not<Output = T>> vstd::std_specs::ops::NotSpecImpl for EndianInt<E, T> {
    open spec fn obeys_not_spec() -> bool {
        <T as NotSpec>::obeys_not_spec()
    }

    open spec fn not_req(self) -> bool {
        self@.not_req()
    }

    open spec fn not_spec(self) -> Self {
        Self::holding(self@.not_spec())
    }
}

impl<E: Encoding, T: EndianReversible + Add<Output = T>> EndianInt<E, T> {
    /// Increments the native value by one (`++x` in C++), keeping the byte
    /// order of the stored value.
    pub fn inc(&mut self)
        requires
            old(self)@.add_req(T::spec_one()),
        ensures
            call_ensures(T::add, (old(self)@, T::spec_one()), final(self)@),
            *final(self) == Self::holding(final(self)@),
            <T as AddSpec>::obeys_add_spec() ==> final(self)@ == old(self)@.add_spec(T::spec_one()),
    {
        let one = T::one();
        let v = self.get().add(one);
        self.set(v);
    }

    /// Decrements the native value by one (`--x` in C++), keeping the byte
    /// order of the stored value.
    pub fn dec(&mut self)
        where
            T: Sub<Output = T>,
        requires
            old(self)@.sub_req(T::spec_one()),
        ensures
            call_ensures(T::sub, (old(self)@, T::spec_one()), final(self)@),
            *final(self) == Self::holding(final(self)@),
            <T as SubSpec>::obeys_sub_spec() ==> final(self)@ == old(self)@.sub_spec(T::spec_one()),
    {
        let one = T::one();
        let v = self.get().sub(one);
        self.set(v);
    }
}

impl<E: Encoding> From<EndianInt<E, u8>> for u8 {
    /// The native value held in `v`.
    fn from(v: EndianInt<E, u8>) -> (r: u8)
        ensures
            r == v@,
    {
        v.get()
    }
}

impl<E: Encoding> vstd::std_specs::convert::FromSpecImpl<EndianInt<E, u8>> for u8 {
    open spec fn obeys_from_spec() -> bool {
        true
    }

    open spec fn from_spec(v: EndianInt<E, u8>) -> u8 {
        v@
    }
}

impl<E: Encoding> From<EndianInt<E, i8>> for i8 {
    /// The native value held in `v`.
    fn from(v: EndianInt<E, i8>) -> (r: i8)
        ensures
            r == v@,
    {
        v.get()
    }
}

impl<E: Encoding> vstd::std_specs::convert::FromSpecImpl<EndianInt<E, i8>> for i8 {
    open spec fn obeys_from_spec() -> bool {
        true
    }

    open spec fn from_spec(v: EndianInt<E, i8>) -> i8 {
        v@
    }
}

impl<E: Encoding> From<EndianInt<E, u16>> for u16 {
    /// The native value held in `v`.
    fn from(v: EndianInt<E, u16>) -> (r: u16)
        ensures
            r == v@,
    {
        v.get()
    }
}

impl<E: Encoding> vstd::std_specs::convert::FromSpecImpl<EndianInt<E, u16>> for u16 {
    open spec fn obeys_from_spec() -> bool {
        true
    }

    open spec fn from_spec(v: EndianInt<E, u16>) -> u16 {
        v@
    }
}

impl<E: Encoding> From<EndianInt<E, i16>> for i16 {
    /// The native value held in `v`.
    fn from(v: EndianInt<E, i16>) -> (r: i16)
        ensures
            r == v@,
    {
        v.get()
    }
}

impl<E: Encoding> vstd::std_specs::convert::FromSpecImpl<EndianInt<E, i16>> for i16 {
    open spec fn obeys_from_spec() -> bool {
        true
    }

    open spec fn from_spec(v: EndianInt<E, i16>) -> i16 {
        v@
    }
}

impl<E: Encoding> From<EndianInt<E, u32>> for u32 {
    /// The native value held in `v`.
    fn from(v: EndianInt<E, u32>) -> (r: u32)
        ensures
            r == v@,
    {
        v.get()
    }
}

impl<E: Encoding> vstd::std_specs::convert::FromSpecImpl<EndianInt<E, u32>> for u32 {
    open spec fn obeys_from_spec() -> bool {
        true
    }

    open spec fn from_spec(v: EndianInt<E, u32>) -> u32 {
        v@
    }
}

impl<E: Encoding> From<EndianInt<E, i32>> for i32 {
    /// The native value held in `v`.
    fn from(v: EndianInt<E, i32>) -> (r: i32)
        ensures
            r == v@,
    {
        v.get()
    }
}

impl<E: Encoding> vstd::std_specs::convert::FromSpecImpl<EndianInt<E, i32>> for i32 {
    open spec fn obeys_from_spec() -> bool {
        true
    }

    open spec fn from_spec(v: EndianInt<E, i32>) -> i32 {
        v@
    }
}

impl<E: Encoding> From<EndianInt<E, u64>> for u64 {
    /// The native value held in `v`.
    fn from(v: EndianInt<E, u64>) -> (r: u64)
        ensures
            r == v@,
    {
        v.get()
    }
}

impl<E: Encoding> vstd::std_specs::convert::FromSpecImpl<EndianInt<E, u64>> for u64 {
    open spec fn obeys_from_spec() -> bool {
        true
    }

    open spec fn from_spec(v: EndianInt<E, u64>) -> u64 {
        v@
    }
}

impl<E: Encoding> From<EndianInt<E, i64>> for i64 {
    /// The native value held in `v`.
    fn from(v: EndianInt<E, i64>) -> (r: i64)
        ensures
            r == v@,
    {
        v.get()
    }
}

impl<E: Encoding> vstd::std_specs::convert::FromSpecImpl<EndianInt<E, i64>> for i64 {
    open spec fn obeys_from_spec() -> bool {
        true
    }

    open spec fn from_spec(v: EndianInt<E, i64>) -> i64 {
        v@
    }
}

impl<E: Encoding> From<EndianInt<E, u128>> for u128 {
    /// The native value held in `v`.
    fn from(v: EndianInt<E, u128>) -> (r: u128)
        ensures
            r == v@,
    {
        v.get()
    }
}

impl<E: Encoding> vstd::std_specs::convert::FromSpecImpl<EndianInt<E, u128>> for u128 {
    open spec fn obeys_from_spec() -> bool {
        true
    }

    open spec fn from_spec(v: EndianInt<E, u128>) -> u128 {
        v@
    }
}

impl<E: Encoding> From<EndianInt<E, i128>> for i128 {
    /// The native value held in `v`.
    fn from(v: EndianInt<E, i128>) -> (r: i128)
        ensures
            r == v@,
    {
        v.get()
    }
}

impl<E: Encoding> vstd::std_specs::convert::FromSpecImpl<EndianInt<E, i128>> for i128 {
    open spec fn obeys_from_spec() -> bool {
        true
    }

    open spec fn from_spec(v: EndianInt<E, i128>) -> i128 {
        v@
    }
}

impl<E: Encoding> From<EndianInt<E, usize>> for usize {
    /// The native value held in `v`.
    fn from(v: EndianInt<E, usize>) -> (r: usize)
        ensures
            r == v@,
    {
        v.get()
    }
}

impl<E: Encoding> vstd::std_specs::convert::FromSpecImpl<EndianInt<E, usize>> for usize {
    open spec fn obeys_from_spec() -> bool {
        true
    }

    open spec fn from_spec(v: EndianInt<E, usize>) -> usize {
        v@
    }
}

impl<E: Encoding> From<EndianInt<E, isize>> for isize {
    /// The native value held in `v`.
    fn from(v: EndianInt<E, isize>) -> (r: isize)
        ensures
            r == v@,
    {
        v.get()
    }
}

impl<E: Encoding> vstd::std_specs::convert::FromSpecImpl<EndianInt<E, isize>> for isize {
    open spec fn obeys_from_spec() -> bool {
        true
    }

    open spec fn from_spec(v: EndianInt<E, isize>) -> isize {
        v@
    }
}

impl<E: Encoding, T: EndianReversible + Add<Output = T>> Add for EndianInt<E, T> {
    type Output = Self;

    /// Holds, in native order, what `+` on `T` gives for the native values.
    fn add(self, rhs: Self) -> (r: Self)
        ensures
            call_ensures(T::add, (self@, rhs@), r@),
    {
        Self::new(self.get().add(rhs.get()))
    }
}

impl<E: Encoding, T: EndianReversible + Add<Output = T>> vstd::std_specs::ops::AddSpecImpl for EndianInt<E, T> {
    open spec fn obeys_add_spec() -> bool {
        <T as AddSpec>::obeys_add_spec()
    }

    open spec fn add_req(self, rhs: Self) -> bool {
        self@.add_req(rhs@)
    }

    open spec fn add_spec(self, rhs: Self) -> Self {
        Self::holding(self@.add_spec(rhs@))
    }
}

impl<E: Encoding, T: EndianReversible + Add<Output = T>> Add<T> for EndianInt<E, T> {
    type Output = Self;

    /// Holds, in native order, what `+` on `T` gives for the native value and `rhs`.
    fn add(self, rhs: T) -> (r: Self)
        ensures
            call_ensures(T::add, (self@, rhs), r@),
    {
        Self::new(self.get().add(rhs))
    }
}

impl<E: Encoding, T: EndianReversible + Add<Output = T>> vstd::std_specs::ops::AddSpecImpl<T> for EndianInt<E, T> {
    open spec fn obeys_add_spec() -> bool {
        <T as AddSpec>::obeys_add_spec()
    }

    open spec fn add_req(self, rhs: T) -> bool {
        self@.add_req(rhs)
    }

    open spec fn add_spec(self, rhs: T) -> Self {
        Self::holding(self@.add_spec(rhs))
    }
}

impl<E: Encoding, T: EndianReversible + Sub<Output = T>> Sub for EndianInt<E, T> {
    type Output = Self;

    /// Holds, in native order, what `-` on `T` gives for the native values.
    fn sub(self, rhs: Self) -> (r: Self)
        ensures
            call_ensures(T::sub, (self@, rhs@), r@),
    {
        Self::new(self.get().sub(rhs.get()))
    }
}

impl<E: Encoding, T: EndianReversible + Sub<Output = T>> vstd::std_specs::ops::SubSpecImpl for EndianInt<E, T> {
    open spec fn obeys_sub_spec() -> bool {
        <T as SubSpec>::obeys_sub_spec()
    }

    open spec fn sub_req(self, rhs: Self) -> bool {
        self@.sub_req(rhs@)
    }

    open spec fn sub_spec(self, rhs: Self) -> Self {
        Self::holding(self@.sub_spec(rhs@))
    }
}

impl<E: Encoding, T: EndianReversible + Sub<Output = T>> Sub<T> for EndianInt<E, T> {
    type Output = Self;

    /// Holds, in native order, what `-` on `T` gives for the native value and `rhs`.
    fn sub(self, rhs: T) -> (r: Self)
        ensures
            call_ensures(T::sub, (self@, rhs), r@),
    {
        Self::new(self.get().sub(rhs))
    }
}

impl<E: Encoding, T: EndianReversible + Sub<Output = T>> vstd::std_specs::ops::SubSpecImpl<T> for EndianInt<E, T> {
    open spec fn obeys_sub_spec() -> bool {
        <T as SubSpec>::obeys_sub_spec()
    }

    open spec fn sub_req(self, rhs: T) -> bool {
        self@.sub_req(rhs)
    }

    open spec fn sub_spec(self, rhs: T) -> Self {
        Self::holding(self@.sub_spec(rhs))
    }
}

impl<E: Encoding, T: EndianReversible + Mul<Output = T>> Mul for EndianInt<E, T> {
    type Output = Self;

    /// Holds, in native order, what `*` on `T` gives for the native values.
    fn mul(self, rhs: Self) -> (r: Self)
        ensures
            call_ensures(T::mul, (self@, rhs@), r@),
    {
        Self::new(self.get().mul(rhs.get()))
    }
}

impl<E: Encoding, T: EndianReversible + Mul<Output = T>> vstd::std_specs::ops::MulSpecImpl for EndianInt<E, T> {
    open spec fn obeys_mul_spec() -> bool {
        <T as MulSpec>::obeys_mul_spec()
    }

    open spec fn mul_req(self, rhs: Self) -> bool {
        self@.mul_req(rhs@)
    }

    open spec fn mul_spec(self, rhs: Self) -> Self {
        Self::holding(self@.mul_spec(rhs@))
    }
}

impl<E: Encoding, T: EndianReversible + Mul<Output = T>> Mul<T> for EndianInt<E, T> {
    type Output = Self;

    /// Holds, in native order, what `*` on `T` gives for the native value and `rhs`.
    fn mul(self, rhs: T) -> (r: Self)
        ensures
            call_ensures(T::mul, (self@, rhs), r@),
    {
        Self::new(self.get().mul(rhs))
    }
}

impl<E: Encoding, T: EndianReversible + Mul<Output = T>> vstd::std_specs::ops::MulSpecImpl<T> for EndianInt<E, T> {
    open spec fn obeys_mul_spec() -> bool {
        <T as MulSpec>::obeys_mul_spec()
    }

    open spec fn mul_req(self, rhs: T) -> bool {
        self@.mul_req(rhs)
    }

    open spec fn mul_spec(self, rhs: T) -> Self {
        Self::holding(self@.mul_spec(rhs))
    }
}

impl<E: Encoding, T: EndianReversible + Div<Output = T>> Div for EndianInt<E, T> {
    type Output = Self;

    /// Holds, in native order, what `/` on `T` gives for the native values.
    fn div(self, rhs: Self) -> (r: Self)
        ensures
            call_ensures(T::div, (self@, rhs@), r@),
    {
        Self::new(self.get().div(rhs.get()))
    }
}

impl<E: Encoding, T: EndianReversible + Div<Output = T>> vstd::std_specs::ops::DivSpecImpl for EndianInt<E, T> {
    open spec fn obeys_div_spec() -> bool {
        <T as DivSpec>::obeys_div_spec()
    }

    open spec fn div_req(self, rhs: Self) -> bool {
        self@.div_req(rhs@)
    }

    open spec fn div_spec(self, rhs: Self) -> Self {
        Self::holding(self@.div_spec(rhs@))
    }
}

impl<E: Encoding, T: EndianReversible + Div<Output = T>> Div<T> for EndianInt<E, T> {
    type Output = Self;

    /// Holds, in native order, what `/` on `T` gives for the native value and `rhs`.
    fn div(self, rhs: T) -> (r: Self)
        ensures
            call_ensures(T::div, (self@, rhs), r@),
    {
        Self::new(self.get().div(rhs))
    }
}

impl<E: Encoding, T: EndianReversible + Div<Output = T>> vstd::std_specs::ops::DivSpecImpl<T> for EndianInt<E, T> {
    open spec fn obeys_div_spec() -> bool {
        <T as DivSpec>::obeys_div_spec()
    }

    open spec fn div_req(self, rhs: T) -> bool {
        self@.div_req(rhs)
    }

    open spec fn div_spec(self, rhs: T) -> Self {
        Self::holding(self@.div_spec(rhs))
    }
}

impl<E: Encoding, T: EndianReversible + Rem<Output = T>> Rem for EndianInt<E, T> {
    type Output = Self;

    /// Holds, in native order, what `%` on `T` gives for the native values.
    fn rem(self, rhs: Self) -> (r: Self)
        ensures
            call_ensures(T::rem, (self@, rhs@), r@),
    {
        Self::new(self.get().rem(rhs.get()))
    }
}

impl<E: Encoding, T: EndianReversible + Rem<Output = T>> vstd::std_specs::ops::RemSpecImpl for EndianInt<E, T> {
    open spec fn obeys_rem_spec() -> bool {
        <T as RemSpec>::obeys_rem_spec()
    }

    open spec fn rem_req(self, rhs: Self) -> bool {
        self@.rem_req(rhs@)
    }

    open spec fn rem_spec(self, rhs: Self) -> Self {
        Self::holding(self@.rem_spec(rhs@))
    }
}

impl<E: Encoding, T: EndianReversible + Rem<Output = T>> Rem<T> for EndianInt<E, T> {
    type Output = Self;

    /// Holds, in native order, what `%` on `T` gives for the native value and `rhs`.
    fn rem(self, rhs: T) -> (r: Self)
        ensures
            call_ensures(T::rem, (self@, rhs), r@),
    {
        Self::new(self.get().rem(rhs))
    }
}

impl<E: Encoding, T: EndianReversible + Rem<Output = T>> vstd::std_specs::ops::RemSpecImpl<T> for EndianInt<E, T> {
    open spec fn obeys_rem_spec() -> bool {
        <T as RemSpec>::obeys_rem_spec()
    }

    open spec fn rem_req(self, rhs: T) -> bool {
        self@.rem_req(rhs)
    }

    open spec fn rem_spec(self, rhs: T) -> Self {
        Self::holding(self@.rem_spec(rhs))
    }
}

impl<E: Encoding, T: EndianReversible + BitAnd<Output = T>> BitAnd for EndianInt<E, T> {
    type Output = Self;

    /// Holds, in native order, what `&` on `T` gives for the native values.
    fn bitand(self, rhs: Self) -> (r: Self)
        ensures
            call_ensures(T::bitand, (self@, rhs@), r@),
    {
        Self::new(self.get().bitand(rhs.get()))
    }
}

impl<E: Encoding, T: EndianReversible + BitAnd<Output = T>> vstd::std_specs::ops::BitAndSpecImpl for EndianInt<E, T> {
    open spec fn obeys_bitand_spec() -> bool {
        <T as BitAndSpec>::obeys_bitand_spec()
    }

    open spec fn bitand_req(self, rhs: Self) -> bool {
        self@.bitand_req(rhs@)
    }

    open spec fn bitand_spec(self, rhs: Self) -> Self {
        Self::holding(self@.bitand_spec(rhs@))
    }
}

impl<E: Encoding, T: EndianReversible + BitAnd<Output = T>> BitAnd<T> for EndianInt<E, T> {
    type Output = Self;

    /// Holds, in native order, what `&` on `T` gives for the native value and `rhs`.
    fn bitand(self, rhs: T) -> (r: Self)
        ensures
            call_ensures(T::bitand, (self@, rhs), r@),
    {
        Self::new(self.get().bitand(rhs))
    }
}

impl<E: Encoding, T: EndianReversible + BitAnd<Output = T>> vstd::std_specs::ops::BitAndSpecImpl<T> for EndianInt<E, T> {
    open spec fn obeys_bitand_spec() -> bool {
        <T as BitAndSpec>::obeys_bitand_spec()
    }

    open spec fn bitand_req(self, rhs: T) -> bool {
        self@.bitand_req(rhs)
    }

    open spec fn bitand_spec(self, rhs: T) -> Self {
        Self::holding(self@.bitand_spec(rhs))
    }
}

impl<E: Encoding, T: EndianReversible + BitOr<Output = T>> BitOr for EndianInt<E, T> {
    type Output = Self;

    /// Holds, in native order, what `|` on `T` gives for the native values.
    fn bitor(self, rhs: Self) -> (r: Self)
        ensures
            call_ensures(T::bitor, (self@, rhs@), r@),
    {
        Self::new(self.get().bitor(rhs.get()))
    }
}

impl<E: Encoding, T: EndianReversible + BitOr<Output = T>> vstd::std_specs::ops::BitOrSpecImpl for EndianInt<E, T> {
    open spec fn obeys_bitor_spec() -> bool {
        <T as BitOrSpec>::obeys_bitor_spec()
    }

    open spec fn bitor_req(self, rhs: Self) -> bool {
        self@.bitor_req(rhs@)
    }

    open spec fn bitor_spec(self, rhs: Self) -> Self {
        Self::holding(self@.bitor_spec(rhs@))
    }
}

impl<E: Encoding, T: EndianReversible + BitOr<Output = T>> BitOr<T> for EndianInt<E, T> {
    type Output = Self;

    /// Holds, in native order, what `|` on `T` gives for the native value and `rhs`.
    fn bitor(self, rhs: T) -> (r: Self)
        ensures
            call_ensures(T::bitor, (self@, rhs), r@),
    {
        Self::new(self.get().bitor(rhs))
    }
}

impl<E: Encoding, T: EndianReversible + BitOr<Output = T>> vstd::std_specs::ops::BitOrSpecImpl<T> for EndianInt<E, T> {
    open spec fn obeys_bitor_spec() -> bool {
        <T as BitOrSpec>::obeys_bitor_spec()
    }

    open spec fn bitor_req(self, rhs: T) -> bool {
        self@.bitor_req(rhs)
    }

    open spec fn bitor_spec(self, rhs: T) -> Self {
        Self::holding(self@.bitor_spec(rhs))
    }
}

impl<E: Encoding, T: EndianReversible + BitXor<Output = T>> BitXor for EndianInt<E, T> {
    type Output = Self;

    /// Holds, in native order, what `^` on `T` gives for the native values.
    fn bitxor(self, rhs: Self) -> (r: Self)
        ensures
            call_ensures(T::bitxor, (self@, rhs@), r@),
    {
        Self::new(self.get().bitxor(rhs.get()))
    }
}

impl<E: Encoding, T: EndianReversible + BitXor<Output = T>> vstd::std_specs::ops::BitXorSpecImpl for EndianInt<E, T> {
    open spec fn obeys_bitxor_spec() -> bool {
        <T as BitXorSpec>::obeys_bitxor_spec()
    }

    open spec fn bitxor_req(self, rhs: Self) -> bool {
        self@.bitxor_req(rhs@)
    }

    open spec fn bitxor_spec(self, rhs: Self) -> Self {
        Self::holding(self@.bitxor_spec(rhs@))
    }
}

impl<E: Encoding, T: EndianReversible + BitXor<Output = T>> BitXor<T> for EndianInt<E, T> {
    type Output = Self;

    /// Holds, in native order, what `^` on `T` gives for the native value and `rhs`.
    fn bitxor(self, rhs: T) -> (r: Self)
        ensures
            call_ensures(T::bitxor, (self@, rhs), r@),
    {
        Self::new(self.get().bitxor(rhs))
    }
}

impl<E: Encoding, T: EndianReversible + BitXor<Output = T>> vstd::std_specs::ops::BitXorSpecImpl<T> for EndianInt<E, T> {
    open spec fn obeys_bitxor_spec() -> bool {
        <T as BitXorSpec>::obeys_bitxor_spec()
    }

    open spec fn bitxor_req(self, rhs: T) -> bool {
        self@.bitxor_req(rhs)
    }

    open spec fn bitxor_spec(self, rhs: T) -> Self {
        Self::holding(self@.bitxor_spec(rhs))
    }
}

impl<E: Encoding, T: EndianReversible + Shl<Output = T>> Shl for EndianInt<E, T> {
    type Output = Self;

    /// Holds, in native order, what `<<` on `T` gives for the native values.
    fn shl(self, rhs: Self) -> (r: Self)
        ensures
            call_ensures(T::shl, (self@, rhs@), r@),
    {
        Self::new(self.get().shl(rhs.get()))
    }
}

impl<E: Encoding, T: EndianReversible + Shl<Output = T>> vstd::std_specs::ops::ShlSpecImpl for EndianInt<E, T> {
    open spec fn obeys_shl_spec() -> bool {
        <T as ShlSpec>::obeys_shl_spec()
    }

    open spec fn shl_req(self, rhs: Self) -> bool {
        self@.shl_req(rhs@)
    }

    open spec fn shl_spec(self, rhs: Self) -> Self {
        Self::holding(self@.shl_spec(rhs@))
    }
}

impl<E: Encoding, T: EndianReversible + Shl<Output = T>> Shl<T> for EndianInt<E, T> {
    type Output = Self;

    /// Holds, in native order, what `<<` on `T` gives for the native value and `rhs`.
    fn shl(self, rhs: T) -> (r: Self)
        ensures
            call_ensures(T::shl, (self@, rhs), r@),
    {
        Self::new(self.get().shl(rhs))
    }
}

impl<E: Encoding, T: EndianReversible + Shl<Output = T>> vstd::std_specs::ops::ShlSpecImpl<T> for EndianInt<E, T> {
    open spec fn obeys_shl_spec() -> bool {
        <T as ShlSpec>::obeys_shl_spec()
    }

    open spec fn shl_req(self, rhs: T) -> bool {
        self@.shl_req(rhs)
    }

    open spec fn shl_spec(self, rhs: T) -> Self {
        Self::holding(self@.shl_spec(rhs))
    }
}

impl<E: Encoding, T: EndianReversible + Shr<Output = T>> Shr for EndianInt<E, T> {
    type Output = Self;

    /// Holds, in native order, what `>>` on `T` gives for the native values.
    fn shr(self, rhs: Self) -> (r: Self)
        ensures
            call_ensures(T::shr, (self@, rhs@), r@),
    {
        Self::new(self.get().shr(rhs.get()))
    }
}

impl<E: Encoding, T: EndianReversible + Shr<Output = T>> vstd::std_specs::ops::ShrSpecImpl for EndianInt<E, T> {
    open spec fn obeys_shr_spec() -> bool {
        <T as ShrSpec>::obeys_shr_spec()
    }

    open spec fn shr_req(self, rhs: Self) -> bool {
        self@.shr_req(rhs@)
    }

    open spec fn shr_spec(self, rhs: Self) -> Self {
        Self::holding(self@.shr_spec(rhs@))
    }
}

impl<E: Encoding, T: EndianReversible + Shr<Output = T>> Shr<T> for EndianInt<E, T> {
    type Output = Self;

    /// Holds, in native order, what `>>` on `T` gives for the native value and `rhs`.
    fn shr(self, rhs: T) -> (r: Self)
        ensures
            call_ensures(T::shr, (self@, rhs), r@),
    {
        Self::new(self.get().shr(rhs))
    }
}

impl<E: Encoding, T: EndianReversible + Shr<Output = T>> vstd::std_specs::ops::ShrSpecImpl<T> for EndianInt<E, T> {
    open spec fn obeys_shr_spec() -> bool {
        <T as ShrSpec>::obeys_shr_spec()
    }

    open spec fn shr_req(self, rhs: T) -> bool {
        self@.shr_req(rhs)
    }

    open spec fn shr_spec(self, rhs: T) -> Self {
        Self::holding(self@.shr_spec(rhs))
    }
}

/// `inc` and `dec` on an `EndianInt<_, u8>` add and subtract the integer 1:
/// away from the ends of the range, the step taken from `v` lands on `v + 1`
/// and `v - 1`.
pub proof fn lemma_step_is_one_u8(v: u8)
    ensures
        v < u8::MAX ==> v.add_req(<u8 as EndianReversible>::spec_one()) && v.add_spec(
            <u8 as EndianReversible>::spec_one(),
        ) == v + 1,
        v > u8::MIN ==> v.sub_req(<u8 as EndianReversible>::spec_one()) && v.sub_spec(
            <u8 as EndianReversible>::spec_one(),
        ) == v - 1,
{
    <u8 as EndianReversible>::lemma_one_le_seq();
}

/// `inc` and `dec` on an `EndianInt<_, i8>` add and subtract the integer 1:
/// away from the ends of the range, the step taken from `v` lands on `v + 1`
/// and `v - 1`.
pub proof fn lemma_step_is_one_i8(v: i8)
    ensures
        v < i8::MAX ==> v.add_req(<i8 as EndianReversible>::spec_one()) && v.add_spec(
            <i8 as EndianReversible>::spec_one(),
        ) == v + 1,
        v > i8::MIN ==> v.sub_req(<i8 as EndianReversible>::spec_one()) && v.sub_spec(
            <i8 as EndianReversible>::spec_one(),
        ) == v - 1,
{
    <i8 as EndianReversible>::lemma_one_le_seq();
}

/// `inc` and `dec` on an `EndianInt<_, u16>` add and subtract the integer 1:
/// away from the ends of the range, the step taken from `v` lands on `v + 1`
/// and `v - 1`.
pub proof fn lemma_step_is_one_u16(v: u16)
    ensures
        v < u16::MAX ==> v.add_req(<u16 as EndianReversible>::spec_one()) && v.add_spec(
            <u16 as EndianReversible>::spec_one(),
        ) == v + 1,
        v > u16::MIN ==> v.sub_req(<u16 as EndianReversible>::spec_one()) && v.sub_spec(
            <u16 as EndianReversible>::spec_one(),
        ) == v - 1,
{
    <u16 as EndianReversible>::lemma_one_le_seq();
}

/// `inc` and `dec` on an `EndianInt<_, i16>` add and subtract the integer 1:
/// away from the ends of the range, the step taken from `v` lands on `v + 1`
/// and `v - 1`.
pub proof fn lemma_step_is_one_i16(v: i16)
    ensures
        v < i16::MAX ==> v.add_req(<i16 as EndianReversible>::spec_one()) && v.add_spec(
            <i16 as EndianReversible>::spec_one(),
        ) == v + 1,
        v > i16::MIN ==> v.sub_req(<i16 as EndianReversible>::spec_one()) && v.sub_spec(
            <i16 as EndianReversible>::spec_one(),
        ) == v - 1,
{
    <i16 as EndianReversible>::lemma_one_le_seq();
}

/// `inc` and `dec` on an `EndianInt<_, u32>` add and subtract the integer 1:
/// away from the ends of the range, the step taken from `v` lands on `v + 1`
/// and `v - 1`.
pub proof fn lemma_step_is_one_u32(v: u32)
    ensures
        v < u32::MAX ==> v.add_req(<u32 as EndianReversible>::spec_one()) && v.add_spec(
            <u32 as EndianReversible>::spec_one(),
        ) == v + 1,
        v > u32::MIN ==> v.sub_req(<u32 as EndianReversible>::spec_one()) && v.sub_spec(
            <u32 as EndianReversible>::spec_one(),
        ) == v - 1,
{
    <u32 as EndianReversible>::lemma_one_le_seq();
}

/// `inc` and `dec` on an `EndianInt<_, i32>` add and subtract the integer 1:
/// away from the ends of the range, the step taken from `v` lands on `v + 1`
/// and `v - 1`.
pub proof fn lemma_step_is_one_i32(v: i32)
    ensures
        v < i32::MAX ==> v.add_req(<i32 as EndianReversible>::spec_one()) && v.add_spec(
            <i32 as EndianReversible>::spec_one(),
        ) == v + 1,
        v > i32::MIN ==> v.sub_req(<i32 as EndianReversible>::spec_one()) && v.sub_spec(
            <i32 as EndianReversible>::spec_one(),
        ) == v - 1,
{
    <i32 as EndianReversible>::lemma_one_le_seq();
}

/// `inc` and `dec` on an `EndianInt<_, u64>` add and subtract the integer 1:
/// away from the ends of the range, the step taken from `v` lands on `v + 1`
/// and `v - 1`.
pub proof fn lemma_step_is_one_u64(v: u64)
    ensures
        v < u64::MAX ==> v.add_req(<u64 as EndianReversible>::spec_one()) && v.add_spec(
            <u64 as EndianReversible>::spec_one(),
        ) == v + 1,
        v > u64::MIN ==> v.sub_req(<u64 as EndianReversible>::spec_one()) && v.sub_spec(
            <u64 as EndianReversible>::spec_one(),
        ) == v - 1,
{
    <u64 as EndianReversible>::lemma_one_le_seq();
}

/// `inc` and `dec` on an `EndianInt<_, i64>` add and subtract the integer 1:
/// away from the ends of the range, the step taken from `v` lands on `v + 1`
/// and `v - 1`.
pub proof fn lemma_step_is_one_i64(v: i64)
    ensures
        v < i64::MAX ==> v.add_req(<i64 as EndianReversible>::spec_one()) && v.add_spec(
            <i64 as EndianReversible>::spec_one(),
        ) == v + 1,
        v > i64::MIN ==> v.sub_req(<i64 as EndianReversible>::spec_one()) && v.sub_spec(
            <i64 as EndianReversible>::spec_one(),
        ) == v - 1,
{
    <i64 as EndianReversible>::lemma_one_le_seq();
}

/// `inc` and `dec` on an `EndianInt<_, u128>` add and subtract the integer 1:
/// away from the ends of the range, the step taken from `v` lands on `v + 1`
/// and `v - 1`.
pub proof fn lemma_step_is_one_u128(v: u128)
    ensures
        v < u128::MAX ==> v.add_req(<u128 as EndianReversible>::spec_one()) && v.add_spec(
            <u128 as EndianReversible>::spec_one(),
        ) == v + 1,
        v > u128::MIN ==> v.sub_req(<u128 as EndianReversible>::spec_one()) && v.sub_spec(
            <u128 as EndianReversible>::spec_one(),
        ) == v - 1,
{
    <u128 as EndianReversible>::lemma_one_le_seq();
}

/// `inc` and `dec` on an `EndianInt<_, i128>` add and subtract the integer 1:
/// away from the ends of the range, the step taken from `v` lands on `v + 1`
/// and `v - 1`.
pub proof fn lemma_step_is_one_i128(v: i128)
    ensures
        v < i128::MAX ==> v.add_req(<i128 as EndianReversible>::spec_one()) && v.add_spec(
            <i128 as EndianReversible>::spec_one(),
        ) == v + 1,
        v > i128::MIN ==> v.sub_req(<i128 as EndianReversible>::spec_one()) && v.sub_spec(
            <i128 as EndianReversible>::spec_one(),
        ) == v - 1,
{
    <i128 as EndianReversible>::lemma_one_le_seq();
}

/// `inc` and `dec` on an `EndianInt<_, usize>` add and subtract the integer 1:
/// away from the ends of the range, the step taken from `v` lands on `v + 1`
/// and `v - 1`.
pub proof fn lemma_step_is_one_usize(v: usize)
    ensures
        v < usize::MAX ==> v.add_req(<usize as EndianReversible>::spec_one()) && v.add_spec(
            <usize as EndianReversible>::spec_one(),
        ) == v + 1,
        v > usize::MIN ==> v.sub_req(<usize as EndianReversible>::spec_one()) && v.sub_spec(
            <usize as EndianReversible>::spec_one(),
        ) == v - 1,
{
    <usize as EndianReversible>::lemma_one_le_seq();
}

/// `inc` and `dec` on an `EndianInt<_, isize>` add and subtract the integer 1:
/// away from the ends of the range, the step taken from `v` lands on `v + 1`
/// and `v - 1`.
pub proof fn lemma_step_is_one_isize(v: isize)
    ensures
        v < isize::MAX ==> v.add_req(<isize as EndianReversible>::spec_one()) && v.add_spec(
            <isize as EndianReversible>::spec_one(),
        ) == v + 1,
        v > isize::MIN ==> v.sub_req(<isize as EndianReversible>::spec_one()) && v.sub_spec(
            <isize as EndianReversible>::spec_one(),
        ) == v - 1,
{
    <isize as EndianReversible>::lemma_one_le_seq();
}

/// Converting a `u8` into an `EndianInt` and back gives the `u8`, and
/// converting an `EndianInt` to `u8` and back gives the `EndianInt`: `From`
/// and `Into` carry the native value, whatever the stored byte order.
pub proof fn lemma_from_into_u8<E: Encoding>(n: u8, x: EndianInt<E, u8>)
    ensures
        <u8 as FromSpec<EndianInt<E, u8>>>::from_spec(
            <EndianInt<E, u8> as FromSpec<u8>>::from_spec(n),
        ) == n,
        <EndianInt<E, u8> as FromSpec<u8>>::from_spec(
            <u8 as FromSpec<EndianInt<E, u8>>>::from_spec(x),
        ) == x,
        <u8 as FromSpec<EndianInt<E, u8>>>::from_spec(x) == converted(x.raw(), E::order(), Order::Native),
{
    EndianInt::<E, u8>::lemma_holding(n);
    EndianInt::<E, u8>::lemma_view_determines(x);
}

/// Converting a `i8` into an `EndianInt` and back gives the `i8`, and
/// converting an `EndianInt` to `i8` and back gives the `EndianInt`: `From`
/// and `Into` carry the native value, whatever the stored byte order.
pub proof fn lemma_from_into_i8<E: Encoding>(n: i8, x: EndianInt<E, i8>)
    ensures
        <i8 as FromSpec<EndianInt<E, i8>>>::from_spec(
            <EndianInt<E, i8> as FromSpec<i8>>::from_spec(n),
        ) == n,
        <EndianInt<E, i8> as FromSpec<i8>>::from_spec(
            <i8 as FromSpec<EndianInt<E, i8>>>::from_spec(x),
        ) == x,
        <i8 as FromSpec<EndianInt<E, i8>>>::from_spec(x) == converted(x.raw(), E::order(), Order::Native),
{
    EndianInt::<E, i8>::lemma_holding(n);
    EndianInt::<E, i8>::lemma_view_determines(x);
}

/// Converting a `u16` into an `EndianInt` and back gives the `u16`, and
/// converting an `EndianInt` to `u16` and back gives the `EndianInt`: `From`
/// and `Into` carry the native value, whatever the stored byte order.
pub proof fn lemma_from_into_u16<E: Encoding>(n: u16, x: EndianInt<E, u16>)
    ensures
        <u16 as FromSpec<EndianInt<E, u16>>>::from_spec(
            <EndianInt<E, u16> as FromSpec<u16>>::from_spec(n),
        ) == n,
        <EndianInt<E, u16> as FromSpec<u16>>::from_spec(
            <u16 as FromSpec<EndianInt<E, u16>>>::from_spec(x),
        ) == x,
        <u16 as FromSpec<EndianInt<E, u16>>>::from_spec(x) == converted(x.raw(), E::order(), Order::Native),
{
    EndianInt::<E, u16>::lemma_holding(n);
    EndianInt::<E, u16>::lemma_view_determines(x);
}

/// Converting a `i16` into an `EndianInt` and back gives the `i16`, and
/// converting an `EndianInt` to `i16` and back gives the `EndianInt`: `From`
/// and `Into` carry the native value, whatever the stored byte order.
pub proof fn lemma_from_into_i16<E: Encoding>(n: i16, x: EndianInt<E, i16>)
    ensures
        <i16 as FromSpec<EndianInt<E, i16>>>::from_spec(
            <EndianInt<E, i16> as FromSpec<i16>>::from_spec(n),
        ) == n,
        <EndianInt<E, i16> as FromSpec<i16>>::from_spec(
            <i16 as FromSpec<EndianInt<E, i16>>>::from_spec(x),
        ) == x,
        <i16 as FromSpec<EndianInt<E, i16>>>::from_spec(x) == converted(x.raw(), E::order(), Order::Native),
{
    EndianInt::<E, i16>::lemma_holding(n);
    EndianInt::<E, i16>::lemma_view_determines(x);
}

/// Converting a `u32` into an `EndianInt` and back gives the `u32`, and
/// converting an `EndianInt` to `u32` and back gives the `EndianInt`: `From`
/// and `Into` carry the native value, whatever the stored byte order.
pub proof fn lemma_from_into_u32<E: Encoding>(n: u32, x: EndianInt<E, u32>)
    ensures
        <u32 as FromSpec<EndianInt<E, u32>>>::from_spec(
            <EndianInt<E, u32> as FromSpec<u32>>::from_spec(n),
        ) == n,
        <EndianInt<E, u32> as FromSpec<u32>>::from_spec(
            <u32 as FromSpec<EndianInt<E, u32>>>::from_spec(x),
        ) == x,
        <u32 as FromSpec<EndianInt<E, u32>>>::from_spec(x) == converted(x.raw(), E::order(), Order::Native),
{
    EndianInt::<E, u32>::lemma_holding(n);
    EndianInt::<E, u32>::lemma_view_determines(x);
}

/// Converting a `i32` into an `EndianInt` and back gives the `i32`, and
/// converting an `EndianInt` to `i32` and back gives the `EndianInt`: `From`
/// and `Into` carry the native value, whatever the stored byte order.
pub proof fn lemma_from_into_i32<E: Encoding>(n: i32, x: EndianInt<E, i32>)
    ensures
        <i32 as FromSpec<EndianInt<E, i32>>>::from_spec(
            <EndianInt<E, i32> as FromSpec<i32>>::from_spec(n),
        ) == n,
        <EndianInt<E, i32> as FromSpec<i32>>::from_spec(
            <i32 as FromSpec<EndianInt<E, i32>>>::from_spec(x),
        ) == x,
        <i32 as FromSpec<EndianInt<E, i32>>>::from_spec(x) == converted(x.raw(), E::order(), Order::Native),
{
    EndianInt::<E, i32>::lemma_holding(n);
    EndianInt::<E, i32>::lemma_view_determines(x);
}

/// Converting a `u64` into an `EndianInt` and back gives the `u64`, and
/// converting an `EndianInt` to `u64` and back gives the `EndianInt`: `From`
/// and `Into` carry the native value, whatever the stored byte order.
pub proof fn lemma_from_into_u64<E: Encoding>(n: u64, x: EndianInt<E, u64>)
    ensures
        <u64 as FromSpec<EndianInt<E, u64>>>::from_spec(
            <EndianInt<E, u64> as FromSpec<u64>>::from_spec(n),
        ) == n,
        <EndianInt<E, u64> as FromSpec<u64>>::from_spec(
            <u64 as FromSpec<EndianInt<E, u64>>>::from_spec(x),
        ) == x,
        <u64 as FromSpec<EndianInt<E, u64>>>::from_spec(x) == converted(x.raw(), E::order(), Order::Native),
{
    EndianInt::<E, u64>::lemma_holding(n);
    EndianInt::<E, u64>::lemma_view_determines(x);
}

/// Converting a `i64` into an `EndianInt` and back gives the `i64`, and
/// converting an `EndianInt` to `i64` and back gives the `EndianInt`: `From`
/// and `Into` carry the native value, whatever the stored byte order.
pub proof fn lemma_from_into_i64<E: Encoding>(n: i64, x: EndianInt<E, i64>)
    ensures
        <i64 as FromSpec<EndianInt<E, i64>>>::from_spec(
            <EndianInt<E, i64> as FromSpec<i64>>::from_spec(n),
        ) == n,
        <EndianInt<E, i64> as FromSpec<i64>>::from_spec(
            <i64 as FromSpec<EndianInt<E, i64>>>::from_spec(x),
        ) == x,
        <i64 as FromSpec<EndianInt<E, i64>>>::from_spec(x) == converted(x.raw(), E::order(), Order::Native),
{
    EndianInt::<E, i64>::lemma_holding(n);
    EndianInt::<E, i64>::lemma_view_determines(x);
}

/// Converting a `u128` into an `EndianInt` and back gives the `u128`, and
/// converting an `EndianInt` to `u128` and back gives the `EndianInt`: `From`
/// and `Into` carry the native value, whatever the stored byte order.
pub proof fn lemma_from_into_u128<E: Encoding>(n: u128, x: EndianInt<E, u128>)
    ensures
        <u128 as FromSpec<EndianInt<E, u128>>>::from_spec(
            <EndianInt<E, u128> as FromSpec<u128>>::from_spec(n),
        ) == n,
        <EndianInt<E, u128> as FromSpec<u128>>::from_spec(
            <u128 as FromSpec<EndianInt<E, u128>>>::from_spec(x),
        ) == x,
        <u128 as FromSpec<EndianInt<E, u128>>>::from_spec(x) == converted(x.raw(), E::order(), Order::Native),
{
    EndianInt::<E, u128>::lemma_holding(n);
    EndianInt::<E, u128>::lemma_view_determines(x);
}

/// Converting a `i128` into an `EndianInt` and back gives the `i128`, and
/// converting an `EndianInt` to `i128` and back gives the `EndianInt`: `From`
/// and `Into` carry the native value, whatever the stored byte order.
pub proof fn lemma_from_into_i128<E: Encoding>(n: i128, x: EndianInt<E, i128>)
    ensures
        <i128 as FromSpec<EndianInt<E, i128>>>::from_spec(
            <EndianInt<E, i128> as FromSpec<i128>>::from_spec(n),
        ) == n,
        <EndianInt<E, i128> as FromSpec<i128>>::from_spec(
            <i128 as FromSpec<EndianInt<E, i128>>>::from_spec(x),
        ) == x,
        <i128 as FromSpec<EndianInt<E, i128>>>::from_spec(x) == converted(x.raw(), E::order(), Order::Native),
{
    EndianInt::<E, i128>::lemma_holding(n);
    EndianInt::<E, i128>::lemma_view_determines(x);
}

/// Converting a `usize` into an `EndianInt` and back gives the `usize`, and
/// converting an `EndianInt` to `usize` and back gives the `EndianInt`: `From`
/// and `Into` carry the native value, whatever the stored byte order.
pub proof fn lemma_from_into_usize<E: Encoding>(n: usize, x: EndianInt<E, usize>)
    ensures
        <usize as FromSpec<EndianInt<E, usize>>>::from_spec(
            <EndianInt<E, usize> as FromSpec<usize>>::from_spec(n),
        ) == n,
        <EndianInt<E, usize> as FromSpec<usize>>::from_spec(
            <usize as FromSpec<EndianInt<E, usize>>>::from_spec(x),
        ) == x,
        <usize as FromSpec<EndianInt<E, usize>>>::from_spec(x) == converted(x.raw(), E::order(), Order::Native),
{
    EndianInt::<E, usize>::lemma_holding(n);
    EndianInt::<E, usize>::lemma_view_determines(x);
}

/// Converting a `isize` into an `EndianInt` and back gives the `isize`, and
/// converting an `EndianInt` to `isize` and back gives the `EndianInt`: `From`
/// and `Into` carry the native value, whatever the stored byte order.
pub proof fn lemma_from_into_isize<E: Encoding>(n: isize, x: EndianInt<E, isize>)
    ensures
        <isize as FromSpec<EndianInt<E, isize>>>::from_spec(
            <EndianInt<E, isize> as FromSpec<isize>>::from_spec(n),
        ) == n,
        <EndianInt<E, isize> as FromSpec<isize>>::from_spec(
            <isize as FromSpec<EndianInt<E, isize>>>::from_spec(x),
        ) == x,
        <isize as FromSpec<EndianInt<E, isize>>>::from_spec(x) == converted(x.raw(), E::order(), Order::Native),
{
    EndianInt::<E, isize>::lemma_holding(n);
    EndianInt::<E, isize>::lemma_view_determines(x);
}

/// Two values of one encoding hold the same stored bytes exactly when they
/// hold the same native value, so comparing stored bytes (as `==` and the
/// hash do) is comparing values.
pub proof fn lemma_int_stored_iff_value<E: Encoding, T: EndianReversible>(
    a: EndianInt<E, T>,
    b: EndianInt<E, T>,
)
    ensures
        (a.raw() == b.raw()) <==> (a@ == b@),
        (a@ == b@) ==> a == b,
{
    lemma_converted_roundtrip(a.raw(), E::order(), Order::Native);
    lemma_converted_roundtrip(b.raw(), E::order(), Order::Native);
}

/// Every operator of an `EndianInt` acts on the native values: the result
/// holds, in native order, the operator applied to the operands' native
/// values (for a right operand of either `EndianInt` or the plain type).
pub proof fn lemma_operators_on_native_values<E: Encoding, T>(a: EndianInt<E, T>, b: EndianInt<E, T>, c: T)
    where
        T: EndianReversible + Add<Output = T> + Sub<Output = T> + Mul<Output = T> + Div<Output = T>
            + Rem<Output = T> + BitAnd<Output = T> + BitOr<Output = T> + BitXor<Output = T>
            + Shl<Output = T> + Shr<Output = T> + Neg<Output = T> + Not<Output = T>,
    ensures
        a.add_spec(b)@ == a@.add_spec(b@),
        a.sub_spec(b)@ == a@.sub_spec(b@),
        a.mul_spec(b)@ == a@.mul_spec(b@),
        a.div_spec(b)@ == a@.div_spec(b@),
        a.rem_spec(b)@ == a@.rem_spec(b@),
        a.bitand_spec(b)@ == a@.bitand_spec(b@),
        a.bitor_spec(b)@ == a@.bitor_spec(b@),
        a.bitxor_spec(b)@ == a@.bitxor_spec(b@),
        a.shl_spec(b)@ == a@.shl_spec(b@),
        a.shr_spec(b)@ == a@.shr_spec(b@),
        a.add_spec(c)@ == a@.add_spec(c),
        a.sub_spec(c)@ == a@.sub_spec(c),
        a.mul_spec(c)@ == a@.mul_spec(c),
        a.div_spec(c)@ == a@.div_spec(c),
        a.rem_spec(c)@ == a@.rem_spec(c),
        a.bitand_spec(c)@ == a@.bitand_spec(c),
        a.bitor_spec(c)@ == a@.bitor_spec(c),
        a.bitxor_spec(c)@ == a@.bitxor_spec(c),
        a.shl_spec(c)@ == a@.shl_spec(c),
        a.shr_spec(c)@ == a@.shr_spec(c),
        a.neg_spec()@ == a@.neg_spec(),
        a.not_spec()@ == a@.not_spec(),
{
    broadcast use EndianInt::lemma_holding;
}

/// Building an `EndianInt` commutes with every operator: for native values
/// `a` and `b`, `new(a) op new(b)` and `new(a) op b` both hold `a op b`.
pub proof fn lemma_operators_commute_with_new<E: Encoding, T>(a: T, b: T)
    where
        T: EndianReversible + Add<Output = T> + Sub<Output = T> + Mul<Output = T> + Div<Output = T>
            + Rem<Output = T> + BitAnd<Output = T> + BitOr<Output = T> + BitXor<Output = T>
            + Shl<Output = T> + Shr<Output = T> + Neg<Output = T> + Not<Output = T>,
    ensures
        EndianInt::<E, T>::holding(a).add_spec(EndianInt::<E, T>::holding(b)) == EndianInt::<E, T>::holding(a.add_spec(b)),
        EndianInt::<E, T>::holding(a).add_spec(b) == EndianInt::<E, T>::holding(a.add_spec(b)),
        EndianInt::<E, T>::holding(a).sub_spec(EndianInt::<E, T>::holding(b)) == EndianInt::<E, T>::holding(a.sub_spec(b)),
        EndianInt::<E, T>::holding(a).sub_spec(b) == EndianInt::<E, T>::holding(a.sub_spec(b)),
        EndianInt::<E, T>::holding(a).mul_spec(EndianInt::<E, T>::holding(b)) == EndianInt::<E, T>::holding(a.mul_spec(b)),
        EndianInt::<E, T>::holding(a).mul_spec(b) == EndianInt::<E, T>::holding(a.mul_spec(b)),
        EndianInt::<E, T>::holding(a).div_spec(EndianInt::<E, T>::holding(b)) == EndianInt::<E, T>::holding(a.div_spec(b)),
        EndianInt::<E, T>::holding(a).div_spec(b) == EndianInt::<E, T>::holding(a.div_spec(b)),
        EndianInt::<E, T>::holding(a).rem_spec(EndianInt::<E, T>::holding(b)) == EndianInt::<E, T>::holding(a.rem_spec(b)),
        EndianInt::<E, T>::holding(a).rem_spec(b) == EndianInt::<E, T>::holding(a.rem_spec(b)),
        EndianInt::<E, T>::holding(a).bitand_spec(EndianInt::<E, T>::holding(b)) == EndianInt::<E, T>::holding(a.bitand_spec(b)),
        EndianInt::<E, T>::holding(a).bitand_spec(b) == EndianInt::<E, T>::holding(a.bitand_spec(b)),
        EndianInt::<E, T>::holding(a).bitor_spec(EndianInt::<E, T>::holding(b)) == EndianInt::<E, T>::holding(a.bitor_spec(b)),
        EndianInt::<E, T>::holding(a).bitor_spec(b) == EndianInt::<E, T>::holding(a.bitor_spec(b)),
        EndianInt::<E, T>::holding(a).bitxor_spec(EndianInt::<E, T>::holding(b)) == EndianInt::<E, T>::holding(a.bitxor_spec(b)),
        EndianInt::<E, T>::holding(a).bitxor_spec(b) == EndianInt::<E, T>::holding(a.bitxor_spec(b)),
        EndianInt::<E, T>::holding(a).shl_spec(EndianInt::<E, T>::holding(b)) == EndianInt::<E, T>::holding(a.shl_spec(b)),
        EndianInt::<E, T>::holding(a).shl_spec(b) == EndianInt::<E, T>::holding(a.shl_spec(b)),
        EndianInt::<E, T>::holding(a).shr_spec(EndianInt::<E, T>::holding(b)) == EndianInt::<E, T>::holding(a.shr_spec(b)),
        EndianInt::<E, T>::holding(a).shr_spec(b) == EndianInt::<E, T>::holding(a.shr_spec(b)),
        EndianInt::<E, T>::holding(a).neg_spec() == EndianInt::<E, T>::holding(a.neg_spec()),
        EndianInt::<E, T>::holding(a).not_spec() == EndianInt::<E, T>::holding(a.not_spec()),
{
    EndianInt::<E, T>::lemma_holding(a);
    EndianInt::<E, T>::lemma_holding(b);
}

/// `EndianInt`s are ordered by their native values, whatever the stored
/// byte order: comparing two gives what comparing their `get()` values gives.
pub proof fn lemma_int_order_follows_values<E: Encoding, T: EndianReversible + PartialOrd>(
    a: EndianInt<E, T>,
    b: EndianInt<E, T>,
    r: Option<Ordering>,
)
    requires
        call_ensures(EndianInt::<E, T>::partial_cmp, (&a, &b), r),
    ensures
        call_ensures(T::partial_cmp, (&a@, &b@), r),
        a.partial_cmp_spec(&b) == a@.partial_cmp_spec(&b@),
        T::obeys_partial_cmp_spec() ==> r == a@.partial_cmp_spec(&b@),
{
}

/// Where `==` on `T` is equality of values (as for every integer type),
/// `==` on `EndianInt`s of one encoding is equality too: it holds exactly when
/// the two hold the same native value.
pub proof fn lemma_int_eq_is_value_eq<E: Encoding, T: EndianReversible + PartialEq>(
    a: EndianInt<E, T>,
    b: EndianInt<E, T>,
)
    requires
        vstd::laws_eq::obeys_concrete_eq::<T>(),
    ensures
        <EndianInt<E, T> as PartialEqSpec>::obeys_eq_spec(),
        a.eq_spec(&b) <==> a@ == b@,
        a.eq_spec(&b) <==> a == b,
{
    reveal(vstd::laws_eq::obeys_concrete_eq);
    lemma_converted_roundtrip(a.raw(), E::order(), Order::Native);
    lemma_converted_roundtrip(b.raw(), E::order(), Order::Native);
}

/// Implicit-conversion big-endian arithmetic type.
pub type BigEndianInt<T> = EndianInt<BigEndian, T>;

/// Implicit-conversion little-endian arithmetic type.
pub type LittleEndianInt<T> = EndianInt<LittleEndian, T>;

/// Implicit-conversion native-endian arithmetic type.
pub type NativeEndianInt<T> = EndianInt<NativeEndian, T>;

} // verus!
