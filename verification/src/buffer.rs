//! Endian buffer types: a value held in a fixed byte order, converted to and
//! from native order explicitly with `get` and `set`.
use core::cmp::Ordering;
use core::marker::PhantomData;
use vstd::prelude::*;
use vstd::std_specs::cmp::{PartialEqSpec, PartialOrdSpec};

use crate::conversion::{
    big_to_native, converted, lemma_converted_roundtrip, little_to_native, native_to_big,
    native_to_little, EndianReversible, Order,
};

verus! {

/// Marker type: store in big-endian byte order.
#[derive(Debug, Clone, Copy, PartialEq, Eq, Structural, Hash)]
pub struct BigEndian;

/// Marker type: store in little-endian byte order.
#[derive(Debug, Clone, Copy, PartialEq, Eq, Structural, Hash)]
pub struct LittleEndian;

/// Marker type: store in the machine's native byte order.
#[derive(Debug, Clone, Copy, PartialEq, Eq, Structural, Hash)]
pub struct NativeEndian;

/// Defines how a value is converted to and from its stored representation.
pub trait Encoding: Copy {
    /// The byte order in which values are stored.
    spec fn order() -> Order;

    /// Converts a native-endian value to the stored byte order.
    fn to_stored<T: EndianReversible>(native: T) -> (r: T)
        ensures
            r == converted(native, Order::Native, Self::order()),
    ;

    /// Converts a stored value back to native byte order.
    fn to_native<T: EndianReversible>(stored: T) -> (r: T)
        ensures
            r == converted(stored, Self::order(), Order::Native),
    ;
}

impl Encoding for BigEndian {
    open spec fn order() -> Order {
        Order::Big
    }

    fn to_stored<T: EndianReversible>(v: T) -> (r: T) {
        native_to_big(v)
    }

    fn to_native<T: EndianReversible>(v: T) -> (r: T) {
        big_to_native(v)
    }
}

impl Encoding for LittleEndian {
    open spec fn order() -> Order {
        Order::Little
    }

    fn to_stored<T: EndianReversible>(v: T) -> (r: T) {
        native_to_little(v)
    }

    fn to_native<T: EndianReversible>(v: T) -> (r: T) {
        little_to_native(v)
    }
}

impl Encoding for NativeEndian {
    open spec fn order() -> Order {
        Order::Native
    }

    fn to_stored<T: EndianReversible>(v: T) -> (r: T) {
        v
    }

    fn to_native<T: EndianReversible>(v: T) -> (r: T) {
        v
    }
}

/// A value of type `T` held in the byte order dictated by `E`.
///
/// The value is kept already converted to the target byte order, so its
/// in-memory bytes are directly suitable for binary I/O.
#[derive(Debug, Copy, Hash)]
pub struct EndianBuf<E: Encoding, T: EndianReversible> {
    stored: T,
    _enc: PhantomData<E>,
}

impl<E: Encoding, T: EndianReversible> EndianBuf<E, T> {
    /// The stored representation, in the byte order of `E`.
    pub closed spec fn raw(self) -> T {
        self.stored
    }

    /// Constructs from a native-endian value.
    pub fn new(native: T) -> (r: Self)
        ensures
            r.raw() == converted(native, Order::Native, E::order()),
            r@ == native,
    {
        let r = EndianBuf { stored: E::to_stored(native), _enc: PhantomData };
        proof {
            crate::conversion::lemma_converted_roundtrip(native, Order::Native, E::order());
        }
        r
    }

    /// Returns the value in native byte order.
    pub fn get(self) -> (r: T)
        ensures
            r == self@,
    {
        E::to_native(self.stored)
    }

    /// Overwrites with a native-endian value.
    pub fn set(&mut self, native: T)
        ensures
            final(self).raw() == converted(native, Order::Native, E::order()),
            final(self)@ == native,
    {
        self.stored = E::to_stored(native);
        proof {
            crate::conversion::lemma_converted_roundtrip(native, Order::Native, E::order());
        }
    }

    /// The stored representation, in the byte order of `E`.
    pub fn data(&self) -> (r: &T)
        ensures
            *r == self.raw(),
    {
        &self.stored
    }

    /// The smaller of two buffers by their native values (`self` on a tie).
    pub fn min(self, other: Self) -> (r: Self)
        where
            T: PartialOrd,
        requires
            T::obeys_partial_cmp_spec(),
        ensures
            r == (if other@.partial_cmp_spec(&self@) == Some(Ordering::Less) {
                other
            } else {
                self
            }),
    {
        let a = self.get();
        let b = other.get();
        if b < a {
            other
        } else {
            self
        }
    }

    /// The larger of two buffers by their native values (`other` on a tie).
    pub fn max(self, other: Self) -> (r: Self)
        where
            T: PartialOrd,
        requires
            T::obeys_partial_cmp_spec(),
        ensures
            r == (if other@.partial_cmp_spec(&self@) == Some(Ordering::Less) {
                self
            } else {
                other
            }),
    {
        let a = self.get();
        let b = other.get();
        if b < a {
            self
        } else {
            other
        }
    }

    /// Mutable access to the stored representation.
    pub fn data_mut(&mut self) -> (r: &mut T)
        ensures
            *r == old(self).raw(),
            final(self).raw() == *final(r),
    {
        &mut self.stored
    }
}

/// Two buffers of one encoding hold the same stored bytes exactly when they
/// hold the same native value, so comparing stored bytes (as `==` and the
/// hash do) is comparing values; and a buffer is determined by its value.
pub proof fn lemma_buf_stored_iff_value<E: Encoding, T: EndianReversible>(
    a: EndianBuf<E, T>,
    b: EndianBuf<E, T>,
)
    ensures
        (a.raw() == b.raw()) <==> (a@ == b@),
        (a@ == b@) ==> a == b,
{
    crate::conversion::lemma_converted_roundtrip(a.raw(), E::order(), Order::Native);
    crate::conversion::lemma_converted_roundtrip(b.raw(), E::order(), Order::Native);
}

/// Buffers are ordered by their native values, whatever the stored byte
/// order: comparing two buffers gives what comparing their `get()` values
/// gives.
pub proof fn lemma_buf_order_follows_values<E: Encoding, T: EndianReversible + PartialOrd>(
    a: EndianBuf<E, T>,
    b: EndianBuf<E, T>,
    r: Option<Ordering>,
)
    requires
        call_ensures(EndianBuf::<E, T>::partial_cmp, (&a, &b), r),
    ensures
        call_ensures(T::partial_cmp, (&a@, &b@), r),
        a.partial_cmp_spec(&b) == a@.partial_cmp_spec(&b@),
        T::obeys_partial_cmp_spec() ==> r == a@.partial_cmp_spec(&b@),
{
}

/// Where `==` on `T` is equality of values (as for every integer type),
/// `==` on `EndianBuf`s of one encoding is equality too: it holds exactly when
/// the two hold the same native value.
pub proof fn lemma_buf_eq_is_value_eq<E: Encoding, T: EndianReversible + PartialEq>(
    a: EndianBuf<E, T>,
    b: EndianBuf<E, T>,
)
    requires
        vstd::laws_eq::obeys_concrete_eq::<T>(),
    ensures
        <EndianBuf<E, T> as PartialEqSpec>::obeys_eq_spec(),
        a.eq_spec(&b) <==> a@ == b@,
        a.eq_spec(&b) <==> a == b,
{
    reveal(vstd::laws_eq::obeys_concrete_eq);
    lemma_converted_roundtrip(a.raw(), E::order(), Order::Native);
    lemma_converted_roundtrip(b.raw(), E::order(), Order::Native);
}

impl<E: Encoding, T: EndianReversible> View for EndianBuf<E, T> {
    type V = T;

    /// The value in native byte order.
    open spec fn view(&self) -> T {
        converted(self.raw(), E::order(), Order::Native)
    }
}

impl<E: Encoding, T: EndianReversible> Clone for EndianBuf<E, T> {
    fn clone(&self) -> (r: Self)
        ensures
            r == *self,
    {
        EndianBuf { stored: self.stored, _enc: PhantomData }
    }
}

/// Equality compares the stored bytes.
impl<E: Encoding, T: EndianReversible + PartialEq> PartialEq for EndianBuf<E, T> {
    /// What `==` on `T` gives for the stored values.
    fn eq(&self, other: &Self) -> (r: bool)
        ensures
            call_ensures(T::eq, (&self.raw(), &other.raw()), r),
    {
        self.stored == other.stored
    }
}

impl<E: Encoding, T: EndianReversible + PartialEq> vstd::std_specs::cmp::PartialEqSpecImpl for EndianBuf<E, T> {
    open spec fn obeys_eq_spec() -> bool {
        T::obeys_eq_spec()
    }

    open spec fn eq_spec(&self, other: &Self) -> bool {
        self.raw().eq_spec(&other.raw())
    }
}

impl<E: Encoding, T: EndianReversible + Eq> Eq for EndianBuf<E, T> {
}

/// Ordering compares the native values.
impl<E: Encoding, T: EndianReversible + PartialOrd> PartialOrd for EndianBuf<E, T> {
    /// What `partial_cmp` on `T` gives for the native values.
    fn partial_cmp(&self, other: &Self) -> (r: Option<Ordering>)
        ensures
            call_ensures(T::partial_cmp, (&self@, &other@), r),
    {
        let a = self.get();
        let b = other.get();
        a.partial_cmp(&b)
    }
}

impl<E: Encoding, T: EndianReversible + PartialOrd> vstd::std_specs::cmp::PartialOrdSpecImpl for EndianBuf<E, T> {
    open spec fn obeys_partial_cmp_spec() -> bool {
        T::obeys_partial_cmp_spec()
    }

    open spec fn partial_cmp_spec(&self, other: &Self) -> Option<Ordering> {
        self@.partial_cmp_spec(&other@)
    }
}

impl<E: Encoding, T: EndianReversible + Default> Default for EndianBuf<E, T> {
    fn default() -> (r: Self)
        ensures
            call_ensures(T::default, (), r@),
    {
        Self::new(T::default())
    }
}

/// Value stored in big-endian byte order; explicit `get` / `set`.
pub type BigEndianBuf<T> = EndianBuf<BigEndian, T>;

/// Value stored in little-endian byte order; explicit `get` / `set`.
pub type LittleEndianBuf<T> = EndianBuf<LittleEndian, T>;

/// Value stored in native byte order; explicit `get` / `set`.
pub type NativeEndianBuf<T> = EndianBuf<NativeEndian, T>;

} // verus!
