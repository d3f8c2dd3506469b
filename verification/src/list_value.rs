//! The list variant of the value model: one typed sub-list per supported
//! element kind, stored side by side as the wire schema defines them.
//!
//! Exactly one sub-list is meant to hold data.  Extraction for an element
//! type resolves the absent-vs-empty ambiguity with the one non-trivial rule
//! of this library: if the matching sub-list is non-empty, it wins; if every
//! sub-list is empty (the encoded form of such a list is empty, so nothing
//! distinguishes it from an absent list), the result is the empty sequence
//! for any requested element type; otherwise some other sub-list holds data
//! and the request fails, handing the list back unchanged.

use vstd::prelude::*;

verus! {

/// A list of homogeneous scalars, kept in the sub-list that matches the
/// element type.  The `f64_value` sub-list carries 64-bit floats as their
/// IEEE-754 bit patterns; the library never interprets those bits.
#[derive(Clone, Debug, PartialEq, Eq)]
pub struct ListValue {
    pub i64_value: Vec<i64>,
    pub f64_value: Vec<u64>,
    pub blob_value: Vec<Vec<u8>>,
    pub text_value: Vec<String>,
}

impl ListValue {
    /// Total number of elements over all sub-lists.  The wire encoding of a
    /// list is empty exactly when this is zero.
    pub open spec fn total_len(self) -> nat {
        self.i64_value@.len() + self.f64_value@.len() + self.blob_value@.len()
            + self.text_value@.len()
    }

    /// A list with every sub-list empty.
    pub fn new() -> (r: ListValue)
        ensures
            r.total_len() == 0,
    {
        ListValue {
            i64_value: Vec::new(),
            f64_value: Vec::new(),
            blob_value: Vec::new(),
            text_value: Vec::new(),
        }
    }

    /// Whether every sub-list is empty, which is exactly when the encoded
    /// form of the list holds no data at all.
    pub fn is_empty(&self) -> (r: bool)
        ensures
            r == (self.total_len() == 0),
    {
        self.i64_value.len() == 0 && self.f64_value.len() == 0 && self.blob_value.len() == 0
            && self.text_value.len() == 0
    }
}

/// An element type that one of the sub-lists of a [`ListValue`] can hold.
pub trait ListElem: Sized {
    /// The sequence of elements of this type that a list holds, decoded from
    /// its matching sub-list.
    spec fn sub_seq(l: ListValue) -> Seq<Self>;

    /// The matching sub-list is one of the sub-lists, so it never holds more
    /// elements than the whole list.
    proof fn lemma_sub_seq_le_total(l: ListValue)
        ensures
            Self::sub_seq(l).len() <= l.total_len(),
    ;

    /// Length of the matching sub-list.
    fn sub_len(l: &ListValue) -> (n: usize)
        ensures
            n == Self::sub_seq(*l).len(),
    ;

    /// Move the matching sub-list out of the list, decoded.
    fn take_sub(l: ListValue) -> (r: Vec<Self>)
        ensures
            r@ == Self::sub_seq(l),
    ;

    /// Build a list holding exactly these elements, every other sub-list
    /// empty.
    fn host(v: Vec<Self>) -> (r: ListValue)
        ensures
            Self::sub_seq(r) == v@,
            r.total_len() == v@.len(),
    ;
}

impl ListElem for i64 {
    open spec fn sub_seq(l: ListValue) -> Seq<i64> {
        l.i64_value@
    }

    proof fn lemma_sub_seq_le_total(l: ListValue) {
    }

    fn sub_len(l: &ListValue) -> (n: usize) {
        l.i64_value.len()
    }

    fn take_sub(l: ListValue) -> (r: Vec<i64>) {
        l.i64_value
    }

    fn host(v: Vec<i64>) -> (r: ListValue) {
        ListValue {
            i64_value: v,
            f64_value: Vec::new(),
            blob_value: Vec::new(),
            text_value: Vec::new(),
        }
    }
}

impl ListElem for u64 {
    /// Hosted by the `f64_value` sub-list: each element is the IEEE-754 bit
    /// pattern of a 64-bit float, carried through without interpretation.
    open spec fn sub_seq(l: ListValue) -> Seq<u64> {
        l.f64_value@
    }

    proof fn lemma_sub_seq_le_total(l: ListValue) {
    }

    fn sub_len(l: &ListValue) -> (n: usize) {
        l.f64_value.len()
    }

    fn take_sub(l: ListValue) -> (r: Vec<u64>) {
        l.f64_value
    }

    fn host(v: Vec<u64>) -> (r: ListValue) {
        ListValue {
            i64_value: Vec::new(),
            f64_value: v,
            blob_value: Vec::new(),
            text_value: Vec::new(),
        }
    }
}

impl ListElem for Vec<u8> {
    open spec fn sub_seq(l: ListValue) -> Seq<Vec<u8>> {
        l.blob_value@
    }

    proof fn lemma_sub_seq_le_total(l: ListValue) {
    }

    fn sub_len(l: &ListValue) -> (n: usize) {
        l.blob_value.len()
    }

    fn take_sub(l: ListValue) -> (r: Vec<Vec<u8>>) {
        l.blob_value
    }

    fn host(v: Vec<Vec<u8>>) -> (r: ListValue) {
        ListValue {
            i64_value: Vec::new(),
            f64_value: Vec::new(),
            blob_value: v,
            text_value: Vec::new(),
        }
    }
}

impl ListElem for String {
    open spec fn sub_seq(l: ListValue) -> Seq<String> {
        l.text_value@
    }

    proof fn lemma_sub_seq_le_total(l: ListValue) {
    }

    fn sub_len(l: &ListValue) -> (n: usize) {
        l.text_value.len()
    }

    fn take_sub(l: ListValue) -> (r: Vec<String>) {
        l.text_value
    }

    fn host(v: Vec<String>) -> (r: ListValue) {
        ListValue {
            i64_value: Vec::new(),
            f64_value: Vec::new(),
            blob_value: Vec::new(),
            text_value: v,
        }
    }
}

impl ListElem for bool {
    /// Booleans share the `i64_value` sub-list: `true` is stored as `1`,
    /// `false` as `0`, and any non-zero integer reads back as `true`.
    open spec fn sub_seq(l: ListValue) -> Seq<bool> {
        l.i64_value@.map_values(|x: i64| x != 0)
    }

    proof fn lemma_sub_seq_le_total(l: ListValue) {
    }

    fn sub_len(l: &ListValue) -> (n: usize) {
        l.i64_value.len()
    }

    fn take_sub(l: ListValue) -> (r: Vec<bool>) {
        let mut out: Vec<bool> = Vec::new();
        let ints = l.i64_value;
        let mut i: usize = 0;
        while i < ints.len()
            invariant
                i <= ints@.len(),
                out@ == ints@.take(i as int).map_values(|x: i64| x != 0),
            decreases ints@.len() - i,
        {
            out.push(ints[i] != 0);
            proof {
                assert(ints@.take(i + 1 as int).drop_last() =~= ints@.take(i as int));
                assert(ints@.take(i + 1 as int).map_values(|x: i64| x != 0) =~= ints@.take(
                    i as int,
                ).map_values(|x: i64| x != 0).push(ints@[i as int] != 0));
            }
            i = i + 1;
        }
        proof {
            assert(ints@.take(ints@.len() as int) =~= ints@);
        }
        out
    }

    fn host(v: Vec<bool>) -> (r: ListValue) {
        let mut ints: Vec<i64> = Vec::new();
        let mut i: usize = 0;
        while i < v.len()
            invariant
                i <= v@.len(),
                ints@ == v@.take(i as int).map_values(|b: bool| if b { 1i64 } else { 0i64 }),
            decreases v@.len() - i,
        {
            ints.push(if v[i] { 1i64 } else { 0i64 });
            proof {
                assert(v@.take(i + 1 as int).drop_last() =~= v@.take(i as int));
                assert(v@.take(i + 1 as int).map_values(|b: bool| if b { 1i64 } else { 0i64 })
                    =~= v@.take(i as int).map_values(|b: bool| if b { 1i64 } else { 0i64 }).push(
                    if v@[i as int] { 1i64 } else { 0i64 },
                ));
            }
            i = i + 1;
        }
        proof {
            assert(v@.take(v@.len() as int) =~= v@);
        }
        let r = ListValue {
            i64_value: ints,
            f64_value: Vec::new(),
            blob_value: Vec::new(),
            text_value: Vec::new(),
        };
        proof {
            assert(Self::sub_seq(r) =~= v@);
        }
        r
    }
}

/// Whether extraction of a sequence of `T` from `l` succeeds: either the
/// matching sub-list holds data, or the whole list is empty (in which case
/// the empty sequence is a valid reading for any element type).
pub open spec fn list_extract_ok<T: ListElem>(l: ListValue) -> bool {
    T::sub_seq(l).len() > 0 || l.total_len() == 0
}

impl ListValue {
    /// Build a list from a vector of elements of one supported type.
    pub fn from_vec<T: ListElem>(v: Vec<T>) -> (r: ListValue)
        ensures
            T::sub_seq(r) == v@,
            r.total_len() == v@.len(),
    {
        T::host(v)
    }

    /// Extract the elements of one supported type, or hand the list back
    /// unchanged when another sub-list holds the data.
    pub fn try_into_vec<T: ListElem>(self) -> (r: Result<Vec<T>, ListValue>)
        ensures
            r is Ok <==> list_extract_ok::<T>(self),
            r matches Ok(v) ==> v@ == T::sub_seq(self),
            r matches Err(e) ==> e == self,
    {
        if T::sub_len(&self) > 0 || self.is_empty() {
            Ok(T::take_sub(self))
        } else {
            Err(self)
        }
    }
}

/// Whether `l` is exactly a one-element list of `T`: its matching sub-list
/// holds one element and nothing else holds any.  Such a list is the accepted
/// alternate encoding of a single scalar.
pub open spec fn list_singleton_ok<T: ListElem>(l: ListValue) -> bool {
    T::sub_seq(l).len() == 1 && l.total_len() == 1
}

impl ListValue {
    /// Build a one-element list: the alternate encoding of a single scalar.
    pub fn from_elem<T: ListElem>(x: T) -> (r: ListValue)
        ensures
            T::sub_seq(r).len() == 1,
            T::sub_seq(r)[0] == x,
            r.total_len() == 1,
    {
        let mut v: Vec<T> = Vec::new();
        v.push(x);
        T::host(v)
    }

    /// Unwrap a one-element list of `T` back into the scalar it encodes, or
    /// hand the list back unchanged when it is anything else.
    pub fn try_into_elem<T: ListElem>(self) -> (r: Result<T, ListValue>)
        ensures
            r is Ok <==> list_singleton_ok::<T>(self),
            r matches Ok(x) ==> x == T::sub_seq(self)[0],
            r matches Err(e) ==> e == self,
    {
        if T::sub_len(&self) == 1 && self.total_len_exec() == 1u128 {
            let mut v = T::take_sub(self);
            let x = v.remove(0);
            Ok(x)
        } else {
            Err(self)
        }
    }

    /// Total number of elements over all sub-lists, as executable code.  The
    /// sum is taken in a wide integer so that it cannot overflow.
    pub fn total_len_exec(&self) -> (n: u128)
        ensures
            n == self.total_len(),
    {
        self.i64_value.len() as u128 + self.f64_value.len() as u128
            + self.blob_value.len() as u128 + self.text_value.len() as u128
    }
}

/// A list built from a sequence of elements always hands that sequence back:
/// the round trip through the list representation is lossless for every
/// supported element type, including the empty sequence.
pub proof fn lemma_list_round_trip<T: ListElem>(l: ListValue, s: Seq<T>)
    requires
        T::sub_seq(l) == s,
        l.total_len() == s.len(),
    ensures
        list_extract_ok::<T>(l),
{
}

/// A list with every sub-list empty extracts as the empty sequence for every
/// requested element type, rather than failing.
pub proof fn lemma_empty_list_extracts_any<T: ListElem>(l: ListValue)
    requires
        l.total_len() == 0,
    ensures
        list_extract_ok::<T>(l),
        T::sub_seq(l).len() == 0,
{
    T::lemma_sub_seq_le_total(l);
}

/// A list whose matching sub-list is empty while another sub-list holds data
/// signals "wrong element type requested" and is handed back unchanged.
pub proof fn lemma_wrong_type_list_rejected<T: ListElem>(l: ListValue)
    requires
        T::sub_seq(l).len() == 0,
        l.total_len() > 0,
    ensures
        !list_extract_ok::<T>(l),
{
}

} // verus!
