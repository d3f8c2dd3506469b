//! The tagged union at the centre of the value model, its optional wrapper,
//! and the conversions between native types and the union.
//!
//! Constructors are total: every supported native value has a variant.
//! Extractors are partial: on a tag mismatch they fail by handing the
//! original value back unchanged — never a lossy error — so the caller can
//! inspect what was actually present or retry with another expected type.
//! Booleans have no variant of their own: they are encoded as `I64Value`
//! (`1` for true, `0` for false) and any non-zero integer reads back as
//! true.  A scalar may alternatively arrive as a one-element list of the
//! same element type; scalar extraction accepts that encoding after the
//! exact tag match fails.

use vstd::prelude::*;
use crate::list_value::{list_extract_ok, list_singleton_ok, ListElem, ListValue};
use crate::map_value::{map_entries, map_extract_ok, rehosted, MapValue};
use crate::range_value::{
    bound_extract_ok, range_bounds_of, range_err_side, range_extract_ok, Bound, BoundElem,
    RangeValue,
};
use crate::set_value::{set_extract_ok, set_keys, SetValue};

verus! {

/// The closed set of variants a value can take.  The `F64Value` variant
/// holds the IEEE-754 bit pattern of a 64-bit float, carried through
/// without interpretation.
#[derive(Clone, Debug, PartialEq, Eq)]
pub enum Value {
    I64Value(i64),
    F64Value(u64),
    BlobValue(Vec<u8>),
    TextValue(String),
    ListValue(ListValue),
    MapValue(MapValue),
    SetValue(SetValue),
    RangeValue(RangeValue),
}

/// An optional value: absence is a first-class state distinct from every
/// variant, standing for "no value present".
#[derive(Clone, Debug, PartialEq, Eq)]
pub struct TypedValue {
    pub value: Option<Value>,
}

/// A native type with a place in the tagged union: a total encoding into a
/// variant and a partial extraction back out of one.
pub trait ValueConvert: Sized {
    /// The variant that encodes a value of this type.
    spec fn spec_to_value(self) -> Value;

    /// What extracting this type from a value yields: the held native value
    /// on a match, the value itself — unchanged — on a mismatch.
    spec fn spec_from_value(v: Value) -> Result<Self, Value>;

    /// Extracting what was encoded yields the original value.
    proof fn lemma_round_trip(x: Self)
        ensures
            Self::spec_from_value(x.spec_to_value()) == Ok::<Self, Value>(x),
    ;

    /// A failed extraction hands the value back unchanged.
    proof fn lemma_from_err(v: Value)
        ensures
            Self::spec_from_value(v) matches Err(e) ==> e == v,
    ;

    fn to_value(self) -> (r: Value)
        ensures
            r == self.spec_to_value(),
    ;

    fn from_value(v: Value) -> (r: Result<Self, Value>)
        ensures
            r == Self::spec_from_value(v),
    ;
}

impl ValueConvert for i64 {
    open spec fn spec_to_value(self) -> Value {
        Value::I64Value(self)
    }

    open spec fn spec_from_value(v: Value) -> Result<i64, Value> {
        match v {
            Value::I64Value(x) => Ok(x),
            Value::ListValue(l) => if list_singleton_ok::<i64>(l) {
                Ok(<i64 as ListElem>::sub_seq(l)[0])
            } else {
                Err(v)
            },
            _ => Err(v),
        }
    }

    proof fn lemma_round_trip(x: i64) {
    }

    proof fn lemma_from_err(v: Value) {
    }

    fn to_value(self) -> (r: Value) {
        Value::I64Value(self)
    }

    fn from_value(v: Value) -> (r: Result<i64, Value>) {
        match v {
            Value::I64Value(x) => Ok(x),
            Value::ListValue(l) => match l.try_into_elem::<i64>() {
                Ok(x) => Ok(x),
                Err(l2) => Err(Value::ListValue(l2)),
            },
            other => Err(other),
        }
    }
}

impl ValueConvert for u64 {
    /// The bit-pattern encoding of a 64-bit float.
    open spec fn spec_to_value(self) -> Value {
        Value::F64Value(self)
    }

    open spec fn spec_from_value(v: Value) -> Result<u64, Value> {
        match v {
            Value::F64Value(x) => Ok(x),
            Value::ListValue(l) => if list_singleton_ok::<u64>(l) {
                Ok(<u64 as ListElem>::sub_seq(l)[0])
            } else {
                Err(v)
            },
            _ => Err(v),
        }
    }

    proof fn lemma_round_trip(x: u64) {
    }

    proof fn lemma_from_err(v: Value) {
    }

    fn to_value(self) -> (r: Value) {
        Value::F64Value(self)
    }

    fn from_value(v: Value) -> (r: Result<u64, Value>) {
        match v {
            Value::F64Value(x) => Ok(x),
            Value::ListValue(l) => match l.try_into_elem::<u64>() {
                Ok(x) => Ok(x),
                Err(l2) => Err(Value::ListValue(l2)),
            },
            other => Err(other),
        }
    }
}

impl ValueConvert for bool {
    /// Encoded as an integer: no variant of its own.
    open spec fn spec_to_value(self) -> Value {
        Value::I64Value(
            if self {
                1
            } else {
                0
            },
        )
    }

    open spec fn spec_from_value(v: Value) -> Result<bool, Value> {
        match v {
            Value::I64Value(x) => Ok(x != 0),
            _ => Err(v),
        }
    }

    proof fn lemma_round_trip(x: bool) {
    }

    proof fn lemma_from_err(v: Value) {
    }

    fn to_value(self) -> (r: Value) {
        Value::I64Value(
            if self {
                1
            } else {
                0
            },
        )
    }

    fn from_value(v: Value) -> (r: Result<bool, Value>) {
        match v {
            Value::I64Value(x) => Ok(x != 0),
            other => Err(other),
        }
    }
}

impl ValueConvert for Vec<u8> {
    open spec fn spec_to_value(self) -> Value {
        Value::BlobValue(self)
    }

    open spec fn spec_from_value(v: Value) -> Result<Vec<u8>, Value> {
        match v {
            Value::BlobValue(b) => Ok(b),
            Value::ListValue(l) => if list_singleton_ok::<Vec<u8>>(l) {
                Ok(<Vec<u8> as ListElem>::sub_seq(l)[0])
            } else {
                Err(v)
            },
            _ => Err(v),
        }
    }

    proof fn lemma_round_trip(x: Vec<u8>) {
    }

    proof fn lemma_from_err(v: Value) {
    }

    fn to_value(self) -> (r: Value) {
        Value::BlobValue(self)
    }

    fn from_value(v: Value) -> (r: Result<Vec<u8>, Value>) {
        match v {
            Value::BlobValue(b) => Ok(b),
            Value::ListValue(l) => match l.try_into_elem::<Vec<u8>>() {
                Ok(x) => Ok(x),
                Err(l2) => Err(Value::ListValue(l2)),
            },
            other => Err(other),
        }
    }
}

impl ValueConvert for String {
    open spec fn spec_to_value(self) -> Value {
        Value::TextValue(self)
    }

    open spec fn spec_from_value(v: Value) -> Result<String, Value> {
        match v {
            Value::TextValue(s) => Ok(s),
            Value::ListValue(l) => if list_singleton_ok::<String>(l) {
                Ok(<String as ListElem>::sub_seq(l)[0])
            } else {
                Err(v)
            },
            _ => Err(v),
        }
    }

    proof fn lemma_round_trip(x: String) {
    }

    proof fn lemma_from_err(v: Value) {
    }

    fn to_value(self) -> (r: Value) {
        Value::TextValue(self)
    }

    fn from_value(v: Value) -> (r: Result<String, Value>) {
        match v {
            Value::TextValue(s) => Ok(s),
            Value::ListValue(l) => match l.try_into_elem::<String>() {
                Ok(x) => Ok(x),
                Err(l2) => Err(Value::ListValue(l2)),
            },
            other => Err(other),
        }
    }
}

impl ValueConvert for ListValue {
    open spec fn spec_to_value(self) -> Value {
        Value::ListValue(self)
    }

    open spec fn spec_from_value(v: Value) -> Result<ListValue, Value> {
        match v {
            Value::ListValue(l) => Ok(l),
            _ => Err(v),
        }
    }

    proof fn lemma_round_trip(x: ListValue) {
    }

    proof fn lemma_from_err(v: Value) {
    }

    fn to_value(self) -> (r: Value) {
        Value::ListValue(self)
    }

    fn from_value(v: Value) -> (r: Result<ListValue, Value>) {
        match v {
            Value::ListValue(l) => Ok(l),
            other => Err(other),
        }
    }
}

impl ValueConvert for MapValue {
    open spec fn spec_to_value(self) -> Value {
        Value::MapValue(self)
    }

    open spec fn spec_from_value(v: Value) -> Result<MapValue, Value> {
        match v {
            Value::MapValue(m) => Ok(m),
            _ => Err(v),
        }
    }

    proof fn lemma_round_trip(x: MapValue) {
    }

    proof fn lemma_from_err(v: Value) {
    }

    fn to_value(self) -> (r: Value) {
        Value::MapValue(self)
    }

    fn from_value(v: Value) -> (r: Result<MapValue, Value>) {
        match v {
            Value::MapValue(m) => Ok(m),
            other => Err(other),
        }
    }
}

impl ValueConvert for SetValue {
    open spec fn spec_to_value(self) -> Value {
        Value::SetValue(self)
    }

    open spec fn spec_from_value(v: Value) -> Result<SetValue, Value> {
        match v {
            Value::SetValue(s) => Ok(s),
            _ => Err(v),
        }
    }

    proof fn lemma_round_trip(x: SetValue) {
    }

    proof fn lemma_from_err(v: Value) {
    }

    fn to_value(self) -> (r: Value) {
        Value::SetValue(self)
    }

    fn from_value(v: Value) -> (r: Result<SetValue, Value>) {
        match v {
            Value::SetValue(s) => Ok(s),
            other => Err(other),
        }
    }
}

impl ValueConvert for RangeValue {
    open spec fn spec_to_value(self) -> Value {
        Value::RangeValue(self)
    }

    open spec fn spec_from_value(v: Value) -> Result<RangeValue, Value> {
        match v {
            Value::RangeValue(r) => Ok(r),
            _ => Err(v),
        }
    }

    proof fn lemma_round_trip(x: RangeValue) {
    }

    proof fn lemma_from_err(v: Value) {
    }

    fn to_value(self) -> (r: Value) {
        Value::RangeValue(self)
    }

    fn from_value(v: Value) -> (r: Result<RangeValue, Value>) {
        match v {
            Value::RangeValue(r) => Ok(r),
            other => Err(other),
        }
    }
}

impl TypedValue {
    /// Wrap an optional value.
    pub fn new(v: Option<Value>) -> (r: TypedValue)
        ensures
            r.value == v,
    {
        TypedValue { value: v }
    }

    /// The absent value: no payload at all.
    pub fn absent() -> (r: TypedValue)
        ensures
            r.value is None,
    {
        TypedValue { value: None }
    }

    /// Unwrap back into an optional value.
    pub fn into_value(self) -> (r: Option<Value>)
        ensures
            r == self.value,
    {
        self.value
    }
}

/// Encode a native value as a tagged union value.  Total.
pub fn to_value<T: ValueConvert>(x: T) -> (r: Value)
    ensures
        r == x.spec_to_value(),
{
    x.to_value()
}

/// Extract a native value from a tagged union value, or hand the value back
/// unchanged when its tag does not match.
pub fn try_from_value<T: ValueConvert>(v: Value) -> (r: Result<T, Value>)
    ensures
        r == T::spec_from_value(v),
{
    T::from_value(v)
}

/// Encode a native value as a present wrapped value.  Total.
pub fn to_typed_value<T: ValueConvert>(x: T) -> (r: TypedValue)
    ensures
        r.value == Some(x.spec_to_value()),
{
    TypedValue { value: Some(x.to_value()) }
}

/// Encode an optional native value: `None` becomes the absent wrapped
/// value.  Total.
pub fn opt_to_typed_value<T: ValueConvert>(x: Option<T>) -> (r: TypedValue)
    ensures
        x matches Some(v) ==> r.value == Some(v.spec_to_value()),
        x is None ==> r.value is None,
{
    match x {
        Some(v) => TypedValue { value: Some(v.to_value()) },
        None => TypedValue { value: None },
    }
}

/// Extract a native value from a wrapped value.  An absent payload is a
/// mismatch for every type; any failure hands the wrapped value back
/// unchanged.
pub fn try_from_typed_value<T: ValueConvert>(t: TypedValue) -> (r: Result<T, TypedValue>)
    ensures
        r is Ok <==> (t.value matches Some(v) && T::spec_from_value(v) is Ok),
        r matches Ok(x) ==> (t.value matches Some(v) && T::spec_from_value(v) == Ok::<T, Value>(
            x,
        )),
        r matches Err(e) ==> e == t,
{
    match t.value {
        Some(v) => {
            let ghost v0 = v;
            match T::from_value(v) {
                Ok(x) => Ok(x),
                Err(v2) => {
                    proof {
                        T::lemma_from_err(v0);
                    }
                    Err(TypedValue { value: Some(v2) })
                },
            }
        },
        None => Err(TypedValue { value: None }),
    }
}

/// Extract an optional native value from a wrapped value: an absent payload
/// is a valid `None`, a present payload must match the type.
pub fn try_opt_from_typed_value<T: ValueConvert>(t: TypedValue) -> (r: Result<
    Option<T>,
    TypedValue,
>)
    ensures
        r is Ok <==> (t.value is None || (t.value matches Some(v) && T::spec_from_value(v)
            is Ok)),
        r matches Ok(o) ==> ((o is None <==> t.value is None) && (o matches Some(x)
            ==> t.value matches Some(v) && T::spec_from_value(v) == Ok::<T, Value>(x))),
        r matches Err(e) ==> e == t,
{
    match t.value {
        Some(v) => {
            let ghost v0 = v;
            match T::from_value(v) {
                Ok(x) => Ok(Some(x)),
                Err(v2) => {
                    proof {
                        T::lemma_from_err(v0);
                    }
                    Err(TypedValue { value: Some(v2) })
                },
            }
        },
        None => Ok(None),
    }
}

/// Encode a vector of list elements as a list-tagged value.  Total.
pub fn vec_to_value<T: ListElem>(v: Vec<T>) -> (r: Value)
    ensures
        r matches Value::ListValue(l) && T::sub_seq(l) == v@ && l.total_len() == v@.len(),
{
    Value::ListValue(ListValue::from_vec(v))
}

/// Extract a vector of list elements from a value, applying the sub-list
/// disambiguation rule; any failure hands the value back unchanged.
pub fn try_vec_from_value<T: ListElem>(v: Value) -> (r: Result<Vec<T>, Value>)
    ensures
        r is Ok <==> (v matches Value::ListValue(l) && list_extract_ok::<T>(l)),
        r matches Ok(out) ==> (v matches Value::ListValue(l) && out@ == T::sub_seq(l)),
        r matches Err(e) ==> e == v,
{
    match v {
        Value::ListValue(l) => match l.try_into_vec::<T>() {
            Ok(out) => Ok(out),
            Err(l2) => Err(Value::ListValue(l2)),
        },
        other => Err(other),
    }
}

/// Encode a vector of list elements as a present wrapped value.  Total.
pub fn vec_to_typed_value<T: ListElem>(v: Vec<T>) -> (r: TypedValue)
    ensures
        r.value matches Some(w) && w matches Value::ListValue(l) && T::sub_seq(l) == v@
            && l.total_len() == v@.len(),
{
    TypedValue { value: Some(vec_to_value(v)) }
}

/// Extract a vector of list elements from a wrapped value; any failure
/// hands the wrapped value back unchanged.
pub fn try_vec_from_typed_value<T: ListElem>(t: TypedValue) -> (r: Result<Vec<T>, TypedValue>)
    ensures
        r is Ok <==> (t.value matches Some(w) && w matches Value::ListValue(l)
            && list_extract_ok::<T>(l)),
        r matches Ok(out) ==> (t.value matches Some(w) && w matches Value::ListValue(l) && out@
            == T::sub_seq(l)),
        r matches Err(e) ==> e == t,
{
    match t.value {
        Some(Value::ListValue(l)) => match l.try_into_vec::<T>() {
            Ok(out) => Ok(out),
            Err(l2) => Err(TypedValue { value: Some(Value::ListValue(l2)) }),
        },
        value => Err(TypedValue { value }),
    }
}

/// Extract an optional vector from a wrapped value: an absent payload is a
/// valid `None`, a present payload must be a list of the element type.
pub fn try_opt_vec_from_typed_value<T: ListElem>(t: TypedValue) -> (r: Result<
    Option<Vec<T>>,
    TypedValue,
>)
    ensures
        r is Ok <==> (t.value is None || (t.value matches Some(w) && w matches Value::ListValue(
            l,
        ) && list_extract_ok::<T>(l))),
        r matches Ok(o) ==> ((o is None <==> t.value is None) && (o matches Some(out)
            ==> t.value matches Some(w) && w matches Value::ListValue(l) && out@ == T::sub_seq(
            l,
        ))),
        r matches Err(e) ==> e == t,
{
    match t.value {
        Some(Value::ListValue(l)) => match l.try_into_vec::<T>() {
            Ok(out) => Ok(Some(out)),
            Err(l2) => Err(TypedValue { value: Some(Value::ListValue(l2)) }),
        },
        None => Ok(None),
        value => Err(TypedValue { value }),
    }
}

/// Extract map entries from a map-tagged value.  On failure the error
/// wraps a map reconstructed for diagnosis, as
/// [`MapValue::try_into_entries`] describes; a value with another tag comes
/// back unchanged.
pub fn try_entries_from_value<K: ListElem, V: ListElem>(v: Value) -> (r: Result<
    Vec<(K, V)>,
    Value,
>)
    ensures
        r is Ok <==> (v matches Value::MapValue(m) && map_extract_ok::<K, V>(m)),
        r matches Ok(p) ==> (v matches Value::MapValue(m) && p@ == map_entries::<K, V>(m)),
        r matches Err(e) ==> (match v {
            Value::MapValue(m) => e matches Value::MapValue(em) && (match (m.keys, m.values) {
                (Some(kl), Some(vl)) => (em.keys matches Some(ekl) && rehosted::<K>(kl, ekl)) && (
                em.values matches Some(evl) && rehosted::<V>(vl, evl)),
                _ => em == m,
            }),
            _ => e == v,
        }),
{
    match v {
        Value::MapValue(m) => match m.try_into_entries::<K, V>() {
            Ok(p) => Ok(p),
            Err(em) => Err(Value::MapValue(em)),
        },
        other => Err(other),
    }
}

/// Extract set keys from a set-tagged value; any failure hands the value
/// back unchanged.
pub fn try_set_keys_from_value<T: ListElem>(v: Value) -> (r: Result<Vec<T>, Value>)
    ensures
        r is Ok <==> (v matches Value::SetValue(s) && set_extract_ok::<T>(s)),
        r matches Ok(out) ==> (v matches Value::SetValue(s) && out@ == set_keys::<T>(s)),
        r matches Err(e) ==> e == v,
{
    match v {
        Value::SetValue(s) => match s.try_into_keys::<T>() {
            Ok(out) => Ok(out),
            Err(s2) => Err(Value::SetValue(s2)),
        },
        other => Err(other),
    }
}

/// Extract a pair of range bounds from a range-tagged value.  On failure
/// the error wraps a range reconstructed for diagnosis, as
/// [`RangeValue::try_into_bounds`] describes; a value with another tag
/// comes back unchanged.
pub fn try_bounds_from_value<T: BoundElem>(v: Value) -> (r: Result<(Bound<T>, Bound<T>), Value>)
    ensures
        r is Ok <==> (v matches Value::RangeValue(rv) && range_extract_ok::<T>(rv)),
        r matches Ok(p) ==> (v matches Value::RangeValue(rv) && p == range_bounds_of::<T>(rv)),
        r matches Err(e) ==> (match v {
            Value::RangeValue(rv) => e matches Value::RangeValue(erv) && erv.start == Some(
                range_err_side::<T>(rv.start),
            ) && erv.end == Some(range_err_side::<T>(rv.end)),
            _ => e == v,
        }),
{
    match v {
        Value::RangeValue(rv) => match rv.try_into_bounds::<T>() {
            Ok(p) => Ok(p),
            Err(erv) => Err(Value::RangeValue(erv)),
        },
        other => Err(other),
    }
}

/// Encode map entries as a present map-tagged wrapped value.  Total.
pub fn entries_to_typed_value<K: ListElem, V: ListElem>(entries: Vec<(K, V)>) -> (r: TypedValue)
    ensures
        r.value matches Some(w) && w matches Value::MapValue(m) && map_extract_ok::<K, V>(m)
            && map_entries::<K, V>(m) == entries@,
{
    TypedValue { value: Some(Value::MapValue(MapValue::from_entries(entries))) }
}

/// Extract map entries from a wrapped value.  On failure the error wraps a
/// map reconstructed for diagnosis, as [`MapValue::try_into_entries`]
/// describes; a payload that is not a map, or is absent, comes back
/// unchanged.
pub fn try_entries_from_typed_value<K: ListElem, V: ListElem>(t: TypedValue) -> (r: Result<
    Vec<(K, V)>,
    TypedValue,
>)
    ensures
        r is Ok <==> (t.value matches Some(w) && w matches Value::MapValue(m) && map_extract_ok::<
            K,
            V,
        >(m)),
        r matches Ok(p) ==> (t.value matches Some(w) && w matches Value::MapValue(m) && p@
            == map_entries::<K, V>(m)),
        r matches Err(e) ==> (match t.value {
            Some(Value::MapValue(m)) => e.value matches Some(w2) && w2 matches Value::MapValue(em)
                && (match (m.keys, m.values) {
                (Some(kl), Some(vl)) => (em.keys matches Some(ekl) && rehosted::<K>(kl, ekl)) && (
                em.values matches Some(evl) && rehosted::<V>(vl, evl)),
                _ => em == m,
            }),
            _ => e == t,
        }),
{
    match t.value {
        Some(Value::MapValue(m)) => match m.try_into_entries::<K, V>() {
            Ok(p) => Ok(p),
            Err(em) => Err(TypedValue { value: Some(Value::MapValue(em)) }),
        },
        value => Err(TypedValue { value }),
    }
}

/// Encode set keys as a present set-tagged wrapped value.  Total.
pub fn set_keys_to_typed_value<T: ListElem>(keys: Vec<T>) -> (r: TypedValue)
    ensures
        r.value matches Some(w) && w matches Value::SetValue(s) && set_extract_ok::<T>(s)
            && set_keys::<T>(s) == keys@,
{
    TypedValue { value: Some(Value::SetValue(SetValue::from_keys(keys))) }
}

/// Extract set keys from a wrapped value; any failure hands the wrapped
/// value back unchanged.
pub fn try_set_keys_from_typed_value<T: ListElem>(t: TypedValue) -> (r: Result<
    Vec<T>,
    TypedValue,
>)
    ensures
        r is Ok <==> (t.value matches Some(w) && w matches Value::SetValue(s) && set_extract_ok::<
            T,
        >(s)),
        r matches Ok(out) ==> (t.value matches Some(w) && w matches Value::SetValue(s) && out@
            == set_keys::<T>(s)),
        r matches Err(e) ==> e == t,
{
    match t.value {
        Some(Value::SetValue(s)) => match s.try_into_keys::<T>() {
            Ok(out) => Ok(out),
            Err(s2) => Err(TypedValue { value: Some(Value::SetValue(s2)) }),
        },
        value => Err(TypedValue { value }),
    }
}

/// Extract a pair of range bounds from a wrapped value.  On failure the
/// error wraps a range reconstructed for diagnosis, as
/// [`RangeValue::try_into_bounds`] describes; a payload that is not a
/// range, or is absent, comes back unchanged.
pub fn try_bounds_from_typed_value<T: BoundElem>(t: TypedValue) -> (r: Result<
    (Bound<T>, Bound<T>),
    TypedValue,
>)
    ensures
        r is Ok <==> (t.value matches Some(w) && w matches Value::RangeValue(rv)
            && range_extract_ok::<T>(rv)),
        r matches Ok(p) ==> (t.value matches Some(w) && w matches Value::RangeValue(rv) && p
            == range_bounds_of::<T>(rv)),
        r matches Err(e) ==> (match t.value {
            Some(Value::RangeValue(rv)) => e.value matches Some(w2) && w2
                matches Value::RangeValue(erv) && erv.start == Some(
                range_err_side::<T>(rv.start),
            ) && erv.end == Some(range_err_side::<T>(rv.end)),
            _ => e == t,
        }),
{
    match t.value {
        Some(Value::RangeValue(rv)) => match rv.try_into_bounds::<T>() {
            Ok(p) => Ok(p),
            Err(erv) => Err(TypedValue { value: Some(Value::RangeValue(erv)) }),
        },
        value => Err(TypedValue { value }),
    }
}

/// Every supported native value survives the round trip through the tagged
/// union: extraction of what was encoded succeeds and yields the original.
pub proof fn lemma_value_round_trip<T: ValueConvert>(x: T)
    ensures
        T::spec_from_value(x.spec_to_value()) == Ok::<T, Value>(x),
{
    T::lemma_round_trip(x);
}

/// A failed extraction never loses information: whatever the requested type
/// and whatever the value, the error is the original value unchanged.
pub proof fn lemma_mismatch_returns_original<T: ValueConvert>(v: Value)
    ensures
        T::spec_from_value(v) matches Err(e) ==> e == v,
{
    T::lemma_from_err(v);
}

/// A text-tagged value asked for as an integer is rejected, and the
/// rejection carries the text value unchanged.
pub proof fn lemma_text_rejected_as_i64(s: String)
    ensures
        <i64 as ValueConvert>::spec_from_value(Value::TextValue(s)) == Err::<i64, Value>(
            Value::TextValue(s),
        ),
{
}

} // verus!
