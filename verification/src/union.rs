//! The sibling schema flavor of the value model: a wrapper named for the
//! union itself, whose list holds nested wrapped values rather than typed
//! sub-lists, and whose map holds two parallel lists of nested wrapped
//! values.  Only the constructors and the integer extractor exist at this
//! layer; the typed-sub-list flavor in [`crate::value`] carries the full
//! conversion logic.

use vstd::prelude::*;

verus! {

/// The variants of the nested-value union.
#[derive(Debug)]
pub enum UnionValue {
    I64Value(i64),
    BlobValue(Vec<u8>),
    TextValue(String),
    ListValue(UnionList),
    MapValue(UnionMap),
}

/// An optional nested value: absence is a first-class state.
#[derive(Debug)]
pub struct ValueUnion {
    pub value: Option<UnionValue>,
}

/// A list of nested wrapped values.
#[derive(Debug)]
pub struct UnionList {
    pub values: Vec<ValueUnion>,
}

/// A map as two parallel lists of nested wrapped values.
#[derive(Debug)]
pub struct UnionMap {
    pub keys: Vec<ValueUnion>,
    pub values: Vec<ValueUnion>,
}

impl ValueUnion {
    /// Wrap a value as present.
    pub fn from_value(v: UnionValue) -> (r: ValueUnion)
        ensures
            r.value == Some(v),
    {
        ValueUnion { value: Some(v) }
    }

    /// Wrap an optional value.
    pub fn from_option(v: Option<UnionValue>) -> (r: ValueUnion)
        ensures
            r.value == v,
    {
        ValueUnion { value: v }
    }

    /// The absent value.
    pub fn absent() -> (r: ValueUnion)
        ensures
            r.value is None,
    {
        ValueUnion { value: None }
    }

    /// Unwrap back into an optional value.
    pub fn into_option(self) -> (r: Option<UnionValue>)
        ensures
            r == self.value,
    {
        self.value
    }
}

impl UnionValue {
    /// Encode an integer.  Total.
    pub fn from_i64(v: i64) -> (r: UnionValue)
        ensures
            r == UnionValue::I64Value(v),
    {
        UnionValue::I64Value(v)
    }

    /// Encode a byte blob.  Total.
    pub fn from_blob(v: Vec<u8>) -> (r: UnionValue)
        ensures
            r == UnionValue::BlobValue(v),
    {
        UnionValue::BlobValue(v)
    }

    /// Encode a text string.  Total.
    pub fn from_text(v: String) -> (r: UnionValue)
        ensures
            r == UnionValue::TextValue(v),
    {
        UnionValue::TextValue(v)
    }

    /// Encode a nested list.  Total.
    pub fn from_list(v: UnionList) -> (r: UnionValue)
        ensures
            r == UnionValue::ListValue(v),
    {
        UnionValue::ListValue(v)
    }

    /// Encode a nested map.  Total.
    pub fn from_map(v: UnionMap) -> (r: UnionValue)
        ensures
            r == UnionValue::MapValue(v),
    {
        UnionValue::MapValue(v)
    }

    /// Extract an integer, or hand the value back unchanged when its tag
    /// does not match.
    pub fn try_into_i64(self) -> (r: Result<i64, UnionValue>)
        ensures
            r is Ok <==> self is I64Value,
            r matches Ok(x) ==> self == UnionValue::I64Value(x),
            r matches Err(e) ==> e == self,
    {
        match self {
            UnionValue::I64Value(x) => Ok(x),
            other => Err(other),
        }
    }
}

impl UnionList {
    /// Build a list by wrapping each element as a present nested value, in
    /// order.
    pub fn from_values(v: Vec<UnionValue>) -> (r: UnionList)
        ensures
            r.values@.len() == v@.len(),
            forall|i: int|
                0 <= i < v@.len() ==> (#[trigger] r.values@[i]).value == Some(v@[i]),
    {
        let ghost v0 = v@;
        let mut rest = v;
        let mut out: Vec<ValueUnion> = Vec::new();
        while rest.len() > 0
            invariant
                out@.len() + rest@.len() == v0.len(),
                rest@ == v0.skip(out@.len() as int),
                forall|i: int|
                    0 <= i < out@.len() ==> (#[trigger] out@[i]).value == Some(v0[i]),
            decreases rest@.len(),
        {
            let x = rest.remove(0);
            out.push(ValueUnion { value: Some(x) });
        }
        UnionList { values: out }
    }
}

impl UnionMap {
    /// Pair two parallel lists of nested wrapped values up as a map.
    pub fn from_lists(keys: Vec<ValueUnion>, values: Vec<ValueUnion>) -> (r: UnionMap)
        ensures
            r.keys == keys,
            r.values == values,
    {
        UnionMap { keys, values }
    }

    /// Build a map from entries in one synchronized pass, wrapping each key
    /// and each value as a present nested value; positional correspondence
    /// is preserved whatever order the entries arrive in.
    pub fn from_entries(entries: Vec<(UnionValue, UnionValue)>) -> (r: UnionMap)
        ensures
            r.keys@.len() == entries@.len(),
            r.values@.len() == entries@.len(),
            forall|i: int|
                0 <= i < entries@.len() ==> (#[trigger] r.keys@[i]).value == Some(entries@[i].0)
                    && (#[trigger] r.values@[i]).value == Some(entries@[i].1),
    {
        let ghost entries0 = entries@;
        let mut rest = entries;
        let mut ks: Vec<ValueUnion> = Vec::new();
        let mut vs: Vec<ValueUnion> = Vec::new();
        while rest.len() > 0
            invariant
                ks@.len() == vs@.len(),
                ks@.len() + rest@.len() == entries0.len(),
                rest@ == entries0.skip(ks@.len() as int),
                forall|i: int|
                    0 <= i < ks@.len() ==> (#[trigger] ks@[i]).value == Some(entries0[i].0) && (
                    #[trigger] vs@[i]).value == Some(entries0[i].1),
            decreases rest@.len(),
        {
            let (k, v) = rest.remove(0);
            ks.push(ValueUnion { value: Some(k) });
            vs.push(ValueUnion { value: Some(v) });
        }
        UnionMap { keys: ks, values: vs }
    }
}

} // verus!
