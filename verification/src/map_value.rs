//! The map variant of the value model: a key-list and a value-list stored
//! side by side, not key-to-value pairs.  Construction from entries is total;
//! extraction zips the two lists back together and fails — returning a map
//! that reconstructs whatever did decode — when a list is missing, a list
//! holds the wrong element type, or the two lists differ in length.

use vstd::prelude::*;
use crate::list_value::{list_extract_ok, ListElem, ListValue};

verus! {

/// A map value: parallel key and value lists.  The wire schema leaves each
/// list independently optional, so a well-formed map (both lists present,
/// equal lengths) is a property checked on extraction, not a guarantee of
/// the representation.
#[derive(Clone, Debug, PartialEq, Eq)]
pub struct MapValue {
    pub keys: Option<ListValue>,
    pub values: Option<ListValue>,
}

impl MapValue {
    /// A map with neither list present.
    pub fn new() -> (r: MapValue)
        ensures
            r.keys is None,
            r.values is None,
    {
        MapValue { keys: None, values: None }
    }

    /// Pair two lists up as a map.
    pub fn from_lists(keys: ListValue, values: ListValue) -> (r: MapValue)
        ensures
            r.keys == Some(keys),
            r.values == Some(values),
    {
        MapValue { keys: Some(keys), values: Some(values) }
    }

    /// Split a map back into its two lists, or hand it back unchanged when
    /// either list is missing.
    pub fn try_into_lists(self) -> (r: Result<(ListValue, ListValue), MapValue>)
        ensures
            r is Ok <==> (self.keys is Some && self.values is Some),
            r matches Ok(p) ==> Some(p.0) == self.keys && Some(p.1) == self.values,
            r matches Err(e) ==> e == self,
    {
        match (self.keys, self.values) {
            (Some(keys), Some(values)) => Ok((keys, values)),
            (keys, values) => Err(MapValue { keys, values }),
        }
    }
}

/// Whether extraction of entries typed `(K, V)` from `m` succeeds: both
/// lists are present, each decodes as its element type, and they pair up
/// one to one.
pub open spec fn map_extract_ok<K: ListElem, V: ListElem>(m: MapValue) -> bool {
    match (m.keys, m.values) {
        (Some(kl), Some(vl)) => list_extract_ok::<K>(kl) && list_extract_ok::<V>(vl)
            && K::sub_seq(kl).len() == V::sub_seq(vl).len(),
        _ => false,
    }
}

/// The entries a well-formed map decodes to: the key list and the value list
/// zipped positionally.
pub open spec fn map_entries<K: ListElem, V: ListElem>(m: MapValue) -> Seq<(K, V)> {
    match (m.keys, m.values) {
        (Some(kl), Some(vl)) => K::sub_seq(kl).zip_with(V::sub_seq(vl)),
        _ => Seq::empty(),
    }
}

/// How one side of a failed extraction is reported: a side that decoded is
/// re-encoded from its decoded elements (same elements, nothing else), and a
/// side that did not decode is handed back unchanged.
pub open spec fn rehosted<T: ListElem>(orig: ListValue, e: ListValue) -> bool {
    if list_extract_ok::<T>(orig) {
        T::sub_seq(e) == T::sub_seq(orig) && e.total_len() == T::sub_seq(orig).len()
    } else {
        e == orig
    }
}

impl MapValue {
    /// Build a map from entries in one synchronized pass, so that positional
    /// correspondence between keys and values is preserved.  Construction is
    /// total and the result always extracts back to the same entries.
    pub fn from_entries<K: ListElem, V: ListElem>(entries: Vec<(K, V)>) -> (r: MapValue)
        ensures
            map_extract_ok::<K, V>(r),
            map_entries::<K, V>(r) == entries@,
    {
        let ghost entries0 = entries@;
        let mut rest = entries;
        let mut ks: Vec<K> = Vec::new();
        let mut vs: Vec<V> = Vec::new();
        while rest.len() > 0
            invariant
                ks@.len() == vs@.len(),
                ks@.len() + rest@.len() == entries0.len(),
                rest@ == entries0.skip(ks@.len() as int),
                forall|i: int| 0 <= i < ks@.len() ==> (#[trigger] ks@[i], vs@[i]) == entries0[i],
            decreases rest@.len(),
        {
            let (k, v) = rest.remove(0);
            ks.push(k);
            vs.push(v);
        }
        let r = MapValue { keys: Some(K::host(ks)), values: Some(V::host(vs)) };
        proof {
            assert(map_entries::<K, V>(r) =~= entries0);
        }
        r
    }

    /// Extract the entries of a map whose keys are `K` and values are `V`.
    /// On failure the error is a map reconstructed for diagnosis: each list
    /// that decoded is re-encoded from its elements, each list that did not
    /// is kept as it was, and missing lists stay missing.
    pub fn try_into_entries<K: ListElem, V: ListElem>(self) -> (r: Result<
        Vec<(K, V)>,
        MapValue,
    >)
        ensures
            r is Ok <==> map_extract_ok::<K, V>(self),
            r matches Ok(p) ==> p@ == map_entries::<K, V>(self),
            r matches Err(e) ==> (match (self.keys, self.values) {
                (Some(kl), Some(vl)) => (e.keys matches Some(ekl) && rehosted::<K>(kl, ekl)) && (
                e.values matches Some(evl) && rehosted::<V>(vl, evl)),
                _ => e == self,
            }),
    {
        match (self.keys, self.values) {
            (Some(kl), Some(vl)) => {
                let rk = kl.try_into_vec::<K>();
                let rv = vl.try_into_vec::<V>();
                match (rk, rv) {
                    (Ok(ks), Ok(vs)) => {
                        if ks.len() == vs.len() {
                            Ok(zip_entries(ks, vs))
                        } else {
                            Err(MapValue { keys: Some(K::host(ks)), values: Some(V::host(vs)) })
                        }
                    },
                    (Ok(ks), Err(vl2)) => Err(
                        MapValue { keys: Some(K::host(ks)), values: Some(vl2) },
                    ),
                    (Err(kl2), Ok(vs)) => Err(
                        MapValue { keys: Some(kl2), values: Some(V::host(vs)) },
                    ),
                    (Err(kl2), Err(vl2)) => Err(MapValue { keys: Some(kl2), values: Some(vl2) }),
                }
            },
            (keys, values) => Err(MapValue { keys, values }),
        }
    }
}

/// Pair two equally long vectors up positionally.
fn zip_entries<K, V>(ks: Vec<K>, vs: Vec<V>) -> (r: Vec<(K, V)>)
    requires
        ks@.len() == vs@.len(),
    ensures
        r@ == ks@.zip_with(vs@),
{
    let ghost ks0 = ks@;
    let ghost vs0 = vs@;
    let mut ks = ks;
    let mut vs = vs;
    let mut out: Vec<(K, V)> = Vec::new();
    while ks.len() > 0
        invariant
            ks@.len() == vs@.len(),
            out@.len() + ks@.len() == ks0.len(),
            vs0.len() == ks0.len(),
            ks@ == ks0.skip(out@.len() as int),
            vs@ == vs0.skip(out@.len() as int),
            forall|i: int| 0 <= i < out@.len() ==> #[trigger] out@[i] == (ks0[i], vs0[i]),
        decreases ks@.len(),
    {
        let k = ks.remove(0);
        let v = vs.remove(0);
        out.push((k, v));
    }
    proof {
        assert(out@ =~= ks0.zip_with(vs0));
    }
    out
}

} // verus!
