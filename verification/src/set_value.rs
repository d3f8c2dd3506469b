//! The set variant of the value model: a list wrapped with set semantics.
//! The wire form enforces no uniqueness itself — deduplication belongs to the
//! native set container on either side of the conversion — so this module
//! carries the keys as an ordered sequence and round-trips them losslessly.

use vstd::prelude::*;
use crate::list_value::{list_extract_ok, ListElem, ListValue};

verus! {

/// A set value: its keys as a single, optional list.
#[derive(Clone, Debug, PartialEq, Eq)]
pub struct SetValue {
    pub keys: Option<ListValue>,
}

/// Whether extraction of keys typed `T` from `s` succeeds: the key list is
/// present and decodes as `T`.
pub open spec fn set_extract_ok<T: ListElem>(s: SetValue) -> bool {
    match s.keys {
        Some(l) => list_extract_ok::<T>(l),
        None => false,
    }
}

/// The key sequence a set decodes to.
pub open spec fn set_keys<T: ListElem>(s: SetValue) -> Seq<T> {
    match s.keys {
        Some(l) => T::sub_seq(l),
        None => Seq::empty(),
    }
}

impl SetValue {
    /// Wrap a list as a set.
    pub fn from_list(l: ListValue) -> (r: SetValue)
        ensures
            r.keys == Some(l),
    {
        SetValue { keys: Some(l) }
    }

    /// Build a set value from its keys.  Construction is total and the
    /// result always extracts back to the same key sequence.
    pub fn from_keys<T: ListElem>(v: Vec<T>) -> (r: SetValue)
        ensures
            r.keys matches Some(l) && T::sub_seq(l) == v@ && l.total_len() == v@.len(),
            set_extract_ok::<T>(r),
            set_keys::<T>(r) == v@,
    {
        SetValue { keys: Some(ListValue::from_vec(v)) }
    }

    /// Extract the keys of a set whose elements are `T`, or hand the set
    /// back unchanged when the key list is missing or holds another element
    /// type.
    pub fn try_into_keys<T: ListElem>(self) -> (r: Result<Vec<T>, SetValue>)
        ensures
            r is Ok <==> set_extract_ok::<T>(self),
            r matches Ok(v) ==> v@ == set_keys::<T>(self),
            r matches Err(e) ==> e == self,
    {
        match self.keys {
            Some(l) => match l.try_into_vec::<T>() {
                Ok(v) => Ok(v),
                Err(l2) => Err(SetValue { keys: Some(l2) }),
            },
            None => Err(SetValue { keys: None }),
        }
    }
}

/// A set value built from a key sequence always hands that sequence back:
/// what a native set makes of it — its own ordering, its own deduplication —
/// is the container's business, not the wire form's.
pub proof fn lemma_set_round_trip<T: ListElem>(s: SetValue, ks: Seq<T>)
    requires
        set_keys::<T>(s) == ks,
        s.keys matches Some(l) && l.total_len() == ks.len(),
    ensures
        set_extract_ok::<T>(s),
{
}

} // verus!
