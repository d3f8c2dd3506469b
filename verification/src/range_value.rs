//! The range variant of the value model: two bounds, each independently
//! unbounded, inclusive or exclusive.  An unbounded side is encoded as an
//! absent payload — never a sentinel value — and decoding an absent payload
//! always succeeds as unbounded, whatever the `included` flag says.  The
//! inclusive/exclusive distinction is the one place in the model where a
//! boolean flag carries meaning of its own, so the round trip must preserve
//! it exactly on each side.

use vstd::prelude::*;

verus! {

/// One endpoint of a native range.
#[derive(Clone, Debug, PartialEq, Eq)]
pub enum Bound<T> {
    Included(T),
    Excluded(T),
    Unbounded,
}

/// The payload a range bound can carry.  The `F64Value` variant holds the
/// IEEE-754 bit pattern of a 64-bit float, carried through uninterpreted.
#[derive(Clone, Debug, PartialEq, Eq)]
pub enum BoundValue {
    I64Value(i64),
    F64Value(u64),
    BlobValue(Vec<u8>),
    TextValue(String),
}

/// A wire-form bound: an optional payload plus the inclusive/exclusive flag.
/// An absent payload means unbounded, and then the flag carries no meaning.
#[derive(Clone, Debug, PartialEq, Eq)]
pub struct RangeBound {
    pub value: Option<BoundValue>,
    pub included: bool,
}

/// A wire-form range: a start and an end bound, each optional.  An absent
/// side reads as unbounded.
#[derive(Clone, Debug, PartialEq, Eq)]
pub struct RangeValue {
    pub start: Option<RangeBound>,
    pub end: Option<RangeBound>,
}

/// A native type that a range bound payload can hold.
pub trait BoundElem: Sized {
    /// The payload variant that wraps a value of this type.
    spec fn spec_wrap(self) -> BoundValue;

    /// What unwrapping a payload as this type yields: the held value when
    /// the variant matches, the payload itself when it does not.
    spec fn spec_unwrap(v: BoundValue) -> Result<Self, BoundValue>;

    /// Unwrapping what was wrapped yields the original value.
    proof fn lemma_wrap_unwrap(x: Self)
        ensures
            Self::spec_unwrap(x.spec_wrap()) == Ok::<Self, BoundValue>(x),
    ;

    /// A failed unwrap hands the payload back unchanged.
    proof fn lemma_unwrap_err(v: BoundValue)
        ensures
            Self::spec_unwrap(v) matches Err(e) ==> e == v,
    ;

    fn wrap(self) -> (r: BoundValue)
        ensures
            r == self.spec_wrap(),
    ;

    fn unwrap_value(v: BoundValue) -> (r: Result<Self, BoundValue>)
        ensures
            r == Self::spec_unwrap(v),
    ;
}

impl BoundElem for i64 {
    open spec fn spec_wrap(self) -> BoundValue {
        BoundValue::I64Value(self)
    }

    open spec fn spec_unwrap(v: BoundValue) -> Result<i64, BoundValue> {
        match v {
            BoundValue::I64Value(x) => Ok(x),
            _ => Err(v),
        }
    }

    proof fn lemma_wrap_unwrap(x: i64) {
    }

    proof fn lemma_unwrap_err(v: BoundValue) {
    }

    fn wrap(self) -> (r: BoundValue) {
        BoundValue::I64Value(self)
    }

    fn unwrap_value(v: BoundValue) -> (r: Result<i64, BoundValue>) {
        match v {
            BoundValue::I64Value(x) => Ok(x),
            other => Err(other),
        }
    }
}

impl BoundElem for Vec<u8> {
    open spec fn spec_wrap(self) -> BoundValue {
        BoundValue::BlobValue(self)
    }

    open spec fn spec_unwrap(v: BoundValue) -> Result<Vec<u8>, BoundValue> {
        match v {
            BoundValue::BlobValue(x) => Ok(x),
            _ => Err(v),
        }
    }

    proof fn lemma_wrap_unwrap(x: Vec<u8>) {
    }

    proof fn lemma_unwrap_err(v: BoundValue) {
    }

    fn wrap(self) -> (r: BoundValue) {
        BoundValue::BlobValue(self)
    }

    fn unwrap_value(v: BoundValue) -> (r: Result<Vec<u8>, BoundValue>) {
        match v {
            BoundValue::BlobValue(x) => Ok(x),
            other => Err(other),
        }
    }
}

impl BoundElem for String {
    open spec fn spec_wrap(self) -> BoundValue {
        BoundValue::TextValue(self)
    }

    open spec fn spec_unwrap(v: BoundValue) -> Result<String, BoundValue> {
        match v {
            BoundValue::TextValue(x) => Ok(x),
            _ => Err(v),
        }
    }

    proof fn lemma_wrap_unwrap(x: String) {
    }

    proof fn lemma_unwrap_err(v: BoundValue) {
    }

    fn wrap(self) -> (r: BoundValue) {
        BoundValue::TextValue(self)
    }

    fn unwrap_value(v: BoundValue) -> (r: Result<String, BoundValue>) {
        match v {
            BoundValue::TextValue(x) => Ok(x),
            other => Err(other),
        }
    }
}

/// The wire form of a native bound: inclusive and exclusive bounds carry
/// their payload and the flag, an unbounded bound is all-absent.
pub open spec fn bound_to_wire<T: BoundElem>(b: Bound<T>) -> RangeBound {
    match b {
        Bound::Included(x) => RangeBound { value: Some(x.spec_wrap()), included: true },
        Bound::Excluded(x) => RangeBound { value: Some(x.spec_wrap()), included: false },
        Bound::Unbounded => RangeBound { value: None, included: false },
    }
}

/// Whether a wire bound decodes as a bound of `T`: an absent payload always
/// does (as unbounded), a present payload must hold the matching variant.
pub open spec fn bound_extract_ok<T: BoundElem>(rb: RangeBound) -> bool {
    match rb.value {
        None => true,
        Some(v) => T::spec_unwrap(v) is Ok,
    }
}

/// The native bound a wire bound decodes to.
pub open spec fn bound_from_wire<T: BoundElem>(rb: RangeBound) -> Bound<T> {
    match rb.value {
        None => Bound::Unbounded,
        Some(v) => match T::spec_unwrap(v) {
            Ok(x) => if rb.included {
                Bound::Included(x)
            } else {
                Bound::Excluded(x)
            },
            Err(_) => Bound::Unbounded,
        },
    }
}

impl RangeBound {
    /// The encoding of an unbounded side: no payload, flag cleared.
    pub fn unbounded() -> (r: RangeBound)
        ensures
            r == (RangeBound { value: None, included: false }),
    {
        RangeBound { value: None, included: false }
    }

    /// Encode a native bound.  Total: every bound has a wire form.
    pub fn from_bound<T: BoundElem>(b: Bound<T>) -> (r: RangeBound)
        ensures
            r == bound_to_wire(b),
    {
        match b {
            Bound::Included(x) => RangeBound { value: Some(x.wrap()), included: true },
            Bound::Excluded(x) => RangeBound { value: Some(x.wrap()), included: false },
            Bound::Unbounded => RangeBound { value: None, included: false },
        }
    }

    /// Decode a wire bound as a bound of `T`, or hand it back unchanged when
    /// its payload holds another type.
    pub fn try_into_bound<T: BoundElem>(self) -> (r: Result<Bound<T>, RangeBound>)
        ensures
            r is Ok <==> bound_extract_ok::<T>(self),
            r matches Ok(b) ==> b == bound_from_wire::<T>(self),
            r matches Err(e) ==> e == self,
    {
        let included = self.included;
        match self.value {
            Some(v) => {
                let ghost v0 = v;
                match T::unwrap_value(v) {
                    Ok(x) => if included {
                        Ok(Bound::Included(x))
                    } else {
                        Ok(Bound::Excluded(x))
                    },
                    Err(v2) => {
                        proof {
                            T::lemma_unwrap_err(v0);
                        }
                        Err(RangeBound { value: Some(v2), included })
                    },
                }
            },
            None => Ok(Bound::Unbounded),
        }
    }
}

/// Whether a wire range decodes as a pair of bounds of `T`: each present
/// side must decode, each absent side reads as unbounded.
pub open spec fn range_extract_ok<T: BoundElem>(r: RangeValue) -> bool {
    (match r.start {
        Some(b) => bound_extract_ok::<T>(b),
        None => true,
    }) && (match r.end {
        Some(b) => bound_extract_ok::<T>(b),
        None => true,
    })
}

/// The pair of native bounds a wire range decodes to.
pub open spec fn range_bounds_of<T: BoundElem>(r: RangeValue) -> (Bound<T>, Bound<T>) {
    (
        match r.start {
            Some(b) => bound_from_wire::<T>(b),
            None => Bound::Unbounded,
        },
        match r.end {
            Some(b) => bound_from_wire::<T>(b),
            None => Bound::Unbounded,
        },
    )
}

/// One side of the range that a failed extraction reports: a side that
/// decoded is re-encoded from its decoded bound, a side that did not decode
/// is kept as it was, and an absent side becomes the explicit unbounded
/// encoding.
pub open spec fn range_err_side<T: BoundElem>(o: Option<RangeBound>) -> RangeBound {
    match o {
        None => RangeBound { value: None, included: false },
        Some(rb) => if bound_extract_ok::<T>(rb) {
            bound_to_wire::<T>(bound_from_wire::<T>(rb))
        } else {
            rb
        },
    }
}

impl RangeValue {
    /// The full range: both sides absent, so both read as unbounded.
    pub fn full() -> (r: RangeValue)
        ensures
            r.start is None,
            r.end is None,
    {
        RangeValue { start: None, end: None }
    }

    /// Encode a pair of native bounds as a range.  Total: every pair of
    /// bounds has a wire form, and it always decodes back to the same pair.
    pub fn from_bounds<T: BoundElem>(start: Bound<T>, end: Bound<T>) -> (r: RangeValue)
        ensures
            r.start == Some(bound_to_wire(start)),
            r.end == Some(bound_to_wire(end)),
            range_extract_ok::<T>(r),
            range_bounds_of::<T>(r) == (start, end),
    {
        proof {
            lemma_bound_round_trip::<T>(start);
            lemma_bound_round_trip::<T>(end);
        }
        RangeValue {
            start: Some(RangeBound::from_bound(start)),
            end: Some(RangeBound::from_bound(end)),
        }
    }

    /// Decode a range as a pair of bounds of `T`.  On failure the error is a
    /// range reconstructed for diagnosis, side by side as
    /// [`range_err_side`] describes.
    pub fn try_into_bounds<T: BoundElem>(self) -> (r: Result<(Bound<T>, Bound<T>), RangeValue>)
        ensures
            r is Ok <==> range_extract_ok::<T>(self),
            r matches Ok(p) ==> p == range_bounds_of::<T>(self),
            r matches Err(e) ==> e.start == Some(range_err_side::<T>(self.start)) && e.end
                == Some(range_err_side::<T>(self.end)),
    {
        match (self.start, self.end) {
            (Some(start), Some(end)) => {
                let rs = start.try_into_bound::<T>();
                let re = end.try_into_bound::<T>();
                match (rs, re) {
                    (Ok(s), Ok(e)) => Ok((s, e)),
                    (Ok(s), Err(e2)) => Err(
                        RangeValue { start: Some(RangeBound::from_bound(s)), end: Some(e2) },
                    ),
                    (Err(s2), Ok(e)) => Err(
                        RangeValue { start: Some(s2), end: Some(RangeBound::from_bound(e)) },
                    ),
                    (Err(s2), Err(e2)) => Err(RangeValue { start: Some(s2), end: Some(e2) }),
                }
            },
            (Some(start), None) => match start.try_into_bound::<T>() {
                Ok(s) => Ok((s, Bound::Unbounded)),
                Err(s2) => Err(RangeValue { start: Some(s2), end: Some(RangeBound::unbounded()) }),
            },
            (None, Some(end)) => match end.try_into_bound::<T>() {
                Ok(e) => Ok((Bound::Unbounded, e)),
                Err(e2) => Err(RangeValue { start: Some(RangeBound::unbounded()), end: Some(e2) }),
            },
            (None, None) => Ok((Bound::Unbounded, Bound::Unbounded)),
        }
    }
}

/// Encode a pair of native bounds as a range: the free-function form of
/// [`RangeValue::from_bounds`].
pub fn range_bounds<T: BoundElem>(start: Bound<T>, end: Bound<T>) -> (r: RangeValue)
    ensures
        r.start == Some(bound_to_wire(start)),
        r.end == Some(bound_to_wire(end)),
        range_extract_ok::<T>(r),
        range_bounds_of::<T>(r) == (start, end),
{
    RangeValue::from_bounds(start, end)
}

/// A bound survives the trip through its wire form exactly: the payload and
/// the inclusive/exclusive distinction are preserved, and unbounded decodes
/// as unbounded whatever the flag's default.
pub proof fn lemma_bound_round_trip<T: BoundElem>(b: Bound<T>)
    ensures
        bound_extract_ok::<T>(bound_to_wire(b)),
        bound_from_wire::<T>(bound_to_wire(b)) == b,
{
    match b {
        Bound::Included(x) => T::lemma_wrap_unwrap(x),
        Bound::Excluded(x) => T::lemma_wrap_unwrap(x),
        Bound::Unbounded => {},
    }
}

/// A pair of bounds survives the trip through a range value exactly, for
/// all four bounded/unbounded combinations on the two sides.
pub proof fn lemma_range_round_trip<T: BoundElem>(start: Bound<T>, end: Bound<T>)
    ensures
        ({
            let r = RangeValue {
                start: Some(bound_to_wire(start)),
                end: Some(bound_to_wire(end)),
            };
            range_extract_ok::<T>(r) && range_bounds_of::<T>(r) == (start, end)
        }),
{
    lemma_bound_round_trip::<T>(start);
    lemma_bound_round_trip::<T>(end);
}

} // verus!
