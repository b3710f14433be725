//! Reading typed values out of wire values: the trait that a decodable type
//! implements, and the three ways in which a map hands out a field.

use crate::error::DecodeError;
use crate::error::Shape;
use crate::wire::lemma_lookup_ignores_other_key;
use crate::wire::Wire;
use crate::wire::WireView;
use vstd::prelude::*;

verus! {

/// The outcome of a decoding with the decoded value taken by its view.
pub open spec fn decoded<T: DeepView>(r: Result<T, DecodeError>) -> Result<T::V, DecodeError> {
    match r {
        Ok(t) => Ok(t.deep_view()),
        Err(e) => Err(e),
    }
}

/// A type that can be read from a wire value.
///
/// `spec_decode` says, for every wire value, what is read from it or why
/// nothing is; `decode` computes exactly that.
pub trait Decode: Sized + DeepView {
    /// What `decode` returns for `w`.
    spec fn spec_decode(w: WireView) -> Result<<Self as DeepView>::V, DecodeError>;

    /// Reads a value of this type from `w`.
    fn decode(w: &Wire) -> (r: Result<Self, DecodeError>)
        ensures
            decoded(r) == Self::spec_decode(w@),
    ;
}

/// What is read from the items of a sequence, one by one: the values in
/// order where every item can be read, else the failure of the first item
/// that cannot.
pub open spec fn read_items<V>(
    items: Seq<WireView>,
    read: spec_fn(WireView) -> Result<V, DecodeError>,
) -> Result<Seq<V>, DecodeError>
    decreases items.len(),
{
    if items.len() == 0 {
        Ok(Seq::empty())
    } else {
        match read_items(items.drop_last(), read) {
            Err(e) => Err(e),
            Ok(before) => match read(items.last()) {
                Err(e) => Err(e),
                Ok(v) => Ok(before.push(v)),
            },
        }
    }
}

/// A failure among the first `n` items is the failure of the whole sequence.
pub proof fn lemma_read_items_failure<V>(
    items: Seq<WireView>,
    read: spec_fn(WireView) -> Result<V, DecodeError>,
    n: int,
)
    requires
        0 <= n <= items.len(),
        read_items(items.take(n), read) is Err,
    ensures
        read_items(items, read) == read_items(items.take(n), read),
    decreases items.len(),
{
    if n == items.len() {
        assert(items.take(n) =~= items);
    } else {
        assert(items.drop_last().take(n) =~= items.take(n));
        lemma_read_items_failure(items.drop_last(), read, n);
    }
}

/// Where every item can be read, as many values come out as there are items,
/// each read from the item in its place.
pub proof fn lemma_read_items_each<V>(
    items: Seq<WireView>,
    read: spec_fn(WireView) -> Result<V, DecodeError>,
)
    requires
        read_items(items, read) is Ok,
    ensures
        read_items(items, read)->Ok_0.len() == items.len(),
        forall|i: int|
            0 <= i < items.len() ==> read(#[trigger] items[i]) == Ok::<V, DecodeError>(
                read_items(items, read)->Ok_0[i],
            ),
    decreases items.len(),
{
    if items.len() > 0 {
        lemma_read_items_each(items.drop_last(), read);
        let before = read_items(items.drop_last(), read)->Ok_0;
        assert forall|i: int| 0 <= i < items.len() implies read(#[trigger] items[i]) == Ok::<
            V,
            DecodeError,
        >(read_items(items, read)->Ok_0[i]) by {
            if i < items.len() - 1 {
                assert(items.drop_last()[i] == items[i]);
            }
        }
    }
}

/// The field under `key` of the map `w`, which must be there.
pub open spec fn spec_required<T: Decode>(w: WireView, key: &'static str) -> Result<
    T::V,
    DecodeError,
> {
    match w {
        WireView::Object(_) => match w.field(key@) {
            None => Err(DecodeError::MissingField(key)),
            Some(v) => match T::spec_decode(v) {
                Ok(t) => Ok(t),
                Err(e) => Err(e.spec_under(key)),
            },
        },
        _ => Err(DecodeError::Mismatch(Shape::Object)),
    }
}

/// The field under `key` of the map `w`, which may be absent or null.
pub open spec fn spec_optional<T: Decode>(w: WireView, key: &'static str) -> Result<
    Option<T::V>,
    DecodeError,
> {
    match w {
        WireView::Object(_) => match w.field(key@) {
            None => Ok(None),
            Some(WireView::Null) => Ok(None),
            Some(v) => match T::spec_decode(v) {
                Ok(t) => Ok(Some(t)),
                Err(e) => Err(e.spec_under(key)),
            },
        },
        _ => Err(DecodeError::Mismatch(Shape::Object)),
    }
}

/// The field under `key` of the map `w`, or `default` where the map has no
/// such key.
pub open spec fn spec_defaulted<T: Decode>(w: WireView, key: &'static str, default: T::V) -> Result<
    T::V,
    DecodeError,
> {
    match w {
        WireView::Object(_) => match w.field(key@) {
            None => Ok(default),
            Some(v) => match T::spec_decode(v) {
                Ok(t) => Ok(t),
                Err(e) => Err(e.spec_under(key)),
            },
        },
        _ => Err(DecodeError::Mismatch(Shape::Object)),
    }
}

/// What a map hands out under a key does not depend on the entries under
/// other keys: a map with one more such entry, wherever it stands, is read
/// as the map without it.
pub proof fn lemma_other_keys_ignored<T: Decode>(
    front: Seq<(Seq<char>, WireView)>,
    extra: (Seq<char>, WireView),
    back: Seq<(Seq<char>, WireView)>,
    key: &'static str,
    default: T::V,
)
    requires
        extra.0 != key@,
    ensures
        spec_required::<T>(WireView::Object(front + seq![extra] + back), key) == spec_required::<T>(
            WireView::Object(front + back),
            key,
        ),
        spec_optional::<T>(WireView::Object(front + seq![extra] + back), key) == spec_optional::<T>(
            WireView::Object(front + back),
            key,
        ),
        spec_defaulted::<T>(WireView::Object(front + seq![extra] + back), key, default)
            == spec_defaulted::<T>(WireView::Object(front + back), key, default),
{
    lemma_lookup_ignores_other_key(front, extra, back, key@);
}

/// Reads the field under `key`, which must be there.
pub fn required<T: Decode>(w: &Wire, key: &'static str) -> (r: Result<T, DecodeError>)
    ensures
        decoded(r) == spec_required::<T>(w@, key),
{
    match w {
        Wire::Object(_) => match w.get(key) {
            None => Err(DecodeError::MissingField(key)),
            Some(v) => match T::decode(v) {
                Ok(t) => Ok(t),
                Err(e) => Err(e.under(key)),
            },
        },
        _ => Err(DecodeError::Mismatch(Shape::Object)),
    }
}

/// Reads the field under `key`, which may be absent or null.
pub fn optional<T: Decode>(w: &Wire, key: &'static str) -> (r: Result<Option<T>, DecodeError>)
    ensures
        decoded(r) == spec_optional::<T>(w@, key),
{
    match w {
        Wire::Object(_) => match w.get(key) {
            None => Ok(None),
            Some(Wire::Null) => Ok(None),
            Some(v) => match T::decode(v) {
                Ok(t) => Ok(Some(t)),
                Err(e) => Err(e.under(key)),
            },
        },
        _ => Err(DecodeError::Mismatch(Shape::Object)),
    }
}

/// Reads the field under `key`, or takes `default` where the map has no
/// such key.
pub fn defaulted<T: Decode>(w: &Wire, key: &'static str, default: T) -> (r: Result<
    T,
    DecodeError,
>)
    ensures
        decoded(r) == spec_defaulted::<T>(w@, key, default.deep_view()),
{
    match w {
        Wire::Object(_) => match w.get(key) {
            None => Ok(default),
            Some(v) => match T::decode(v) {
                Ok(t) => Ok(t),
                Err(e) => Err(e.under(key)),
            },
        },
        _ => Err(DecodeError::Mismatch(Shape::Object)),
    }
}

impl DeepView for Wire {
    type V = WireView;

    open spec fn deep_view(&self) -> WireView {
        self@
    }
}

impl Decode for Wire {
    /// Any value is read as itself.
    open spec fn spec_decode(w: WireView) -> Result<WireView, DecodeError> {
        Ok(w)
    }

    fn decode(w: &Wire) -> (r: Result<Wire, DecodeError>)
        ensures
            decoded(r) == Self::spec_decode(w@),
    {
        Ok(w.clone())
    }
}

impl Decode for String {
    /// A string, or a byte string that holds UTF-8, is read as its text.
    open spec fn spec_decode(w: WireView) -> Result<Seq<char>, DecodeError> {
        match w.as_text() {
            Some(s) => Ok(s),
            None => Err(DecodeError::Mismatch(Shape::Text)),
        }
    }

    fn decode(w: &Wire) -> (r: Result<String, DecodeError>)
        ensures
            decoded(r) == Self::spec_decode(w@),
    {
        match w.as_text() {
            Some(s) => Ok(s),
            None => Err(DecodeError::Mismatch(Shape::Text)),
        }
    }
}

impl Decode for bool {
    open spec fn spec_decode(w: WireView) -> Result<bool, DecodeError> {
        match w {
            WireView::Bool(b) => Ok(b),
            _ => Err(DecodeError::Mismatch(Shape::Bool)),
        }
    }

    fn decode(w: &Wire) -> (r: Result<bool, DecodeError>)
        ensures
            decoded(r) == Self::spec_decode(w@),
    {
        match w {
            Wire::Bool(b) => Ok(*b),
            _ => Err(DecodeError::Mismatch(Shape::Bool)),
        }
    }
}

impl Decode for i64 {
    open spec fn spec_decode(w: WireView) -> Result<i64, DecodeError> {
        match w {
            WireView::Integer(n) => Ok(n),
            _ => Err(DecodeError::Mismatch(Shape::Integer)),
        }
    }

    fn decode(w: &Wire) -> (r: Result<i64, DecodeError>)
        ensures
            decoded(r) == Self::spec_decode(w@),
    {
        match w {
            Wire::Integer(n) => Ok(*n),
            _ => Err(DecodeError::Mismatch(Shape::Integer)),
        }
    }
}

impl Decode for u64 {
    /// An integer that is not negative is read as itself.
    open spec fn spec_decode(w: WireView) -> Result<u64, DecodeError> {
        match w {
            WireView::Integer(n) if n >= 0 => Ok(n as u64),
            _ => Err(DecodeError::Mismatch(Shape::Unsigned)),
        }
    }

    fn decode(w: &Wire) -> (r: Result<u64, DecodeError>)
        ensures
            decoded(r) == Self::spec_decode(w@),
    {
        match w {
            Wire::Integer(n) => {
                if *n >= 0 {
                    Ok(*n as u64)
                } else {
                    Err(DecodeError::Mismatch(Shape::Unsigned))
                }
            },
            _ => Err(DecodeError::Mismatch(Shape::Unsigned)),
        }
    }
}

impl<T: Decode> Decode for Vec<T> {
    /// A sequence is read item by item; the first item that cannot be read
    /// fails the whole.
    open spec fn spec_decode(w: WireView) -> Result<Seq<T::V>, DecodeError> {
        match w {
            WireView::Array(items) => read_items(items, |v: WireView| T::spec_decode(v)),
            _ => Err(DecodeError::Mismatch(Shape::Array)),
        }
    }

    fn decode(w: &Wire) -> (r: Result<Vec<T>, DecodeError>)
        ensures
            decoded(r) == Self::spec_decode(w@),
    {
        match w {
            Wire::Array(items) => {
                let ghost read = |v: WireView| T::spec_decode(v);
                let ghost views = w@->Array_0;
                let mut out: Vec<T> = Vec::new();
                let mut i: usize = 0;
                assert(views.take(0) =~= Seq::empty());
                assert(out.deep_view() =~= Seq::empty());
                while i < items.len()
                    invariant
                        i <= items.len(),
                        w == Wire::Array(*items),
                        views == w@->Array_0,
                        read == (|v: WireView| T::spec_decode(v)),
                        read_items(views.take(i as int), read) == Ok::<Seq<T::V>, DecodeError>(
                            out.deep_view(),
                        ),
                    decreases items.len() - i,
                {
                    assert(views.take(i + 1).drop_last() =~= views.take(i as int));
                    assert(views.take(i + 1).last() == items@[i as int]@);
                    match T::decode(&items[i]) {
                        Ok(t) => {
                            let ghost before = out.deep_view();
                            out.push(t);
                            assert(out.deep_view() =~= before.push(t.deep_view()));
                        },
                        Err(e) => {
                            proof {
                                lemma_read_items_failure(views, read, i + 1);
                            }
                            return Err(e);
                        },
                    }
                    i += 1;
                }
                assert(views.take(i as int) =~= views);
                Ok(out)
            },
            _ => Err(DecodeError::Mismatch(Shape::Array)),
        }
    }
}

} // verus!
