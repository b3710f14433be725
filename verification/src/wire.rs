//! The self-describing value that requests are encoded to and responses are
//! decoded from.

use vstd::prelude::*;
use vstd::string::StringExecFns;
use vstd::utf8::decode_utf8;
use vstd::utf8::valid_utf8;

verus! {

/// One value of the wire format.
#[derive(Debug, PartialEq)]
pub enum Wire {
    /// The null value.
    Null,
    /// A boolean.
    Bool(bool),
    /// A signed integer of up to 64 bits.
    Integer(i64),
    /// A real number, held as the 64 bits of its binary representation.
    /// No PDU reads one: it is carried through untouched.
    Real(u64),
    /// A string of text.
    Text(String),
    /// A string of bytes in no stated encoding.
    Bytes(Vec<u8>),
    /// An ordered sequence of values.
    Array(Vec<Wire>),
    /// A map from string keys to values, in the order of the entries.
    Object(Vec<(String, Wire)>),
}

/// The mathematical value that a [`Wire`] stands for.
pub ghost enum WireView {
    Null,
    Bool(bool),
    Integer(i64),
    Real(u64),
    Text(Seq<char>),
    Bytes(Seq<u8>),
    Array(Seq<WireView>),
    Object(Seq<(Seq<char>, WireView)>),
}

/// The mathematical value of `w`: each variant by the view of what it holds.
pub open spec fn wire_view(w: Wire) -> WireView
    decreases w,
{
    match w {
        Wire::Null => WireView::Null,
        Wire::Bool(b) => WireView::Bool(b),
        Wire::Integer(n) => WireView::Integer(n),
        Wire::Real(bits) => WireView::Real(bits),
        Wire::Text(s) => WireView::Text(s@),
        Wire::Bytes(b) => WireView::Bytes(b@),
        Wire::Array(items) => WireView::Array(
            Seq::new(
                items@.len(),
                |i: int|
                    if 0 <= i < items@.len() {
                        wire_view(items@[i])
                    } else {
                        WireView::Null
                    },
            ),
        ),
        Wire::Object(entries) => WireView::Object(
            Seq::new(
                entries@.len(),
                |i: int|
                    if 0 <= i < entries@.len() {
                        (entries@[i].0@, wire_view(entries@[i].1))
                    } else {
                        (Seq::empty(), WireView::Null)
                    },
            ),
        ),
    }
}

impl View for Wire {
    type V = WireView;

    open spec fn view(&self) -> WireView {
        wire_view(*self)
    }
}

/// The views of a sequence of values, item by item.
pub open spec fn item_views(items: Seq<Wire>) -> Seq<WireView> {
    Seq::new(items.len(), |i: int| items[i]@)
}

/// The views of the entries of a map, entry by entry.
pub open spec fn entry_views(entries: Seq<(String, Wire)>) -> Seq<(Seq<char>, WireView)> {
    Seq::new(entries.len(), |i: int| (entries[i].0@, entries[i].1@))
}

/// Whether `i` is the place of the first entry under `key`.
pub open spec fn first_at(entries: Seq<(Seq<char>, WireView)>, key: Seq<char>, i: int) -> bool {
    &&& 0 <= i < entries.len()
    &&& entries[i].0 == key
    &&& forall|j: int| 0 <= j < i ==> (#[trigger] entries[j]).0 != key
}

/// The value of the first entry under `key`, if there is one.
pub open spec fn lookup(entries: Seq<(Seq<char>, WireView)>, key: Seq<char>) -> Option<WireView> {
    if exists|i: int| first_at(entries, key, i) {
        Some(entries[choose|i: int| first_at(entries, key, i)].1)
    } else {
        None
    }
}

/// The first entry under a key is what `lookup` finds.
pub proof fn lemma_lookup_first(entries: Seq<(Seq<char>, WireView)>, key: Seq<char>, i: int)
    requires
        first_at(entries, key, i),
    ensures
        lookup(entries, key) == Some(entries[i].1),
{
    let c = choose|c: int| first_at(entries, key, c);
    assert(first_at(entries, key, c));
    if c < i {
        assert(entries[c].0 != key);
    }
    if i < c {
        assert(entries[i].0 != key);
    }
}

/// Where no entry has the key, `lookup` finds nothing.
pub proof fn lemma_lookup_none(entries: Seq<(Seq<char>, WireView)>, key: Seq<char>)
    requires
        forall|j: int| 0 <= j < entries.len() ==> (#[trigger] entries[j]).0 != key,
    ensures
        lookup(entries, key) is None,
{
}

/// Where some entry has the key, there is a first one that has it.
pub proof fn lemma_first_exists(entries: Seq<(Seq<char>, WireView)>, key: Seq<char>, j: int)
    requires
        0 <= j < entries.len(),
        entries[j].0 == key,
    ensures
        exists|i: int| first_at(entries, key, i),
    decreases j,
{
    if forall|k: int| 0 <= k < j ==> (#[trigger] entries[k]).0 != key {
        assert(first_at(entries, key, j));
    } else {
        let k = choose|k: int| 0 <= k < j && (#[trigger] entries[k]).0 == key;
        lemma_first_exists(entries, key, k);
    }
}

/// Where `lookup` finds nothing, no entry has the key.
pub proof fn lemma_lookup_none_means_absent(entries: Seq<(Seq<char>, WireView)>, key: Seq<char>)
    requires
        lookup(entries, key) is None,
    ensures
        forall|j: int| 0 <= j < entries.len() ==> (#[trigger] entries[j]).0 != key,
{
    assert forall|j: int| 0 <= j < entries.len() implies (#[trigger] entries[j]).0 != key by {
        if entries[j].0 == key {
            lemma_first_exists(entries, key, j);
        }
    }
}

/// In entries that are put one behind the other, the first entry under a
/// key is the first of the front part where that has one, and else the
/// first of the back part.
pub proof fn lemma_lookup_add(
    front: Seq<(Seq<char>, WireView)>,
    back: Seq<(Seq<char>, WireView)>,
    key: Seq<char>,
)
    ensures
        lookup(front + back, key) == if lookup(front, key) is Some {
            lookup(front, key)
        } else {
            lookup(back, key)
        },
{
    let all = front + back;
    if lookup(front, key) is Some {
        let i = choose|i: int| first_at(front, key, i);
        assert forall|j: int| 0 <= j < i implies (#[trigger] all[j]).0 != key by {
            assert(all[j] == front[j]);
        }
        assert(all[i] == front[i]);
        assert(first_at(all, key, i));
        lemma_lookup_first(all, key, i);
    } else {
        lemma_lookup_none_means_absent(front, key);
        if lookup(back, key) is Some {
            let i = choose|i: int| first_at(back, key, i);
            let at = front.len() + i;
            assert forall|j: int| 0 <= j < at implies (#[trigger] all[j]).0 != key by {
                if j < front.len() {
                    assert(all[j] == front[j]);
                } else {
                    assert(all[j] == back[j - front.len()]);
                }
            }
            assert(all[at] == back[i]);
            assert(first_at(all, key, at));
            lemma_lookup_first(all, key, at);
        } else {
            lemma_lookup_none_means_absent(back, key);
            assert forall|j: int| 0 <= j < all.len() implies (#[trigger] all[j]).0 != key by {
                if j < front.len() {
                    assert(all[j] == front[j]);
                } else {
                    assert(all[j] == back[j - front.len()]);
                }
            }
            lemma_lookup_none(all, key);
        }
    }
}

/// Among at most one entry, the first under a key is that entry where it
/// has the key.
pub proof fn lemma_lookup_at_most_one(entries: Seq<(Seq<char>, WireView)>, key: Seq<char>)
    requires
        entries.len() <= 1,
    ensures
        lookup(entries, key) == if entries.len() == 1 && entries[0].0 == key {
            Some(entries[0].1)
        } else {
            None::<WireView>
        },
{
    if entries.len() == 1 && entries[0].0 == key {
        assert(first_at(entries, key, 0));
        lemma_lookup_first(entries, key, 0);
    } else {
        lemma_lookup_none(entries, key);
    }
}

/// Entries under other keys, put behind, change nothing of what is found
/// under a key.
pub proof fn lemma_lookup_add_other(
    front: Seq<(Seq<char>, WireView)>,
    back: Seq<(Seq<char>, WireView)>,
    key: Seq<char>,
)
    requires
        forall|j: int| 0 <= j < back.len() ==> (#[trigger] back[j]).0 != key,
    ensures
        lookup(front + back, key) == lookup(front, key),
{
    lemma_lookup_add(front, back, key);
    lemma_lookup_none(back, key);
}

/// An entry under another key, wherever it stands among the entries, changes
/// nothing of what is found under a key.
pub proof fn lemma_lookup_ignores_other_key(
    front: Seq<(Seq<char>, WireView)>,
    extra: (Seq<char>, WireView),
    back: Seq<(Seq<char>, WireView)>,
    key: Seq<char>,
)
    requires
        extra.0 != key,
    ensures
        lookup(front + seq![extra] + back, key) == lookup(front + back, key),
{
    lemma_lookup_add_other(front, seq![extra], key);
    lemma_lookup_add(front + seq![extra], back, key);
    lemma_lookup_add(front, back, key);
}

impl WireView {
    /// The text that the value holds: a string as it is, a byte string by its
    /// UTF-8 decoding where it has one.
    pub open spec fn as_text(self) -> Option<Seq<char>> {
        match self {
            WireView::Text(s) => Some(s),
            WireView::Bytes(b) => if valid_utf8(b) {
                Some(decode_utf8(b))
            } else {
                None
            },
            _ => None,
        }
    }

    /// The value of the first entry under `key`, where the value is a map
    /// that has one.
    pub open spec fn field(self, key: Seq<char>) -> Option<WireView> {
        match self {
            WireView::Object(entries) => lookup(entries, key),
            _ => None,
        }
    }
}

/// `String::from_utf8` of std, with its error dropped: the bytes as text
/// exactly where they are well-formed UTF-8, and then the text that they
/// encode.
#[verifier::external_body]
fn text_from_utf8(bytes: Vec<u8>) -> (r: Option<String>)
    ensures
        r is Some <==> valid_utf8(bytes@),
        r is Some ==> r->Some_0@ == decode_utf8(bytes@),
{
    String::from_utf8(bytes).ok()
}

/// A copy of a byte string.
fn copy_bytes(bytes: &Vec<u8>) -> (r: Vec<u8>)
    ensures
        r@ == bytes@,
{
    let mut out: Vec<u8> = Vec::new();
    let mut i: usize = 0;
    while i < bytes.len()
        invariant
            i <= bytes.len(),
            out@ == bytes@.take(i as int),
        decreases bytes.len() - i,
    {
        out.push(bytes[i]);
        i += 1;
        assert(out@ =~= bytes@.take(i as int));
    }
    assert(bytes@.take(i as int) =~= bytes@);
    out
}

impl Clone for Wire {
    fn clone(&self) -> (r: Wire)
        ensures
            r@ == self@,
        decreases self,
    {
        match self {
            Wire::Null => Wire::Null,
            Wire::Bool(b) => Wire::Bool(*b),
            Wire::Integer(n) => Wire::Integer(*n),
            Wire::Real(bits) => Wire::Real(*bits),
            Wire::Text(s) => Wire::Text(s.clone()),
            Wire::Bytes(b) => Wire::Bytes(copy_bytes(b)),
            Wire::Array(items) => {
                let mut out: Vec<Wire> = Vec::new();
                let mut i: usize = 0;
                while i < items.len()
                    invariant
                        i <= items.len(),
                        out@.len() == i,
                        self == Wire::Array(*items),
                        forall|j: int| 0 <= j < i ==> (#[trigger] out@[j])@ == items@[j]@,
                    decreases items.len() - i,
                {
                    assert(decreases_to!(self => self->Array_0));
                    assert(decreases_to!(self->Array_0 => self->Array_0@[i as int]));
                    out.push(items[i].clone());
                    i += 1;
                }
                let r = Wire::Array(out);
                assert(r@->Array_0 =~= self@->Array_0);
                r
            },
            Wire::Object(entries) => {
                let mut out: Vec<(String, Wire)> = Vec::new();
                let mut i: usize = 0;
                while i < entries.len()
                    invariant
                        i <= entries.len(),
                        out@.len() == i,
                        self == Wire::Object(*entries),
                        forall|j: int|
                            0 <= j < i ==> (#[trigger] out@[j]).0@ == entries@[j].0@ && out@[j].1@
                                == entries@[j].1@,
                    decreases entries.len() - i,
                {
                    assert(decreases_to!(self => self->Object_0));
                    assert(decreases_to!(self->Object_0 => self->Object_0@[i as int]));
                    assert(decreases_to!(self->Object_0@[i as int] => self->Object_0@[i as int].1));
                    out.push((entries[i].0.clone(), entries[i].1.clone()));
                    i += 1;
                }
                let r = Wire::Object(out);
                assert(r@->Object_0 =~= self@->Object_0);
                r
            },
        }
    }
}

impl Wire {
    /// The text value that holds the characters of `s`.
    pub fn text(s: &str) -> (w: Wire)
        ensures
            w@ == WireView::Text(s@),
    {
        Wire::Text(String::from_str(s))
    }

    /// The array of the given items.
    pub fn array(items: Vec<Wire>) -> (w: Wire)
        ensures
            w@ == WireView::Array(item_views(items@)),
    {
        let w = Wire::Array(items);
        assert(w@->Array_0 =~= item_views(items@));
        w
    }

    /// The map of the given entries.
    pub fn object(entries: Vec<(String, Wire)>) -> (w: Wire)
        ensures
            w@ == WireView::Object(entry_views(entries@)),
    {
        let w = Wire::Object(entries);
        assert(w@->Object_0 =~= entry_views(entries@));
        w
    }

    /// The text that the value holds, if it holds text: a string as it is,
    /// a byte string decoded where it is well-formed UTF-8.
    pub fn as_text(&self) -> (r: Option<String>)
        ensures
            r is Some <==> self@.as_text() is Some,
            r is Some ==> r->Some_0@ == self@.as_text()->Some_0,
    {
        match self {
            Wire::Text(s) => Some(s.clone()),
            Wire::Bytes(b) => text_from_utf8(copy_bytes(b)),
            _ => None,
        }
    }

    /// The value of the first entry under `key`, where the value is a map
    /// that has one.
    pub fn get(&self, key: &str) -> (r: Option<&Wire>)
        ensures
            r is Some <==> self@.field(key@) is Some,
            r is Some ==> r->Some_0@ == self@.field(key@)->Some_0,
    {
        match self {
            Wire::Object(entries) => {
                let wanted = String::from_str(key);
                let mut i: usize = 0;
                while i < entries.len()
                    invariant
                        i <= entries.len(),
                        wanted@ == key@,
                        self == Wire::Object(*entries),
                        forall|j: int| 0 <= j < i ==> (#[trigger] entries@[j]).0@ != key@,
                    decreases entries.len() - i,
                {
                    if entries[i].0 == wanted {
                        proof {
                            lemma_lookup_first(self@->Object_0, key@, i as int);
                        }
                        return Some(&entries[i].1);
                    }
                    i += 1;
                }
                proof {
                    lemma_lookup_none(self@->Object_0, key@);
                }
                None
            },
            _ => None,
        }
    }
}

} // verus!
