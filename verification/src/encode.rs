//! Writing values to the wire: maps built entry by entry, where an entry is
//! left out when its value is the one that absence stands for.

use crate::error::EncodeError;
use crate::wire::entry_views;
use crate::wire::Wire;
use crate::wire::WireView;
use vstd::prelude::*;

verus! {

/// The one entry of `value` under `key`.
pub open spec fn entry(key: Seq<char>, value: WireView) -> Seq<(Seq<char>, WireView)> {
    seq![(key, value)]
}

/// The entry of `value` under `key` where `present` holds, and no entry
/// where it does not.
pub open spec fn entry_if(present: bool, key: Seq<char>, value: WireView) -> Seq<
    (Seq<char>, WireView),
> {
    if present {
        seq![(key, value)]
    } else {
        Seq::empty()
    }
}

/// The entry under `key` of the value that is there, and no entry where
/// none is.
pub open spec fn entry_some(key: Seq<char>, value: Option<WireView>) -> Seq<
    (Seq<char>, WireView),
> {
    match value {
        Some(v) => seq![(key, v)],
        None => Seq::empty(),
    }
}

/// The entry of `true` under `key` where the flag is set, and no entry where
/// it is not: a flag is written only to switch something on.
pub open spec fn entry_flag(key: Seq<char>, flag: bool) -> Seq<(Seq<char>, WireView)> {
    entry_if(flag, key, WireView::Bool(true))
}

/// The array of the given texts.
pub open spec fn texts(items: Seq<Seq<char>>) -> WireView {
    WireView::Array(Seq::new(items.len(), |i: int| WireView::Text(items[i])))
}

/// The text, where there is one, as a wire value.
pub open spec fn some_text(text: Option<Seq<char>>) -> Option<WireView> {
    match text {
        Some(s) => Some(WireView::Text(s)),
        None => None,
    }
}

/// The texts, where there are any, as an array.
pub open spec fn some_texts(items: Option<Seq<Seq<char>>>) -> Option<WireView> {
    match items {
        Some(s) => Some(texts(s)),
        None => None,
    }
}

/// The integer, where there is one, as a wire value.
pub open spec fn some_integer(n: Option<i64>) -> Option<WireView> {
    match n {
        Some(n) => Some(WireView::Integer(n)),
        None => None,
    }
}

/// The outcome of an encoding with the value taken by its view.
pub open spec fn encoded(r: Result<Wire, EncodeError>) -> Result<WireView, EncodeError> {
    match r {
        Ok(w) => Ok(w@),
        Err(e) => Err(e),
    }
}

/// Whether the flag is off. A flag that is off is not written.
pub fn is_false(v: &bool) -> (b: bool)
    ensures
        b == !*v,
{
    !*v
}

/// A map under construction. Its view is the entries put so far, in order.
pub struct ObjectBuilder {
    entries: Vec<(String, Wire)>,
}

impl View for ObjectBuilder {
    type V = Seq<(Seq<char>, WireView)>;

    closed spec fn view(&self) -> Seq<(Seq<char>, WireView)> {
        entry_views(self.entries@)
    }
}

impl ObjectBuilder {
    /// A map with no entry yet.
    pub fn new() -> (b: ObjectBuilder)
        ensures
            b@ == Seq::<(Seq<char>, WireView)>::empty(),
    {
        let b = ObjectBuilder { entries: Vec::new() };
        assert(b@ =~= Seq::empty());
        b
    }

    /// Adds the entry of `value` under `key`.
    pub fn put(&mut self, key: &str, value: Wire)
        ensures
            final(self)@ == old(self)@ + entry(key@, value@),
    {
        self.entries.push((key.to_owned(), value));
        assert(self@ =~= old(self)@ + entry(key@, value@));
    }

    /// Adds the entry of `value` under `key` where `present` holds.
    pub fn put_if(&mut self, present: bool, key: &str, value: Wire)
        ensures
            final(self)@ == old(self)@ + entry_if(present, key@, value@),
    {
        if present {
            self.put(key, value);
        } else {
            assert(self@ =~= old(self)@ + entry_if(present, key@, value@));
        }
    }

    /// Adds the entry under `key` of the value that is there, if one is.
    pub fn put_some(&mut self, key: &str, value: Option<Wire>)
        ensures
            final(self)@ == old(self)@ + entry_some(
                key@,
                match value {
                    Some(v) => Some(v@),
                    None => None,
                },
            ),
    {
        match value {
            Some(v) => {
                self.put(key, v);
            },
            None => {
                assert(self@ =~= old(self)@ + Seq::empty());
            },
        }
    }

    /// Adds the entry of `true` under `key` where the flag is set.
    pub fn put_flag(&mut self, key: &str, flag: bool)
        ensures
            final(self)@ == old(self)@ + entry_flag(key@, flag),
    {
        self.put_if(!is_false(&flag), key, Wire::Bool(true));
    }

    /// Adds the text under `key`.
    pub fn put_text(&mut self, key: &str, text: &String)
        ensures
            final(self)@ == old(self)@ + entry(key@, WireView::Text(text@)),
    {
        self.put(key, Wire::Text(text.clone()));
    }

    /// Adds the text under `key`, if there is one.
    pub fn put_some_text(&mut self, key: &str, text: &Option<String>)
        ensures
            final(self)@ == old(self)@ + entry_some(key@, some_text(text.deep_view())),
    {
        match text {
            Some(s) => {
                self.put(key, Wire::Text(s.clone()));
            },
            None => {
                assert(self@ =~= old(self)@ + Seq::empty());
            },
        }
    }

    /// Adds the integer under `key`, if there is one.
    pub fn put_some_integer(&mut self, key: &str, n: &Option<i64>)
        ensures
            final(self)@ == old(self)@ + entry_some(key@, some_integer(*n)),
    {
        match n {
            Some(n) => {
                self.put(key, Wire::Integer(*n));
            },
            None => {
                assert(self@ =~= old(self)@ + Seq::empty());
            },
        }
    }

    /// Adds the array of the texts under `key`, if there are any.
    pub fn put_some_texts(&mut self, key: &str, items: &Option<Vec<String>>)
        ensures
            final(self)@ == old(self)@ + entry_some(key@, some_texts(items.deep_view())),
    {
        match items {
            Some(v) => {
                self.put(key, text_array(v));
            },
            None => {
                assert(self@ =~= old(self)@ + Seq::empty());
            },
        }
    }

    /// Adds the entries of `other`, in their order.
    pub fn append(&mut self, other: ObjectBuilder)
        ensures
            final(self)@ == old(self)@ + other@,
    {
        let ghost added = other@;
        let mut other = other;
        self.entries.append(&mut other.entries);
        assert(self@ =~= old(self)@ + added);
    }

    /// The finished map.
    pub fn finish(self) -> (w: Wire)
        ensures
            w@ == WireView::Object(self@),
    {
        Wire::object(self.entries)
    }
}

/// The array of the given texts.
pub fn text_array(items: &Vec<String>) -> (w: Wire)
    ensures
        w@ == texts(items.deep_view()),
{
    let mut out: Vec<Wire> = Vec::new();
    let mut i: usize = 0;
    while i < items.len()
        invariant
            i <= items.len(),
            out@.len() == i,
            forall|j: int| 0 <= j < i ==> (#[trigger] out@[j])@ == WireView::Text(items@[j]@),
        decreases items.len() - i,
    {
        out.push(Wire::Text(items[i].clone()));
        i += 1;
    }
    let w = Wire::array(out);
    assert(w@->Array_0 =~= texts(items.deep_view())->Array_0);
    w
}

/// The array of the given names.
pub fn name_array(items: &Vec<&'static str>) -> (w: Wire)
    ensures
        w@ == texts(items.deep_view()),
{
    let mut out: Vec<Wire> = Vec::new();
    let mut i: usize = 0;
    while i < items.len()
        invariant
            i <= items.len(),
            out@.len() == i,
            forall|j: int| 0 <= j < i ==> (#[trigger] out@[j])@ == WireView::Text(items@[j]@),
        decreases items.len() - i,
    {
        out.push(Wire::text(items[i]));
        i += 1;
    }
    let w = Wire::array(out);
    assert(w@->Array_0 =~= texts(items.deep_view())->Array_0);
    w
}

} // verus!
