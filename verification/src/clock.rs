//! Clocks: the server's marks of a point in the history of a watched tree.

use crate::codec::decoded;
use crate::codec::optional;
use crate::codec::required;
use crate::codec::spec_optional;
use crate::codec::spec_required;
use crate::codec::Decode;
use crate::encode::entry;
use crate::encode::entry_some;
use crate::encode::some_text;
use crate::encode::ObjectBuilder;
use crate::error::DecodeError;
use crate::error::Shape;
use crate::wire::lemma_lookup_add;
use crate::wire::lemma_lookup_at_most_one;
use crate::wire::lookup;
use crate::wire::Wire;
use crate::wire::WireView;
use vstd::prelude::*;
use vstd::string::StringExecFns;

verus! {

/// A clock specifier. The server hands out strings, whose content is its own
/// business and must be left alone; a client may also give it a time in
/// seconds since the epoch, which the server never hands out.
#[derive(Debug, Clone, PartialEq)]
pub enum ClockSpec {
    StringClock(String),
    UnixTimestamp(i64),
}

/// The mathematical value of a [`ClockSpec`].
pub ghost enum ClockSpecView {
    StringClock(Seq<char>),
    UnixTimestamp(i64),
}

impl DeepView for ClockSpec {
    type V = ClockSpecView;

    open spec fn deep_view(&self) -> ClockSpecView {
        match self {
            ClockSpec::StringClock(s) => ClockSpecView::StringClock(s@),
            ClockSpec::UnixTimestamp(t) => ClockSpecView::UnixTimestamp(*t),
        }
    }
}

impl ClockSpecView {
    /// The specifier on the wire: a string stays a string, a time stays an
    /// integer.
    pub open spec fn wire(self) -> WireView {
        match self {
            ClockSpecView::StringClock(s) => WireView::Text(s),
            ClockSpecView::UnixTimestamp(t) => WireView::Integer(t),
        }
    }
}

impl ClockSpec {
    /// The null clock: the time before any change was seen. A query since
    /// the null clock is answered with everything that matches.
    pub fn null() -> (c: ClockSpec)
        ensures
            c.deep_view() == ClockSpecView::StringClock("c:0:0"@),
    {
        ClockSpec::StringClock(String::from_str("c:0:0"))
    }

    /// The clock that the server keeps under the name `cursor` for this
    /// client: the name behind the prefix `n:`. A cursor that was never used
    /// stands for the null clock.
    pub fn named_cursor(cursor: &str) -> (c: ClockSpec)
        ensures
            c.deep_view() == ClockSpecView::StringClock("n:"@ + cursor@),
    {
        ClockSpec::StringClock(String::from_str("n:").concat(cursor))
    }

    /// The clock of a time in seconds since the epoch.
    pub fn unix_timestamp(time_t: i64) -> (c: ClockSpec)
        ensures
            c.deep_view() == ClockSpecView::UnixTimestamp(time_t),
    {
        ClockSpec::UnixTimestamp(time_t)
    }

    /// The specifier on the wire.
    pub fn encode(&self) -> (w: Wire)
        ensures
            w@ == self.deep_view().wire(),
    {
        match self {
            ClockSpec::StringClock(s) => Wire::Text(s.clone()),
            ClockSpec::UnixTimestamp(t) => Wire::Integer(*t),
        }
    }
}

impl Default for ClockSpec {
    /// The null clock.
    fn default() -> (c: ClockSpec)
        ensures
            c.deep_view() == ClockSpecView::StringClock("c:0:0"@),
    {
        ClockSpec::null()
    }
}

impl Decode for ClockSpec {
    /// The two shapes are tried in order: a text is a string clock, an
    /// integer is a time. Nothing else is accepted.
    open spec fn spec_decode(w: WireView) -> Result<ClockSpecView, DecodeError> {
        match w.as_text() {
            Some(s) => Ok(ClockSpecView::StringClock(s)),
            None => match w {
                WireView::Integer(t) => Ok(ClockSpecView::UnixTimestamp(t)),
                _ => Err(DecodeError::Mismatch(Shape::ClockSpec)),
            },
        }
    }

    fn decode(w: &Wire) -> (r: Result<ClockSpec, DecodeError>)
        ensures
            decoded(r) == Self::spec_decode(w@),
    {
        match w.as_text() {
            Some(s) => Ok(ClockSpec::StringClock(s)),
            None => match w {
                Wire::Integer(t) => Ok(ClockSpec::UnixTimestamp(*t)),
                _ => Err(DecodeError::Mismatch(Shape::ClockSpec)),
            },
        }
    }
}

/// What a saved state of the source control system is found by.
#[derive(Debug, Clone, PartialEq)]
pub struct SavedStateClockData {
    /// The name of the storage that holds the state.
    pub storage: Option<String>,
    /// The commit that the state was made at.
    pub commit: Option<String>,
    /// What the storage needs to know, in its own terms.
    pub config: Option<Wire>,
}

/// The mathematical value of a [`SavedStateClockData`].
pub ghost struct SavedStateClockDataView {
    pub storage: Option<Seq<char>>,
    pub commit: Option<Seq<char>>,
    pub config: Option<WireView>,
}

impl DeepView for SavedStateClockData {
    type V = SavedStateClockDataView;

    open spec fn deep_view(&self) -> SavedStateClockDataView {
        SavedStateClockDataView {
            storage: self.storage.deep_view(),
            commit: self.commit.deep_view(),
            config: self.config.deep_view(),
        }
    }
}

impl SavedStateClockDataView {
    /// The map on the wire: each part under its key, a part that is not
    /// there left out.
    pub open spec fn wire(self) -> WireView {
        WireView::Object(
            entry_some("storage"@, some_text(self.storage)) + entry_some(
                "commit-id"@,
                some_text(self.commit),
            ) + entry_some("config"@, self.config),
        )
    }
}

impl SavedStateClockData {
    /// The map on the wire.
    pub fn encode(&self) -> (w: Wire)
        ensures
            w@ == self.deep_view().wire(),
    {
        let mut b = ObjectBuilder::new();
        b.put_some_text("storage", &self.storage);
        b.put_some_text("commit-id", &self.commit);
        b.put_some("config", self.config.clone());
        assert(b@ =~= self.deep_view().wire()->Object_0);
        b.finish()
    }
}

impl Decode for SavedStateClockData {
    open spec fn spec_decode(w: WireView) -> Result<SavedStateClockDataView, DecodeError> {
        let storage = spec_optional::<String>(w, "storage");
        let commit = spec_optional::<String>(w, "commit-id");
        let config = spec_optional::<Wire>(w, "config");
        if storage is Err {
            Err(storage->Err_0)
        } else if commit is Err {
            Err(commit->Err_0)
        } else if config is Err {
            Err(config->Err_0)
        } else {
            Ok(
                SavedStateClockDataView {
                    storage: storage->Ok_0,
                    commit: commit->Ok_0,
                    config: config->Ok_0,
                },
            )
        }
    }

    fn decode(w: &Wire) -> (r: Result<SavedStateClockData, DecodeError>)
        ensures
            decoded(r) == Self::spec_decode(w@),
    {
        let storage = optional::<String>(w, "storage")?;
        let commit = optional::<String>(w, "commit-id")?;
        let config = optional::<Wire>(w, "config")?;
        Ok(SavedStateClockData { storage, commit, config })
    }
}

/// What the source control system knows of the tree at the time of a clock.
#[derive(Debug, Clone, PartialEq)]
pub struct ScmAwareClockData {
    /// The revision that the working copy and the reference have in common.
    pub mergebase: Option<String>,
    /// The reference that the merge base is taken with.
    pub mergebase_with: Option<String>,
    /// The saved state to start from.
    pub saved_state: Option<SavedStateClockData>,
}

/// The mathematical value of a [`ScmAwareClockData`].
pub ghost struct ScmAwareClockDataView {
    pub mergebase: Option<Seq<char>>,
    pub mergebase_with: Option<Seq<char>>,
    pub saved_state: Option<SavedStateClockDataView>,
}

impl DeepView for ScmAwareClockData {
    type V = ScmAwareClockDataView;

    open spec fn deep_view(&self) -> ScmAwareClockDataView {
        ScmAwareClockDataView {
            mergebase: self.mergebase.deep_view(),
            mergebase_with: self.mergebase_with.deep_view(),
            saved_state: self.saved_state.deep_view(),
        }
    }
}

impl ScmAwareClockDataView {
    /// The saved state, where there is one, as a wire value.
    pub open spec fn saved_state_wire(self) -> Option<WireView> {
        match self.saved_state {
            Some(s) => Some(s.wire()),
            None => None,
        }
    }

    /// The map on the wire: each part under its key, a part that is not
    /// there left out.
    pub open spec fn wire(self) -> WireView {
        WireView::Object(
            entry_some("mergebase"@, some_text(self.mergebase)) + entry_some(
                "mergebase-with"@,
                some_text(self.mergebase_with),
            ) + entry_some("saved-state"@, self.saved_state_wire()),
        )
    }
}

impl ScmAwareClockData {
    /// The map on the wire.
    pub fn encode(&self) -> (w: Wire)
        ensures
            w@ == self.deep_view().wire(),
    {
        let mut b = ObjectBuilder::new();
        b.put_some_text("mergebase", &self.mergebase);
        b.put_some_text("mergebase-with", &self.mergebase_with);
        let saved = match &self.saved_state {
            Some(s) => Some(s.encode()),
            None => None,
        };
        b.put_some("saved-state", saved);
        assert(b@ =~= self.deep_view().wire()->Object_0);
        b.finish()
    }
}

impl Decode for ScmAwareClockData {
    open spec fn spec_decode(w: WireView) -> Result<ScmAwareClockDataView, DecodeError> {
        let mergebase = spec_optional::<String>(w, "mergebase");
        let mergebase_with = spec_optional::<String>(w, "mergebase-with");
        let saved_state = spec_optional::<SavedStateClockData>(w, "saved-state");
        if mergebase is Err {
            Err(mergebase->Err_0)
        } else if mergebase_with is Err {
            Err(mergebase_with->Err_0)
        } else if saved_state is Err {
            Err(saved_state->Err_0)
        } else {
            Ok(
                ScmAwareClockDataView {
                    mergebase: mergebase->Ok_0,
                    mergebase_with: mergebase_with->Ok_0,
                    saved_state: saved_state->Ok_0,
                },
            )
        }
    }

    fn decode(w: &Wire) -> (r: Result<ScmAwareClockData, DecodeError>)
        ensures
            decoded(r) == Self::spec_decode(w@),
    {
        let mergebase = optional::<String>(w, "mergebase")?;
        let mergebase_with = optional::<String>(w, "mergebase-with")?;
        let saved_state = optional::<SavedStateClockData>(w, "saved-state")?;
        Ok(ScmAwareClockData { mergebase, mergebase_with, saved_state })
    }
}

/// A clock specifier together with what the source control system knows.
#[derive(Debug, Clone, PartialEq)]
pub struct FatClockData {
    pub clock: ClockSpec,
    pub scm: Option<ScmAwareClockData>,
}

/// The mathematical value of a [`FatClockData`].
pub ghost struct FatClockDataView {
    pub clock: ClockSpecView,
    pub scm: Option<ScmAwareClockDataView>,
}

impl DeepView for FatClockData {
    type V = FatClockDataView;

    open spec fn deep_view(&self) -> FatClockDataView {
        FatClockDataView { clock: self.clock.deep_view(), scm: self.scm.deep_view() }
    }
}

impl FatClockDataView {
    /// The source control data, where there is any, as a wire value.
    pub open spec fn scm_wire(self) -> Option<WireView> {
        match self.scm {
            Some(s) => Some(s.wire()),
            None => None,
        }
    }

    /// The map on the wire: the specifier under `clock`, and the source
    /// control data under `scm` where there is any.
    pub open spec fn wire(self) -> WireView {
        WireView::Object(entry("clock"@, self.clock.wire()) + entry_some("scm"@, self.scm_wire()))
    }
}

impl FatClockData {
    /// The map on the wire.
    pub fn encode(&self) -> (w: Wire)
        ensures
            w@ == self.deep_view().wire(),
    {
        let mut b = ObjectBuilder::new();
        b.put("clock", self.clock.encode());
        let scm = match &self.scm {
            Some(s) => Some(s.encode()),
            None => None,
        };
        b.put_some("scm", scm);
        assert(b@ =~= self.deep_view().wire()->Object_0);
        b.finish()
    }
}

impl Decode for FatClockData {
    open spec fn spec_decode(w: WireView) -> Result<FatClockDataView, DecodeError> {
        let clock = spec_required::<ClockSpec>(w, "clock");
        let scm = spec_optional::<ScmAwareClockData>(w, "scm");
        if clock is Err {
            Err(clock->Err_0)
        } else if scm is Err {
            Err(scm->Err_0)
        } else {
            Ok(FatClockDataView { clock: clock->Ok_0, scm: scm->Ok_0 })
        }
    }

    fn decode(w: &Wire) -> (r: Result<FatClockData, DecodeError>)
        ensures
            decoded(r) == Self::spec_decode(w@),
    {
        let clock = required::<ClockSpec>(w, "clock")?;
        let scm = optional::<ScmAwareClockData>(w, "scm")?;
        Ok(FatClockData { clock, scm })
    }
}

/// A point in the history of a watched tree.
#[derive(Debug, Clone, PartialEq)]
pub enum Clock {
    /// A clock specifier and nothing else.
    Spec(ClockSpec),
    /// A clock specifier with what the source control system knows.
    ScmAware(FatClockData),
}

/// The mathematical value of a [`Clock`].
pub ghost enum ClockView {
    Spec(ClockSpecView),
    ScmAware(FatClockDataView),
}

impl DeepView for Clock {
    type V = ClockView;

    open spec fn deep_view(&self) -> ClockView {
        match self {
            Clock::Spec(c) => ClockView::Spec(c.deep_view()),
            Clock::ScmAware(f) => ClockView::ScmAware(f.deep_view()),
        }
    }
}

impl ClockView {
    /// The clock on the wire: a bare specifier as a scalar, the richer
    /// form as a map.
    pub open spec fn wire(self) -> WireView {
        match self {
            ClockView::Spec(c) => c.wire(),
            ClockView::ScmAware(f) => f.wire(),
        }
    }
}

impl Clock {
    /// The clock on the wire.
    pub fn encode(&self) -> (w: Wire)
        ensures
            w@ == self.deep_view().wire(),
    {
        match self {
            Clock::Spec(c) => c.encode(),
            Clock::ScmAware(f) => f.encode(),
        }
    }
}

impl Decode for Clock {
    /// The two shapes are tried in order: what reads as a bare specifier is
    /// one; only then is the value read as a map with a specifier under
    /// `clock`. A value that is neither is not a clock, whatever it holds.
    open spec fn spec_decode(w: WireView) -> Result<ClockView, DecodeError> {
        match ClockSpec::spec_decode(w) {
            Ok(c) => Ok(ClockView::Spec(c)),
            Err(_) => match FatClockData::spec_decode(w) {
                Ok(f) => Ok(ClockView::ScmAware(f)),
                Err(_) => Err(DecodeError::Mismatch(Shape::Clock)),
            },
        }
    }

    fn decode(w: &Wire) -> (r: Result<Clock, DecodeError>)
        ensures
            decoded(r) == Self::spec_decode(w@),
    {
        match ClockSpec::decode(w) {
            Ok(c) => Ok(Clock::Spec(c)),
            Err(_) => match FatClockData::decode(w) {
                Ok(f) => Ok(Clock::ScmAware(f)),
                Err(_) => Err(DecodeError::Mismatch(Shape::Clock)),
            },
        }
    }
}

/// A clock specifier that is written to the wire and read back is the
/// specifier that was written, in the same variant.
pub proof fn lemma_clock_spec_round_trip(c: ClockSpecView)
    ensures
        ClockSpec::spec_decode(c.wire()) == Ok::<ClockSpecView, DecodeError>(c),
{
}

/// A string or an integer is read as a bare specifier, never as the richer
/// form, whatever the string holds.
pub proof fn lemma_scalar_is_plain_clock(w: WireView)
    requires
        w.as_text() is Some || w is Integer,
    ensures
        w.as_text() is Some ==> Clock::spec_decode(w) == Ok::<ClockView, DecodeError>(
            ClockView::Spec(ClockSpecView::StringClock(w.as_text()->Some_0)),
        ),
        w is Integer ==> Clock::spec_decode(w) == Ok::<ClockView, DecodeError>(
            ClockView::Spec(ClockSpecView::UnixTimestamp(w->Integer_0)),
        ),
        w is Text ==> w.as_text() == Some(w->Text_0),
{
}

/// The richer form is read only from a map, and a map is never read as a
/// bare specifier: the two shapes cannot be taken for each other.
pub proof fn lemma_clock_shapes_apart(w: WireView)
    ensures
        Clock::spec_decode(w) is Ok && Clock::spec_decode(w)->Ok_0 is ScmAware ==> w is Object
            && w.field("clock"@) is Some,
        w is Object ==> !(Clock::spec_decode(w) is Ok && Clock::spec_decode(w)->Ok_0 is Spec),
{
}

/// In a map of up to three entries, each there or not, what is found under
/// a key is the value of the first entry that is there and has the key.
proof fn lemma_lookup_three(
    a: Seq<(Seq<char>, WireView)>,
    b: Seq<(Seq<char>, WireView)>,
    c: Seq<(Seq<char>, WireView)>,
    key: Seq<char>,
)
    requires
        a.len() <= 1,
        b.len() <= 1,
        c.len() <= 1,
    ensures
        lookup(a + b + c, key) == if a.len() == 1 && a[0].0 == key {
            Some(a[0].1)
        } else if b.len() == 1 && b[0].0 == key {
            Some(b[0].1)
        } else if c.len() == 1 && c[0].0 == key {
            Some(c[0].1)
        } else {
            None::<WireView>
        },
{
    lemma_lookup_at_most_one(a, key);
    lemma_lookup_at_most_one(b, key);
    lemma_lookup_at_most_one(c, key);
    lemma_lookup_add(a, b, key);
    lemma_lookup_add(a + b, c, key);
}

impl SavedStateClockDataView {
    /// Whether the data is read back as it was written. A configuration
    /// that is null is written as null, and null under a key that may be
    /// absent is read as absence.
    pub open spec fn reads_back(self) -> bool {
        self.config != Some(WireView::Null)
    }
}

impl ScmAwareClockDataView {
    /// Whether the data is read back as it was written: see
    /// [`SavedStateClockDataView::reads_back`].
    pub open spec fn reads_back(self) -> bool {
        self.saved_state is Some ==> self.saved_state->Some_0.reads_back()
    }
}

impl ClockView {
    /// Whether the clock is read back as it was written: see
    /// [`SavedStateClockDataView::reads_back`].
    pub open spec fn reads_back(self) -> bool {
        match self {
            ClockView::Spec(_) => true,
            ClockView::ScmAware(f) => f.scm is Some ==> f.scm->Some_0.reads_back(),
        }
    }
}

/// Saved state data that is written to the wire and read back is the data
/// that was written.
pub proof fn lemma_saved_state_round_trip(s: SavedStateClockDataView)
    requires
        s.reads_back(),
    ensures
        SavedStateClockData::spec_decode(s.wire()) == Ok::<SavedStateClockDataView, DecodeError>(s),
{
    reveal_strlit("storage");
    reveal_strlit("commit-id");
    reveal_strlit("config");
    assert("storage"@.len() == 7 && "commit-id"@.len() == 9 && "config"@.len() == 6);
    let a = entry_some("storage"@, some_text(s.storage));
    let b = entry_some("commit-id"@, some_text(s.commit));
    let c = entry_some("config"@, s.config);
    lemma_lookup_three(a, b, c, "storage"@);
    lemma_lookup_three(a, b, c, "commit-id"@);
    lemma_lookup_three(a, b, c, "config"@);
}

/// Source control data that is written to the wire and read back is the
/// data that was written.
pub proof fn lemma_scm_round_trip(s: ScmAwareClockDataView)
    requires
        s.reads_back(),
    ensures
        ScmAwareClockData::spec_decode(s.wire()) == Ok::<ScmAwareClockDataView, DecodeError>(s),
{
    reveal_strlit("mergebase");
    reveal_strlit("mergebase-with");
    reveal_strlit("saved-state");
    assert("mergebase"@.len() == 9 && "mergebase-with"@.len() == 14 && "saved-state"@.len()
        == 11);
    let a = entry_some("mergebase"@, some_text(s.mergebase));
    let b = entry_some("mergebase-with"@, some_text(s.mergebase_with));
    let c = entry_some("saved-state"@, s.saved_state_wire());
    lemma_lookup_three(a, b, c, "mergebase"@);
    lemma_lookup_three(a, b, c, "mergebase-with"@);
    lemma_lookup_three(a, b, c, "saved-state"@);
    if s.saved_state is Some {
        lemma_saved_state_round_trip(s.saved_state->Some_0);
    }
}

/// A clock that is written to the wire and read back is the clock that was
/// written, in the same variant: what a response gave can be kept and sent
/// as the `since` of the next query.
pub proof fn lemma_clock_round_trip(c: ClockView)
    requires
        c.reads_back(),
    ensures
        Clock::spec_decode(c.wire()) == Ok::<ClockView, DecodeError>(c),
{
    match c {
        ClockView::Spec(spec) => {
            lemma_clock_spec_round_trip(spec);
        },
        ClockView::ScmAware(f) => {
            reveal_strlit("clock");
            reveal_strlit("scm");
            assert("clock"@.len() == 5 && "scm"@.len() == 3);
            let a = entry("clock"@, f.clock.wire());
            let b = entry_some("scm"@, f.scm_wire());
            lemma_lookup_three(a, b, Seq::empty(), "clock"@);
            lemma_lookup_three(a, b, Seq::empty(), "scm"@);
            assert(a + b + Seq::empty() =~= a + b);
            lemma_clock_spec_round_trip(f.clock);
            if f.scm is Some {
                lemma_scm_round_trip(f.scm->Some_0);
            }
            assert(FatClockData::spec_decode(f.wire()) == Ok::<FatClockDataView, DecodeError>(f));
        },
    }
}

} // verus!
