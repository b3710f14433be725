//! Queries: what to look for in a watched tree, and what was found.

use crate::admin::command_with;
use crate::admin::encode_command_with;
use crate::clock::Clock;
use crate::clock::ClockView;
use crate::codec::decoded;
use crate::codec::defaulted;
use crate::codec::lemma_read_items_each;
use crate::codec::optional;
use crate::codec::read_items;
use crate::codec::required;
use crate::codec::spec_defaulted;
use crate::codec::spec_optional;
use crate::codec::spec_required;
use crate::codec::Decode;
use crate::encode::entry;
use crate::encode::entry_flag;
use crate::encode::entry_some;
use crate::encode::name_array;
use crate::encode::some_integer;
use crate::encode::some_text;
use crate::encode::some_texts;
use crate::encode::texts;
use crate::encode::ObjectBuilder;
use crate::error::DecodeError;
use crate::timeout::SettleDurationMs;
use crate::timeout::SyncContext;
use crate::timeout::SyncTimeout;
use crate::wire::lemma_lookup_add;
use crate::wire::lemma_lookup_add_other;
use crate::wire::lemma_lookup_at_most_one;
use crate::wire::lookup;
use crate::wire::Wire;
use crate::wire::WireView;
use vstd::prelude::*;

verus! {

/// A path for the path generator to look at.
#[derive(Debug, Clone, PartialEq)]
pub enum PathGeneratorElement {
    /// The path and all that is below it.
    RecursivePath(String),
    /// The path and what is below it down to the given depth.
    ConstrainedDepth { path: String, depth: i64 },
}

/// The mathematical value of a [`PathGeneratorElement`].
pub ghost enum PathGeneratorElementView {
    RecursivePath(Seq<char>),
    ConstrainedDepth { path: Seq<char>, depth: i64 },
}

impl DeepView for PathGeneratorElement {
    type V = PathGeneratorElementView;

    open spec fn deep_view(&self) -> PathGeneratorElementView {
        match self {
            PathGeneratorElement::RecursivePath(path) => PathGeneratorElementView::RecursivePath(
                path@,
            ),
            PathGeneratorElement::ConstrainedDepth {
                path,
                depth,
            } => PathGeneratorElementView::ConstrainedDepth { path: path@, depth: *depth },
        }
    }
}

impl PathGeneratorElementView {
    /// The element on the wire: a bare path as a string, a path with a
    /// depth as a map of the two.
    pub open spec fn wire(self) -> WireView {
        match self {
            PathGeneratorElementView::RecursivePath(path) => WireView::Text(path),
            PathGeneratorElementView::ConstrainedDepth { path, depth } => WireView::Object(
                entry("path"@, WireView::Text(path)) + entry("depth"@, WireView::Integer(depth)),
            ),
        }
    }
}

/// The array of the given elements.
pub open spec fn paths_wire(elements: Seq<PathGeneratorElementView>) -> WireView {
    WireView::Array(Seq::new(elements.len(), |i: int| elements[i].wire()))
}

impl PathGeneratorElement {
    /// The element on the wire.
    pub fn encode(&self) -> (w: Wire)
        ensures
            w@ == self.deep_view().wire(),
    {
        match self {
            PathGeneratorElement::RecursivePath(path) => Wire::Text(path.clone()),
            PathGeneratorElement::ConstrainedDepth { path, depth } => {
                let mut b = ObjectBuilder::new();
                b.put_text("path", path);
                b.put("depth", Wire::Integer(*depth));
                assert(b@ =~= self.deep_view().wire()->Object_0);
                b.finish()
            },
        }
    }

    /// The array of the given elements.
    pub fn encode_all(elements: &Vec<PathGeneratorElement>) -> (w: Wire)
        ensures
            w@ == paths_wire(elements.deep_view()),
    {
        let mut out: Vec<Wire> = Vec::new();
        let mut i: usize = 0;
        while i < elements.len()
            invariant
                i <= elements.len(),
                out@.len() == i,
                forall|j: int|
                    0 <= j < i ==> (#[trigger] out@[j])@ == elements@[j].deep_view().wire(),
            decreases elements.len() - i,
        {
            out.push(elements[i].encode());
            i += 1;
        }
        let w = Wire::array(out);
        assert(w@->Array_0 =~= paths_wire(elements.deep_view())->Array_0);
        w
    }
}

/// What to look for. The candidates come from the generators that are set
/// (globs, paths, suffixes, a clock to look back to), or from all the files
/// where none is; the expression then picks among them; the fields say what
/// is reported of each file picked.
#[derive(Debug, Clone)]
pub struct QueryRequestCommon {
    /// The glob generator: the patterns to expand.
    pub glob: Option<Vec<String>>,
    /// Whether a backslash in a glob is an ordinary character.
    pub glob_noescape: bool,
    /// Whether a glob also finds names that start with a dot.
    pub glob_includedotfiles: bool,
    /// The path generator: the paths to look at.
    pub path: Option<Vec<PathGeneratorElement>>,
    /// The suffix generator: the suffixes of the names to find.
    pub suffix: Option<Vec<String>>,
    /// The since generator: the clock to look back to. It should come from
    /// an earlier answer, or be the null clock.
    pub since: Option<Clock>,
    /// The directory below the watched root that all paths are taken from.
    pub relative_root: Option<String>,
    /// The expression that a candidate must match. Its content is the
    /// caller's; this layer writes it as it is.
    pub expression: Option<Wire>,
    /// The names of the fields to report of each file. They are always
    /// written: the shape of the answer depends on them.
    pub fields: Vec<&'static str>,
    /// Whether an answer that would list everything comes empty instead.
    pub empty_on_fresh_instance: bool,
    /// Whether the changed files are left out of the answer.
    pub omit_changed_files: bool,
    /// Whether the query fails where the merge base changed and no saved
    /// state is found.
    pub fail_if_no_saved_state: bool,
    /// Whether names are compared by case even where the filesystem does
    /// not.
    pub case_sensitive: bool,
    /// How long to wait for the server's view to catch up. Here no field on
    /// the wire means the server's default.
    pub sync_timeout: SyncTimeout,
    /// How long the tree must have been quiet.
    pub settle_period: Option<SettleDurationMs>,
    /// How long to wait for the tree to become quiet.
    pub settle_timeout: Option<SettleDurationMs>,
    /// Whether a file that several generators found is reported once.
    pub dedup_results: bool,
    /// How long to wait for the lock on the server's view.
    pub lock_timeout: Option<i64>,
    /// A name for the request in the server's records.
    pub request_id: Option<String>,
    /// Whether events for directories are always sent.
    pub always_include_directories: bool,
}

/// The milliseconds of the duration, where there is one.
pub open spec fn some_millis(duration: Option<SettleDurationMs>) -> Option<i64> {
    match duration {
        Some(d) => Some(d.millis()),
        None => None,
    }
}

/// The clock, where there is one, as a wire value.
pub open spec fn some_clock(clock: Option<ClockView>) -> Option<WireView> {
    match clock {
        Some(c) => Some(c.wire()),
        None => None,
    }
}

/// The elements, where there are any, as an array.
pub open spec fn some_paths(elements: Option<Seq<PathGeneratorElementView>>) -> Option<WireView> {
    match elements {
        Some(e) => Some(paths_wire(e)),
        None => None,
    }
}

/// The value, where there is one, by its view.
pub open spec fn some_wire(value: Option<Wire>) -> Option<WireView> {
    match value {
        Some(v) => Some(v@),
        None => None,
    }
}

/// The clock, where there is one, on the wire.
pub fn encode_some_clock(clock: &Option<Clock>) -> (w: Option<Wire>)
    ensures
        some_wire(w) == some_clock(clock.deep_view()),
{
    match clock {
        Some(c) => Some(c.encode()),
        None => None,
    }
}

impl QueryRequestCommon {
    /// The generators on the wire: each one that is set, with the two
    /// modifiers of the globs where they are switched on.
    pub open spec fn generator_entries(&self) -> Seq<(Seq<char>, WireView)> {
        entry_some("glob"@, some_texts(self.glob.deep_view())) + entry_flag(
            "glob_noescape"@,
            self.glob_noescape,
        ) + entry_flag("glob_includedotfiles"@, self.glob_includedotfiles) + entry_some(
            "path"@,
            some_paths(self.path.deep_view()),
        ) + entry_some("suffix"@, some_texts(self.suffix.deep_view())) + entry_some(
            "since"@,
            some_clock(self.since.deep_view()),
        )
    }

    /// The filter and the rendering on the wire: the relative root and the
    /// expression where they are set, and the fields in any case.
    pub open spec fn selection_entries(&self) -> Seq<(Seq<char>, WireView)> {
        entry_some("relative_root"@, some_text(self.relative_root.deep_view())) + entry_some(
            "expression"@,
            some_wire(self.expression),
        ) + entry("fields"@, texts(self.fields.deep_view()))
    }

    /// The toggles on the wire: a flag only where it is set, a value only
    /// where there is one, the timeout unless it is the server's default.
    pub open spec fn toggle_entries(&self) -> Seq<(Seq<char>, WireView)> {
        entry_flag("empty_on_fresh_instance"@, self.empty_on_fresh_instance) + entry_flag(
            "omit_changed_files"@,
            self.omit_changed_files,
        ) + entry_flag("fail_if_no_saved_state"@, self.fail_if_no_saved_state) + entry_flag(
            "case_sensitive"@,
            self.case_sensitive,
        ) + self.sync_timeout.entries_in(SyncContext::Query) + entry_some(
            "settle_period"@,
            some_integer(some_millis(self.settle_period)),
        ) + entry_some("settle_timeout"@, some_integer(some_millis(self.settle_timeout)))
            + entry_flag("dedup_results"@, self.dedup_results) + entry_some(
            "lock_timeout"@,
            some_integer(self.lock_timeout),
        ) + entry_some("request_id"@, some_text(self.request_id.deep_view())) + entry_flag(
            "always_include_directories"@,
            self.always_include_directories,
        )
    }

    /// The map on the wire: the generators, then the filter and the
    /// rendering, then the toggles.
    pub open spec fn wire(&self) -> WireView {
        WireView::Object(
            self.generator_entries() + self.selection_entries() + self.toggle_entries(),
        )
    }

    /// The generators on the wire.
    fn generators(&self) -> (b: ObjectBuilder)
        ensures
            b@ == self.generator_entries(),
    {
        let mut b = ObjectBuilder::new();
        b.put_some_texts("glob", &self.glob);
        assert(b@ =~= entry_some("glob"@, some_texts(self.glob.deep_view())));
        b.put_flag("glob_noescape", self.glob_noescape);
        b.put_flag("glob_includedotfiles", self.glob_includedotfiles);
        let path = match &self.path {
            Some(elements) => Some(PathGeneratorElement::encode_all(elements)),
            None => None,
        };
        b.put_some("path", path);
        b.put_some_texts("suffix", &self.suffix);
        b.put_some("since", encode_some_clock(&self.since));
        b
    }

    /// The filter and the rendering on the wire.
    fn selection(&self) -> (b: ObjectBuilder)
        ensures
            b@ == self.selection_entries(),
    {
        let mut b = ObjectBuilder::new();
        b.put_some_text("relative_root", &self.relative_root);
        assert(b@ =~= entry_some("relative_root"@, some_text(self.relative_root.deep_view())));
        b.put_some("expression", self.expression.clone());
        b.put("fields", name_array(&self.fields));
        b
    }

    /// The toggles on the wire.
    fn toggles(&self) -> (b: ObjectBuilder)
        ensures
            b@ == self.toggle_entries(),
    {
        let mut b = ObjectBuilder::new();
        b.put_flag("empty_on_fresh_instance", self.empty_on_fresh_instance);
        assert(b@ =~= entry_flag("empty_on_fresh_instance"@, self.empty_on_fresh_instance));
        b.put_flag("omit_changed_files", self.omit_changed_files);
        b.put_flag("fail_if_no_saved_state", self.fail_if_no_saved_state);
        b.put_flag("case_sensitive", self.case_sensitive);
        self.sync_timeout.put_in(SyncContext::Query, &mut b);
        let settle_period = match &self.settle_period {
            Some(d) => Some(d.to_millis()),
            None => None,
        };
        b.put_some_integer("settle_period", &settle_period);
        let settle_timeout = match &self.settle_timeout {
            Some(d) => Some(d.to_millis()),
            None => None,
        };
        b.put_some_integer("settle_timeout", &settle_timeout);
        b.put_flag("dedup_results", self.dedup_results);
        b.put_some_integer("lock_timeout", &self.lock_timeout);
        b.put_some_text("request_id", &self.request_id);
        b.put_flag("always_include_directories", self.always_include_directories);
        b
    }

    /// The map on the wire.
    pub fn encode(&self) -> (w: Wire)
        ensures
            w@ == self.wire(),
    {
        let mut b = self.generators();
        b.append(self.selection());
        b.append(self.toggles());
        b.finish()
    }
}

/// What the parameters of a query hold under `sync_timeout`: nothing where
/// the timeout is the server's default, else its milliseconds.
pub proof fn lemma_query_timeout_field(q: QueryRequestCommon)
    ensures
        q.wire().field("sync_timeout"@) == if q.sync_timeout is Default {
            None
        } else {
            Some(WireView::Integer(q.sync_timeout.millis()))
        },
{
    let key = "sync_timeout"@;
    reveal_strlit("glob");
    reveal_strlit("glob_noescape");
    reveal_strlit("glob_includedotfiles");
    reveal_strlit("path");
    reveal_strlit("suffix");
    reveal_strlit("since");
    reveal_strlit("relative_root");
    reveal_strlit("expression");
    reveal_strlit("fields");
    reveal_strlit("empty_on_fresh_instance");
    reveal_strlit("omit_changed_files");
    reveal_strlit("fail_if_no_saved_state");
    reveal_strlit("case_sensitive");
    reveal_strlit("sync_timeout");
    reveal_strlit("settle_period");
    reveal_strlit("settle_timeout");
    reveal_strlit("dedup_results");
    reveal_strlit("lock_timeout");
    reveal_strlit("request_id");
    reveal_strlit("always_include_directories");
    assert("lock_timeout"@[0] != key[0]);
    assert(key.len() == 12);
    let glob = entry_some("glob"@, some_texts(q.glob.deep_view()));
    let noescape = entry_flag("glob_noescape"@, q.glob_noescape);
    let dotfiles = entry_flag("glob_includedotfiles"@, q.glob_includedotfiles);
    let path = entry_some("path"@, some_paths(q.path.deep_view()));
    let suffix = entry_some("suffix"@, some_texts(q.suffix.deep_view()));
    let since = entry_some("since"@, some_clock(q.since.deep_view()));
    lemma_lookup_at_most_one(glob, key);
    lemma_lookup_add_other(glob, noescape, key);
    lemma_lookup_add_other(glob + noescape, dotfiles, key);
    lemma_lookup_add_other(glob + noescape + dotfiles, path, key);
    lemma_lookup_add_other(glob + noescape + dotfiles + path, suffix, key);
    lemma_lookup_add_other(glob + noescape + dotfiles + path + suffix, since, key);
    assert(lookup(q.generator_entries(), key) is None);

    let root = entry_some("relative_root"@, some_text(q.relative_root.deep_view()));
    let expression = entry_some("expression"@, some_wire(q.expression));
    let fields = entry("fields"@, texts(q.fields.deep_view()));
    lemma_lookup_at_most_one(root, key);
    lemma_lookup_add_other(root, expression, key);
    lemma_lookup_add_other(root + expression, fields, key);
    assert(lookup(q.selection_entries(), key) is None);

    let fresh = entry_flag("empty_on_fresh_instance"@, q.empty_on_fresh_instance);
    let omit = entry_flag("omit_changed_files"@, q.omit_changed_files);
    let fail = entry_flag("fail_if_no_saved_state"@, q.fail_if_no_saved_state);
    let case = entry_flag("case_sensitive"@, q.case_sensitive);
    let timeout = q.sync_timeout.entries_in(SyncContext::Query);
    let period = entry_some("settle_period"@, some_integer(some_millis(q.settle_period)));
    let settle = entry_some("settle_timeout"@, some_integer(some_millis(q.settle_timeout)));
    let dedup = entry_flag("dedup_results"@, q.dedup_results);
    let lock = entry_some("lock_timeout"@, some_integer(q.lock_timeout));
    let request = entry_some("request_id"@, some_text(q.request_id.deep_view()));
    let always = entry_flag("always_include_directories"@, q.always_include_directories);
    lemma_lookup_at_most_one(fresh, key);
    lemma_lookup_add_other(fresh, omit, key);
    lemma_lookup_add_other(fresh + omit, fail, key);
    lemma_lookup_add_other(fresh + omit + fail, case, key);
    let before = fresh + omit + fail + case;
    lemma_lookup_add(before, timeout, key);
    lemma_lookup_at_most_one(timeout, key);
    let with = before + timeout;
    lemma_lookup_add_other(with, period, key);
    lemma_lookup_add_other(with + period, settle, key);
    lemma_lookup_add_other(with + period + settle, dedup, key);
    lemma_lookup_add_other(with + period + settle + dedup, lock, key);
    lemma_lookup_add_other(with + period + settle + dedup + lock, request, key);
    lemma_lookup_add_other(with + period + settle + dedup + lock + request, always, key);
    assert(lookup(q.toggle_entries(), key) == lookup(timeout, key));

    lemma_lookup_add(q.generator_entries(), q.selection_entries(), key);
    lemma_lookup_add(q.generator_entries() + q.selection_entries(), q.toggle_entries(), key);
}

impl Default for QueryRequestCommon {
    /// The query with no generator, no filter, no field and every toggle
    /// off: on the wire, a map with an empty list of fields and nothing
    /// else.
    fn default() -> (q: QueryRequestCommon)
        ensures
            q.glob is None,
            !q.glob_noescape,
            !q.glob_includedotfiles,
            q.path is None,
            q.suffix is None,
            q.since is None,
            q.relative_root is None,
            q.expression is None,
            q.fields@.len() == 0,
            !q.empty_on_fresh_instance,
            !q.omit_changed_files,
            !q.fail_if_no_saved_state,
            !q.case_sensitive,
            q.sync_timeout is Default,
            q.settle_period is None,
            q.settle_timeout is None,
            !q.dedup_results,
            q.lock_timeout is None,
            q.request_id is None,
            !q.always_include_directories,
    {
        QueryRequestCommon {
            glob: None,
            glob_noescape: false,
            glob_includedotfiles: false,
            path: None,
            suffix: None,
            since: None,
            relative_root: None,
            expression: None,
            fields: Vec::new(),
            empty_on_fresh_instance: false,
            omit_changed_files: false,
            fail_if_no_saved_state: false,
            case_sensitive: false,
            sync_timeout: SyncTimeout::Default,
            settle_period: None,
            settle_timeout: None,
            dedup_results: false,
            lock_timeout: None,
            request_id: None,
            always_include_directories: false,
        }
    }
}

/// The command `query`: its name, the watched root, what to look for.
#[derive(Debug, Clone)]
pub struct QueryRequest(pub &'static str, pub String, pub QueryRequestCommon);

impl QueryRequest {
    /// The command for the watched root `root`, under its name `query`,
    /// with what to look for.
    pub fn new(root: String, query: QueryRequestCommon) -> (c: QueryRequest)
        ensures
            c.0@ == "query"@,
            c.1 == root,
            c.2 == query,
    {
        QueryRequest("query", root, query)
    }

    /// The command on the wire.
    pub open spec fn wire(&self) -> WireView {
        command_with(self.0@, self.1@, self.2.wire())
    }

    /// The command on the wire.
    pub fn encode(&self) -> (w: Wire)
        ensures
            w@ == self.wire(),
    {
        encode_command_with(self.0, &self.1, self.2.encode())
    }
}

/// What the server tells of how it answered a query.
#[derive(Debug, Clone, PartialEq)]
pub struct QueryDebugInfo {
    /// The cookie files that the server saw while it synchronized.
    pub cookie_files: Option<Vec<String>>,
}

/// The mathematical value of a [`QueryDebugInfo`].
pub ghost struct QueryDebugInfoView {
    pub cookie_files: Option<Seq<Seq<char>>>,
}

impl DeepView for QueryDebugInfo {
    type V = QueryDebugInfoView;

    open spec fn deep_view(&self) -> QueryDebugInfoView {
        QueryDebugInfoView {
            cookie_files: self.cookie_files.deep_view(),
        }
    }
}

impl Decode for QueryDebugInfo {
    open spec fn spec_decode(w: WireView) -> Result<QueryDebugInfoView, DecodeError> {
        let cookie_files = spec_optional::<Vec<String>>(w, "cookie_files");
        if cookie_files is Err {
            Err(cookie_files->Err_0)
        } else {
            Ok(
                QueryDebugInfoView {
                    cookie_files: cookie_files->Ok_0,
                },
            )
        }
    }

    fn decode(w: &Wire) -> (r: Result<QueryDebugInfo, DecodeError>)
        ensures
            decoded(r) == Self::spec_decode(w@),
    {
        let cookie_files = optional::<Vec<String>>(w, "cookie_files")?;
        Ok(QueryDebugInfo { cookie_files })
    }
}

/// The answer to a query, with a file record of the type `F` for each file
/// that matched.
///
/// Where `is_fresh_instance` is set, `files` is all there is: whatever the
/// caller knew of files that are not in it no longer holds. This layer keeps
/// no such knowledge and filters nothing: `files` is what the server sent,
/// record by record and in its order.
#[derive(Debug, Clone, PartialEq)]
pub struct QueryResult<F> {
    /// The version of the server.
    pub version: String,
    /// Whether the answer lists everything that matches, not only what
    /// changed since the clock of the query.
    pub is_fresh_instance: bool,
    /// The files that matched.
    pub files: Option<Vec<F>>,
    /// The clock at the time of the answer.
    pub clock: Clock,
    /// The name of the state that was entered, in a notice of that.
    pub state_enter: Option<String>,
    /// The name of the state that was left, in a notice of that.
    pub state_leave: Option<String>,
    /// What the client that asserted the state said of it.
    pub state_metadata: Option<Wire>,
    /// What the storage of saved states said, for a query that asked
    /// for a saved state.
    pub saved_state_info: Option<Wire>,
    /// How the server answered.
    pub debug: Option<QueryDebugInfo>,
}

/// The mathematical value of a [`QueryResult`].
pub ghost struct QueryResultView<R> {
    pub version: Seq<char>,
    pub is_fresh_instance: bool,
    pub files: Option<Seq<R>>,
    pub clock: ClockView,
    pub state_enter: Option<Seq<char>>,
    pub state_leave: Option<Seq<char>>,
    pub state_metadata: Option<WireView>,
    pub saved_state_info: Option<WireView>,
    pub debug: Option<QueryDebugInfoView>,
}

impl<F: Decode> DeepView for QueryResult<F> {
    type V = QueryResultView<F::V>;

    open spec fn deep_view(&self) -> QueryResultView<F::V> {
        QueryResultView {
            version: self.version.deep_view(),
            is_fresh_instance: self.is_fresh_instance.deep_view(),
            files: self.files.deep_view(),
            clock: self.clock.deep_view(),
            state_enter: self.state_enter.deep_view(),
            state_leave: self.state_leave.deep_view(),
            state_metadata: self.state_metadata.deep_view(),
            saved_state_info: self.saved_state_info.deep_view(),
            debug: self.debug.deep_view(),
        }
    }
}

impl<F: Decode> Decode for QueryResult<F> {
    open spec fn spec_decode(w: WireView) -> Result<QueryResultView<F::V>, DecodeError> {
        let version = spec_required::<String>(w, "version");
        let is_fresh_instance = spec_defaulted::<bool>(w, "is_fresh_instance", false);
        let files = spec_optional::<Vec<F>>(w, "files");
        let clock = spec_required::<Clock>(w, "clock");
        let state_enter = spec_optional::<String>(w, "state-enter");
        let state_leave = spec_optional::<String>(w, "state-leave");
        let state_metadata = spec_optional::<Wire>(w, "metadata");
        let saved_state_info = spec_optional::<Wire>(w, "saved-state-info");
        let debug = spec_optional::<QueryDebugInfo>(w, "debug");
        if version is Err {
            Err(version->Err_0)
        } else if is_fresh_instance is Err {
            Err(is_fresh_instance->Err_0)
        } else if files is Err {
            Err(files->Err_0)
        } else if clock is Err {
            Err(clock->Err_0)
        } else if state_enter is Err {
            Err(state_enter->Err_0)
        } else if state_leave is Err {
            Err(state_leave->Err_0)
        } else if state_metadata is Err {
            Err(state_metadata->Err_0)
        } else if saved_state_info is Err {
            Err(saved_state_info->Err_0)
        } else if debug is Err {
            Err(debug->Err_0)
        } else {
            Ok(
                QueryResultView {
                    version: version->Ok_0,
                    is_fresh_instance: is_fresh_instance->Ok_0,
                    files: files->Ok_0,
                    clock: clock->Ok_0,
                    state_enter: state_enter->Ok_0,
                    state_leave: state_leave->Ok_0,
                    state_metadata: state_metadata->Ok_0,
                    saved_state_info: saved_state_info->Ok_0,
                    debug: debug->Ok_0,
                },
            )
        }
    }

    fn decode(w: &Wire) -> (r: Result<QueryResult<F>, DecodeError>)
        ensures
            decoded(r) == Self::spec_decode(w@),
    {
        let version = required::<String>(w, "version")?;
        let is_fresh_instance = defaulted::<bool>(w, "is_fresh_instance", false)?;
        let files = optional::<Vec<F>>(w, "files")?;
        let clock = required::<Clock>(w, "clock")?;
        let state_enter = optional::<String>(w, "state-enter")?;
        let state_leave = optional::<String>(w, "state-leave")?;
        let state_metadata = optional::<Wire>(w, "metadata")?;
        let saved_state_info = optional::<Wire>(w, "saved-state-info")?;
        let debug = optional::<QueryDebugInfo>(w, "debug")?;
        Ok(
            QueryResult {
                version,
                is_fresh_instance,
                files,
                clock,
                state_enter,
                state_leave,
                state_metadata,
                saved_state_info,
                debug,
            },
        )
    }
}

/// The files of an answer are the records that the server sent: as many as
/// it sent, each read from the record in its place. Nothing is kept from an
/// earlier answer and nothing is left out, whether the answer is a fresh
/// instance or not.
pub proof fn lemma_query_result_files_as_sent<F: Decode>(w: WireView, records: Seq<WireView>)
    requires
        QueryResult::<F>::spec_decode(w) is Ok,
        w.field("files"@) == Some(WireView::Array(records)),
    ensures
        QueryResult::<F>::spec_decode(w)->Ok_0.files is Some,
        QueryResult::<F>::spec_decode(w)->Ok_0.files->Some_0.len() == records.len(),
        forall|i: int|
            0 <= i < records.len() ==> F::spec_decode(#[trigger] records[i]) == Ok::<
                F::V,
                DecodeError,
            >(QueryResult::<F>::spec_decode(w)->Ok_0.files->Some_0[i]),
{
    let read = |v: WireView| F::spec_decode(v);
    assert(spec_optional::<Vec<F>>(w, "files") is Ok);
    assert(<Vec<F> as Decode>::spec_decode(WireView::Array(records)) == read_items(records, read));
    lemma_read_items_each(records, read);
}

} // verus!
