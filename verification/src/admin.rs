//! The administrative commands: each a fixed sequence that starts with the
//! name of the command, and a map that answers it.

use crate::clock::ClockSpec;
use crate::clock::ClockSpecView;
use crate::codec::decoded;
use crate::codec::optional;
use crate::codec::required;
use crate::codec::spec_optional;
use crate::codec::spec_required;
use crate::codec::Decode;
use crate::encode::entry;
use crate::encode::entry_some;
use crate::encode::ObjectBuilder;
use crate::error::DecodeError;
use crate::timeout::SyncContext;
use crate::timeout::SyncTimeout;
use crate::wire::lemma_lookup_at_most_one;
use crate::wire::Wire;
use crate::wire::WireView;
use vstd::prelude::*;

verus! {

/// The sequence of a command that has the watched root as its only argument.
pub open spec fn command_of_root(name: Seq<char>, root: Seq<char>) -> WireView {
    WireView::Array(seq![WireView::Text(name), WireView::Text(root)])
}

/// The sequence of a command that has one argument after the watched root.
pub open spec fn command_with(name: Seq<char>, root: Seq<char>, argument: WireView) -> WireView {
    WireView::Array(seq![WireView::Text(name), WireView::Text(root), argument])
}

/// See [`command_of_root`].
pub fn encode_command_of_root(name: &str, root: &String) -> (w: Wire)
    ensures
        w@ == command_of_root(name@, root@),
{
    let mut items: Vec<Wire> = Vec::new();
    items.push(Wire::text(name));
    items.push(Wire::Text(root.clone()));
    let w = Wire::array(items);
    assert(w@->Array_0 =~= command_of_root(name@, root@)->Array_0);
    w
}

/// See [`command_with`].
pub fn encode_command_with(name: &str, root: &String, argument: Wire) -> (w: Wire)
    ensures
        w@ == command_with(name@, root@, argument@),
{
    let mut items: Vec<Wire> = Vec::new();
    items.push(Wire::text(name));
    items.push(Wire::Text(root.clone()));
    items.push(argument);
    let w = Wire::array(items);
    assert(w@->Array_0 =~= command_with(name@, root@, argument@)->Array_0);
    w
}

/// The answer to `version`.
#[derive(Debug, Clone, PartialEq)]
pub struct GetVersionResponse {
    /// The version of the server.
    pub version: String,
}

/// The mathematical value of a [`GetVersionResponse`].
pub ghost struct GetVersionResponseView {
    pub version: Seq<char>,
}

impl DeepView for GetVersionResponse {
    type V = GetVersionResponseView;

    open spec fn deep_view(&self) -> GetVersionResponseView {
        GetVersionResponseView {
            version: self.version.deep_view(),
        }
    }
}

impl Decode for GetVersionResponse {
    open spec fn spec_decode(w: WireView) -> Result<GetVersionResponseView, DecodeError> {
        let version = spec_required::<String>(w, "version");
        if version is Err {
            Err(version->Err_0)
        } else {
            Ok(
                GetVersionResponseView {
                    version: version->Ok_0,
                },
            )
        }
    }

    fn decode(w: &Wire) -> (r: Result<GetVersionResponse, DecodeError>)
        ensures
            decoded(r) == Self::spec_decode(w@),
    {
        let version = required::<String>(w, "version")?;
        Ok(GetVersionResponse { version })
    }
}

/// The answer to `watch-list`.
#[derive(Debug, Clone, PartialEq)]
pub struct WatchListResponse {
    /// The roots that the server watches.
    pub roots: Vec<String>,
}

/// The mathematical value of a [`WatchListResponse`].
pub ghost struct WatchListResponseView {
    pub roots: Seq<Seq<char>>,
}

impl DeepView for WatchListResponse {
    type V = WatchListResponseView;

    open spec fn deep_view(&self) -> WatchListResponseView {
        WatchListResponseView {
            roots: self.roots.deep_view(),
        }
    }
}

impl Decode for WatchListResponse {
    open spec fn spec_decode(w: WireView) -> Result<WatchListResponseView, DecodeError> {
        let roots = spec_required::<Vec<String>>(w, "roots");
        if roots is Err {
            Err(roots->Err_0)
        } else {
            Ok(
                WatchListResponseView {
                    roots: roots->Ok_0,
                },
            )
        }
    }

    fn decode(w: &Wire) -> (r: Result<WatchListResponse, DecodeError>)
        ensures
            decoded(r) == Self::spec_decode(w@),
    {
        let roots = required::<Vec<String>>(w, "roots")?;
        Ok(WatchListResponse { roots })
    }
}

/// The answer to `get-sockname`.
#[derive(Debug, Clone, PartialEq)]
pub struct GetSockNameResponse {
    /// The version of the server.
    pub version: String,
    /// The path of the socket that the server listens on.
    pub sockname: Option<String>,
    /// What the server has to say where it gives no socket. This is data
    /// for the caller, not a failure of the decoding.
    pub error: Option<String>,
}

/// The mathematical value of a [`GetSockNameResponse`].
pub ghost struct GetSockNameResponseView {
    pub version: Seq<char>,
    pub sockname: Option<Seq<char>>,
    pub error: Option<Seq<char>>,
}

impl DeepView for GetSockNameResponse {
    type V = GetSockNameResponseView;

    open spec fn deep_view(&self) -> GetSockNameResponseView {
        GetSockNameResponseView {
            version: self.version.deep_view(),
            sockname: self.sockname.deep_view(),
            error: self.error.deep_view(),
        }
    }
}

impl Decode for GetSockNameResponse {
    open spec fn spec_decode(w: WireView) -> Result<GetSockNameResponseView, DecodeError> {
        let version = spec_required::<String>(w, "version");
        let sockname = spec_optional::<String>(w, "sockname");
        let error = spec_optional::<String>(w, "error");
        if version is Err {
            Err(version->Err_0)
        } else if sockname is Err {
            Err(sockname->Err_0)
        } else if error is Err {
            Err(error->Err_0)
        } else {
            Ok(
                GetSockNameResponseView {
                    version: version->Ok_0,
                    sockname: sockname->Ok_0,
                    error: error->Ok_0,
                },
            )
        }
    }

    fn decode(w: &Wire) -> (r: Result<GetSockNameResponse, DecodeError>)
        ensures
            decoded(r) == Self::spec_decode(w@),
    {
        let version = required::<String>(w, "version")?;
        let sockname = optional::<String>(w, "sockname")?;
        let error = optional::<String>(w, "error")?;
        Ok(GetSockNameResponse { version, sockname, error })
    }
}

/// The answer to `clock`.
#[derive(Debug, Clone, PartialEq)]
pub struct ClockResponse {
    /// The version of the server.
    pub version: String,
    /// The clock at the time of the answer.
    pub clock: ClockSpec,
}

/// The mathematical value of a [`ClockResponse`].
pub ghost struct ClockResponseView {
    pub version: Seq<char>,
    pub clock: ClockSpecView,
}

impl DeepView for ClockResponse {
    type V = ClockResponseView;

    open spec fn deep_view(&self) -> ClockResponseView {
        ClockResponseView {
            version: self.version.deep_view(),
            clock: self.clock.deep_view(),
        }
    }
}

impl Decode for ClockResponse {
    open spec fn spec_decode(w: WireView) -> Result<ClockResponseView, DecodeError> {
        let version = spec_required::<String>(w, "version");
        let clock = spec_required::<ClockSpec>(w, "clock");
        if version is Err {
            Err(version->Err_0)
        } else if clock is Err {
            Err(clock->Err_0)
        } else {
            Ok(
                ClockResponseView {
                    version: version->Ok_0,
                    clock: clock->Ok_0,
                },
            )
        }
    }

    fn decode(w: &Wire) -> (r: Result<ClockResponse, DecodeError>)
        ensures
            decoded(r) == Self::spec_decode(w@),
    {
        let version = required::<String>(w, "version")?;
        let clock = required::<ClockSpec>(w, "clock")?;
        Ok(ClockResponse { version, clock })
    }
}

/// The parameters of `clock`.
#[derive(Debug, Clone)]
pub struct ClockRequestParams {
    /// How long to wait for the server's view to catch up. Here no field on
    /// the wire means no synchronization.
    pub sync_timeout: SyncTimeout,
}

impl ClockRequestParams {
    /// The map on the wire: the timeout, unless it is the one that absence
    /// stands for.
    pub open spec fn wire(&self) -> WireView {
        WireView::Object(self.sync_timeout.entries_in(SyncContext::ClockOrState))
    }

    /// The map on the wire.
    pub fn encode(&self) -> (w: Wire)
        ensures
            w@ == self.wire(),
    {
        let mut b = ObjectBuilder::new();
        self.sync_timeout.put_in(SyncContext::ClockOrState, &mut b);
        assert(b@ =~= self.wire()->Object_0);
        b.finish()
    }
}

/// The parameters of `clock` with synchronization switched off are the map
/// with no entry; with the server's default they hold 60000 under
/// `sync_timeout`.
pub proof fn lemma_clock_params_timeout(p: ClockRequestParams)
    ensures
        p.sync_timeout is DisableCookie ==> p.wire() == WireView::Object(Seq::empty()),
        p.sync_timeout is Default ==> p.wire().field("sync_timeout"@) == Some(
            WireView::Integer(60_000),
        ),
        p.sync_timeout is Duration ==> p.wire().field("sync_timeout"@) == Some(
            WireView::Integer(p.sync_timeout.millis()),
        ),
{
    lemma_lookup_at_most_one(p.wire()->Object_0, "sync_timeout"@);
}

/// The command `clock`: its name, the watched root, the parameters.
#[derive(Debug, Clone)]
pub struct ClockRequest(pub &'static str, pub String, pub ClockRequestParams);

impl ClockRequest {
    /// The command for the watched root `root`, under its name `clock`,
    /// with the given parameters.
    pub fn new(root: String, params: ClockRequestParams) -> (c: ClockRequest)
        ensures
            c.0@ == "clock"@,
            c.1 == root,
            c.2 == params,
    {
        ClockRequest("clock", root, params)
    }

    /// The command on the wire.
    pub open spec fn wire(&self) -> WireView {
        command_with(self.0@, self.1@, self.2.wire())
    }

    /// The command on the wire.
    pub fn encode(&self) -> (w: Wire)
        ensures
            w@ == self.wire(),
    {
        encode_command_with(self.0, &self.1, self.2.encode())
    }
}

/// The command `get-config`.
#[derive(Debug, Clone)]
pub struct GetConfigRequest(pub &'static str, pub String);

impl GetConfigRequest {
    /// The command for the watched root `root`, under its name `get-config`.
    pub fn new(root: String) -> (c: GetConfigRequest)
        ensures
            c.0@ == "get-config"@,
            c.1 == root,
    {
        GetConfigRequest("get-config", root)
    }

    /// The command on the wire: its name, then the watched root.
    pub open spec fn wire(&self) -> WireView {
        command_of_root(self.0@, self.1@)
    }

    /// The command on the wire.
    pub fn encode(&self) -> (w: Wire)
        ensures
            w@ == self.wire(),
    {
        encode_command_of_root(self.0, &self.1)
    }
}

/// What is known of the configuration of a watched root. The server may
/// send more than this; the rest is ignored.
#[derive(Debug, Clone, PartialEq)]
pub struct WatchmanConfig {
    /// The directories that the server does not look into.
    pub ignore_dirs: Option<Vec<String>>,
}

/// The mathematical value of a [`WatchmanConfig`].
pub ghost struct WatchmanConfigView {
    pub ignore_dirs: Option<Seq<Seq<char>>>,
}

impl DeepView for WatchmanConfig {
    type V = WatchmanConfigView;

    open spec fn deep_view(&self) -> WatchmanConfigView {
        WatchmanConfigView {
            ignore_dirs: self.ignore_dirs.deep_view(),
        }
    }
}

impl Decode for WatchmanConfig {
    open spec fn spec_decode(w: WireView) -> Result<WatchmanConfigView, DecodeError> {
        let ignore_dirs = spec_optional::<Vec<String>>(w, "ignore_dirs");
        if ignore_dirs is Err {
            Err(ignore_dirs->Err_0)
        } else {
            Ok(
                WatchmanConfigView {
                    ignore_dirs: ignore_dirs->Ok_0,
                },
            )
        }
    }

    fn decode(w: &Wire) -> (r: Result<WatchmanConfig, DecodeError>)
        ensures
            decoded(r) == Self::spec_decode(w@),
    {
        let ignore_dirs = optional::<Vec<String>>(w, "ignore_dirs")?;
        Ok(WatchmanConfig { ignore_dirs })
    }
}

/// The answer to `get-config`.
#[derive(Debug, Clone, PartialEq)]
pub struct GetConfigResponse {
    /// The version of the server.
    pub version: String,
    /// The configuration of the watched root.
    pub config: WatchmanConfig,
}

/// The mathematical value of a [`GetConfigResponse`].
pub ghost struct GetConfigResponseView {
    pub version: Seq<char>,
    pub config: WatchmanConfigView,
}

impl DeepView for GetConfigResponse {
    type V = GetConfigResponseView;

    open spec fn deep_view(&self) -> GetConfigResponseView {
        GetConfigResponseView {
            version: self.version.deep_view(),
            config: self.config.deep_view(),
        }
    }
}

impl Decode for GetConfigResponse {
    open spec fn spec_decode(w: WireView) -> Result<GetConfigResponseView, DecodeError> {
        let version = spec_required::<String>(w, "version");
        let config = spec_required::<WatchmanConfig>(w, "config");
        if version is Err {
            Err(version->Err_0)
        } else if config is Err {
            Err(config->Err_0)
        } else {
            Ok(
                GetConfigResponseView {
                    version: version->Ok_0,
                    config: config->Ok_0,
                },
            )
        }
    }

    fn decode(w: &Wire) -> (r: Result<GetConfigResponse, DecodeError>)
        ensures
            decoded(r) == Self::spec_decode(w@),
    {
        let version = required::<String>(w, "version")?;
        let config = required::<WatchmanConfig>(w, "config")?;
        Ok(GetConfigResponse { version, config })
    }
}

/// The parameters of `state-enter` and `state-leave`.
#[derive(Debug, Clone)]
pub struct StateEnterLeaveParams<'a> {
    /// The name of the state.
    pub name: &'a str,
    /// What the subscribers are told along with the state. Its content is
    /// the caller's.
    pub metadata: Option<Wire>,
    /// How long to wait for the server's view to catch up. Here no field on
    /// the wire means no synchronization.
    pub sync_timeout: SyncTimeout,
}

impl<'a> StateEnterLeaveParams<'a> {
    /// The metadata, where there is any, by its view.
    pub open spec fn metadata_wire(&self) -> Option<WireView> {
        match self.metadata {
            Some(m) => Some(m@),
            None => None,
        }
    }

    /// The map on the wire: the name, the metadata where there is any, and
    /// the timeout unless it is the one that absence stands for.
    pub open spec fn wire(&self) -> WireView {
        WireView::Object(
            entry("name"@, WireView::Text(self.name@)) + entry_some(
                "metadata"@,
                self.metadata_wire(),
            ) + self.sync_timeout.entries_in(SyncContext::ClockOrState),
        )
    }

    /// The map on the wire.
    pub fn encode(&self) -> (w: Wire)
        ensures
            w@ == self.wire(),
    {
        let mut b = ObjectBuilder::new();
        b.put("name", Wire::text(self.name));
        b.put_some("metadata", self.metadata.clone());
        self.sync_timeout.put_in(SyncContext::ClockOrState, &mut b);
        assert(b@ =~= self.wire()->Object_0);
        b.finish()
    }
}

/// The command `state-enter` or `state-leave`: its name, the watched root,
/// the parameters.
#[derive(Debug, Clone)]
pub struct StateEnterLeaveRequest<'a>(
    pub &'static str,
    pub String,
    pub StateEnterLeaveParams<'a>,
);

impl<'a> StateEnterLeaveRequest<'a> {
    /// The command that asserts a state on the watched root `root`, under
    /// its name `state-enter`.
    pub fn enter(root: String, params: StateEnterLeaveParams<'a>) -> (c: StateEnterLeaveRequest<'a>)
        ensures
            c.0@ == "state-enter"@,
            c.1 == root,
            c.2 == params,
    {
        StateEnterLeaveRequest("state-enter", root, params)
    }

    /// The command that ends a state on the watched root `root`, under its
    /// name `state-leave`.
    pub fn leave(root: String, params: StateEnterLeaveParams<'a>) -> (c: StateEnterLeaveRequest<'a>)
        ensures
            c.0@ == "state-leave"@,
            c.1 == root,
            c.2 == params,
    {
        StateEnterLeaveRequest("state-leave", root, params)
    }

    /// The command on the wire.
    pub open spec fn wire(&self) -> WireView {
        command_with(self.0@, self.1@, self.2.wire())
    }

    /// The command on the wire.
    pub fn encode(&self) -> (w: Wire)
        ensures
            w@ == self.wire(),
    {
        encode_command_with(self.0, &self.1, self.2.encode())
    }
}

/// The answer to `state-enter` and to `state-leave`.
#[derive(Debug, Clone, PartialEq)]
pub struct StateEnterLeaveResponse {
    /// The version of the server.
    pub version: String,
}

/// The mathematical value of a [`StateEnterLeaveResponse`].
pub ghost struct StateEnterLeaveResponseView {
    pub version: Seq<char>,
}

impl DeepView for StateEnterLeaveResponse {
    type V = StateEnterLeaveResponseView;

    open spec fn deep_view(&self) -> StateEnterLeaveResponseView {
        StateEnterLeaveResponseView {
            version: self.version.deep_view(),
        }
    }
}

impl Decode for StateEnterLeaveResponse {
    open spec fn spec_decode(w: WireView) -> Result<StateEnterLeaveResponseView, DecodeError> {
        let version = spec_required::<String>(w, "version");
        if version is Err {
            Err(version->Err_0)
        } else {
            Ok(
                StateEnterLeaveResponseView {
                    version: version->Ok_0,
                },
            )
        }
    }

    fn decode(w: &Wire) -> (r: Result<StateEnterLeaveResponse, DecodeError>)
        ensures
            decoded(r) == Self::spec_decode(w@),
    {
        let version = required::<String>(w, "version")?;
        Ok(StateEnterLeaveResponse { version })
    }
}

/// The command `watch-project`.
#[derive(Debug, Clone)]
pub struct WatchProjectRequest(pub &'static str, pub String);

impl WatchProjectRequest {
    /// The command for the watched root `root`, under its name `watch-project`.
    pub fn new(root: String) -> (c: WatchProjectRequest)
        ensures
            c.0@ == "watch-project"@,
            c.1 == root,
    {
        WatchProjectRequest("watch-project", root)
    }

    /// The command on the wire: its name, then the watched root.
    pub open spec fn wire(&self) -> WireView {
        command_of_root(self.0@, self.1@)
    }

    /// The command on the wire.
    pub fn encode(&self) -> (w: Wire)
        ensures
            w@ == self.wire(),
    {
        encode_command_of_root(self.0, &self.1)
    }
}

/// The answer to `watch-project`.
#[derive(Debug, Clone, PartialEq)]
pub struct WatchProjectResponse {
    /// The version of the server.
    pub version: String,
    /// The path of the directory asked for, from the root of its project.
    /// Where there is one, queries have to give it as their relative root.
    pub relative_path: Option<String>,
    /// The root of the project that is watched.
    pub watch: String,
    /// The mechanism by which the server watches the root.
    pub watcher: String,
}

/// The mathematical value of a [`WatchProjectResponse`].
pub ghost struct WatchProjectResponseView {
    pub version: Seq<char>,
    pub relative_path: Option<Seq<char>>,
    pub watch: Seq<char>,
    pub watcher: Seq<char>,
}

impl DeepView for WatchProjectResponse {
    type V = WatchProjectResponseView;

    open spec fn deep_view(&self) -> WatchProjectResponseView {
        WatchProjectResponseView {
            version: self.version.deep_view(),
            relative_path: self.relative_path.deep_view(),
            watch: self.watch.deep_view(),
            watcher: self.watcher.deep_view(),
        }
    }
}

impl Decode for WatchProjectResponse {
    open spec fn spec_decode(w: WireView) -> Result<WatchProjectResponseView, DecodeError> {
        let version = spec_required::<String>(w, "version");
        let relative_path = spec_optional::<String>(w, "relative_path");
        let watch = spec_required::<String>(w, "watch");
        let watcher = spec_required::<String>(w, "watcher");
        if version is Err {
            Err(version->Err_0)
        } else if relative_path is Err {
            Err(relative_path->Err_0)
        } else if watch is Err {
            Err(watch->Err_0)
        } else if watcher is Err {
            Err(watcher->Err_0)
        } else {
            Ok(
                WatchProjectResponseView {
                    version: version->Ok_0,
                    relative_path: relative_path->Ok_0,
                    watch: watch->Ok_0,
                    watcher: watcher->Ok_0,
                },
            )
        }
    }

    fn decode(w: &Wire) -> (r: Result<WatchProjectResponse, DecodeError>)
        ensures
            decoded(r) == Self::spec_decode(w@),
    {
        let version = required::<String>(w, "version")?;
        let relative_path = optional::<String>(w, "relative_path")?;
        let watch = required::<String>(w, "watch")?;
        let watcher = required::<String>(w, "watcher")?;
        Ok(WatchProjectResponse { version, relative_path, watch, watcher })
    }
}

/// The command `get-asserted-states`.
#[derive(Debug, Clone)]
pub struct GetAssertedStatesRequest(pub &'static str, pub String);

impl GetAssertedStatesRequest {
    /// The command for the watched root `root`, under its name `get-asserted-states`.
    pub fn new(root: String) -> (c: GetAssertedStatesRequest)
        ensures
            c.0@ == "get-asserted-states"@,
            c.1 == root,
    {
        GetAssertedStatesRequest("get-asserted-states", root)
    }

    /// The command on the wire: its name, then the watched root.
    pub open spec fn wire(&self) -> WireView {
        command_of_root(self.0@, self.1@)
    }

    /// The command on the wire.
    pub fn encode(&self) -> (w: Wire)
        ensures
            w@ == self.wire(),
    {
        encode_command_of_root(self.0, &self.1)
    }
}

/// A state that a client has asserted on a watched root.
#[derive(Debug, Clone, PartialEq)]
pub struct State {
    /// The name of the state.
    pub name: String,
    /// How far the assertion has come.
    pub state: String,
}

/// The mathematical value of a [`State`].
pub ghost struct StateView {
    pub name: Seq<char>,
    pub state: Seq<char>,
}

impl DeepView for State {
    type V = StateView;

    open spec fn deep_view(&self) -> StateView {
        StateView {
            name: self.name.deep_view(),
            state: self.state.deep_view(),
        }
    }
}

impl Decode for State {
    open spec fn spec_decode(w: WireView) -> Result<StateView, DecodeError> {
        let name = spec_required::<String>(w, "name");
        let state = spec_required::<String>(w, "state");
        if name is Err {
            Err(name->Err_0)
        } else if state is Err {
            Err(state->Err_0)
        } else {
            Ok(
                StateView {
                    name: name->Ok_0,
                    state: state->Ok_0,
                },
            )
        }
    }

    fn decode(w: &Wire) -> (r: Result<State, DecodeError>)
        ensures
            decoded(r) == Self::spec_decode(w@),
    {
        let name = required::<String>(w, "name")?;
        let state = required::<String>(w, "state")?;
        Ok(State { name, state })
    }
}

/// The answer to `get-asserted-states`.
#[derive(Debug, Clone, PartialEq)]
pub struct GetAssertedStatesResponse {
    /// The version of the server.
    pub version: String,
    /// The watched root.
    pub root: String,
    /// The states that are asserted on it.
    pub states: Vec<State>,
}

/// The mathematical value of a [`GetAssertedStatesResponse`].
pub ghost struct GetAssertedStatesResponseView {
    pub version: Seq<char>,
    pub root: Seq<char>,
    pub states: Seq<StateView>,
}

impl DeepView for GetAssertedStatesResponse {
    type V = GetAssertedStatesResponseView;

    open spec fn deep_view(&self) -> GetAssertedStatesResponseView {
        GetAssertedStatesResponseView {
            version: self.version.deep_view(),
            root: self.root.deep_view(),
            states: self.states.deep_view(),
        }
    }
}

impl Decode for GetAssertedStatesResponse {
    open spec fn spec_decode(w: WireView) -> Result<GetAssertedStatesResponseView, DecodeError> {
        let version = spec_required::<String>(w, "version");
        let root = spec_required::<String>(w, "root");
        let states = spec_required::<Vec<State>>(w, "states");
        if version is Err {
            Err(version->Err_0)
        } else if root is Err {
            Err(root->Err_0)
        } else if states is Err {
            Err(states->Err_0)
        } else {
            Ok(
                GetAssertedStatesResponseView {
                    version: version->Ok_0,
                    root: root->Ok_0,
                    states: states->Ok_0,
                },
            )
        }
    }

    fn decode(w: &Wire) -> (r: Result<GetAssertedStatesResponse, DecodeError>)
        ensures
            decoded(r) == Self::spec_decode(w@),
    {
        let version = required::<String>(w, "version")?;
        let root = required::<String>(w, "root")?;
        let states = required::<Vec<State>>(w, "states")?;
        Ok(GetAssertedStatesResponse { version, root, states })
    }
}
} // verus!
