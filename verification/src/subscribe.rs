//! Subscriptions: queries whose answers keep coming as files change.

use crate::clock::Clock;
use crate::clock::ClockView;
use crate::codec::decoded;
use crate::codec::defaulted;
use crate::codec::optional;
use crate::codec::required;
use crate::codec::spec_defaulted;
use crate::codec::spec_optional;
use crate::codec::spec_required;
use crate::codec::Decode;
use crate::encode::entry;
use crate::encode::entry_flag;
use crate::encode::entry_if;
use crate::encode::entry_some;
use crate::encode::name_array;
use crate::encode::some_text;
use crate::encode::texts;
use crate::encode::ObjectBuilder;
use crate::error::DecodeError;
use crate::query::encode_some_clock;
use crate::query::some_clock;
use crate::query::some_wire;
use crate::wire::Wire;
use crate::wire::WireView;
use vstd::prelude::*;

verus! {

/// What a subscription looks for, and when its notices are held back.
#[derive(Debug, Clone)]
pub struct SubscribeRequest {
    /// The clock to look back to for the first notice.
    pub since: Option<Clock>,
    /// The directory below the watched root that all paths are taken from.
    pub relative_root: Option<String>,
    /// The expression that a file must match. Its content is the caller's.
    pub expression: Option<Wire>,
    /// The names of the fields to report of each file.
    pub fields: Vec<&'static str>,
    /// Whether a notice that would list everything comes empty instead.
    pub empty_on_fresh_instance: bool,
    /// Whether names are compared by case even where the filesystem does
    /// not.
    pub case_sensitive: bool,
    /// Whether notices wait while the source control system is at work:
    /// short for deferring on the states that the server keeps for it.
    pub defer_vcs: bool,
    /// The states during which notices are held back, to be sent once the
    /// state is left.
    pub defer: Vec<&'static str>,
    /// The states during which notices are thrown away, never to be sent.
    pub drop: Vec<&'static str>,
}

impl SubscribeRequest {
    /// The map on the wire: the fields in any case; a flag only where it is
    /// set; a list of states only where it names one; every other part only
    /// where it is there.
    pub open spec fn wire(&self) -> WireView {
        WireView::Object(
            entry_some("since"@, some_clock(self.since.deep_view())) + entry_some(
                "relative_root"@,
                some_text(self.relative_root.deep_view()),
            ) + entry_some("expression"@, some_wire(self.expression)) + entry(
                "fields"@,
                texts(self.fields.deep_view()),
            ) + entry_flag("empty_on_fresh_instance"@, self.empty_on_fresh_instance) + entry_flag(
                "case_sensitive"@,
                self.case_sensitive,
            ) + entry_flag("defer_vcs"@, self.defer_vcs) + entry_if(
                self.defer@.len() > 0,
                "defer"@,
                texts(self.defer.deep_view()),
            ) + entry_if(self.drop@.len() > 0, "drop"@, texts(self.drop.deep_view())),
        )
    }

    /// The map on the wire.
    pub fn encode(&self) -> (w: Wire)
        ensures
            w@ == self.wire(),
    {
        let mut b = ObjectBuilder::new();
        b.put_some("since", encode_some_clock(&self.since));
        b.put_some_text("relative_root", &self.relative_root);
        b.put_some("expression", self.expression.clone());
        b.put("fields", name_array(&self.fields));
        b.put_flag("empty_on_fresh_instance", self.empty_on_fresh_instance);
        b.put_flag("case_sensitive", self.case_sensitive);
        b.put_flag("defer_vcs", self.defer_vcs);
        b.put_if(self.defer.len() > 0, "defer", name_array(&self.defer));
        b.put_if(self.drop.len() > 0, "drop", name_array(&self.drop));
        assert(b@ =~= self.wire()->Object_0);
        b.finish()
    }
}

impl Default for SubscribeRequest {
    /// The subscription to everything, with no field and nothing held back.
    fn default() -> (s: SubscribeRequest)
        ensures
            s.since is None,
            s.relative_root is None,
            s.expression is None,
            s.fields@.len() == 0,
            !s.empty_on_fresh_instance,
            !s.case_sensitive,
            !s.defer_vcs,
            s.defer@.len() == 0,
            s.drop@.len() == 0,
    {
        SubscribeRequest {
            since: None,
            relative_root: None,
            expression: None,
            fields: Vec::new(),
            empty_on_fresh_instance: false,
            case_sensitive: false,
            defer_vcs: false,
            defer: Vec::new(),
            drop: Vec::new(),
        }
    }
}

/// The sequence of a command that has two arguments after the watched root.
pub open spec fn command_with_two(
    name: Seq<char>,
    root: Seq<char>,
    first: WireView,
    second: WireView,
) -> WireView {
    WireView::Array(seq![WireView::Text(name), WireView::Text(root), first, second])
}

/// The command `subscribe`: its name, the watched root, the name of the
/// subscription, what it looks for.
#[derive(Debug, Clone)]
pub struct SubscribeCommand(pub &'static str, pub String, pub String, pub SubscribeRequest);

impl SubscribeCommand {
    /// The command for the watched root `root`, under its name `subscribe`,
    /// with the name of the subscription and what it looks for.
    pub fn new(root: String, name: String, request: SubscribeRequest) -> (c: SubscribeCommand)
        ensures
            c.0@ == "subscribe"@,
            c.1 == root,
            c.2 == name,
            c.3 == request,
    {
        SubscribeCommand("subscribe", root, name, request)
    }

    /// The command on the wire.
    pub open spec fn wire(&self) -> WireView {
        command_with_two(self.0@, self.1@, WireView::Text(self.2@), self.3.wire())
    }

    /// The command on the wire.
    pub fn encode(&self) -> (w: Wire)
        ensures
            w@ == self.wire(),
    {
        let mut items: Vec<Wire> = Vec::new();
        items.push(Wire::text(self.0));
        items.push(Wire::Text(self.1.clone()));
        items.push(Wire::Text(self.2.clone()));
        items.push(self.3.encode());
        let w = Wire::array(items);
        assert(w@->Array_0 =~= self.wire()->Array_0);
        w
    }
}

/// The answer to `subscribe`: how things stood when the subscription began.
#[derive(Debug, Clone, PartialEq)]
pub struct SubscribeResponse {
    /// The version of the server.
    pub version: String,
    /// The name of the subscription.
    pub subscribe: String,
    /// The clock at that time.
    pub clock: Clock,
    /// The states that were asserted at that time. A client that comes
    /// between the entering of a state and the leaving of it learns of
    /// the state here.
    pub asserted_states: Vec<String>,
    /// What the storage of saved states said, for a subscription that
    /// asked for a saved state.
    pub saved_state_info: Option<Wire>,
}

/// The mathematical value of a [`SubscribeResponse`].
pub ghost struct SubscribeResponseView {
    pub version: Seq<char>,
    pub subscribe: Seq<char>,
    pub clock: ClockView,
    pub asserted_states: Seq<Seq<char>>,
    pub saved_state_info: Option<WireView>,
}

impl DeepView for SubscribeResponse {
    type V = SubscribeResponseView;

    open spec fn deep_view(&self) -> SubscribeResponseView {
        SubscribeResponseView {
            version: self.version.deep_view(),
            subscribe: self.subscribe.deep_view(),
            clock: self.clock.deep_view(),
            asserted_states: self.asserted_states.deep_view(),
            saved_state_info: self.saved_state_info.deep_view(),
        }
    }
}

impl Decode for SubscribeResponse {
    open spec fn spec_decode(w: WireView) -> Result<SubscribeResponseView, DecodeError> {
        let version = spec_required::<String>(w, "version");
        let subscribe = spec_required::<String>(w, "subscribe");
        let clock = spec_required::<Clock>(w, "clock");
        let asserted_states = spec_defaulted::<Vec<String>>(w, "asserted-states", Seq::<Seq<char>>::empty());
        let saved_state_info = spec_optional::<Wire>(w, "saved-state-info");
        if version is Err {
            Err(version->Err_0)
        } else if subscribe is Err {
            Err(subscribe->Err_0)
        } else if clock is Err {
            Err(clock->Err_0)
        } else if asserted_states is Err {
            Err(asserted_states->Err_0)
        } else if saved_state_info is Err {
            Err(saved_state_info->Err_0)
        } else {
            Ok(
                SubscribeResponseView {
                    version: version->Ok_0,
                    subscribe: subscribe->Ok_0,
                    clock: clock->Ok_0,
                    asserted_states: asserted_states->Ok_0,
                    saved_state_info: saved_state_info->Ok_0,
                },
            )
        }
    }

    fn decode(w: &Wire) -> (r: Result<SubscribeResponse, DecodeError>)
        ensures
            decoded(r) == Self::spec_decode(w@),
    {
        let version = required::<String>(w, "version")?;
        let subscribe = required::<String>(w, "subscribe")?;
        let clock = required::<Clock>(w, "clock")?;
        let none: Vec<String> = Vec::new();
        assert(none.deep_view() =~= Seq::<Seq<char>>::empty());
        let asserted_states = defaulted::<Vec<String>>(w, "asserted-states", none)?;
        let saved_state_info = optional::<Wire>(w, "saved-state-info")?;
        Ok(SubscribeResponse { version, subscribe, clock, asserted_states, saved_state_info })
    }
}

/// The command `unsubscribe`: its name, the watched root, the name of the
/// subscription.
#[derive(Debug, Clone)]
pub struct Unsubscribe(pub &'static str, pub String, pub String);

impl Unsubscribe {
    /// The command for the watched root `root`, under its name `unsubscribe`,
    /// with the name of the subscription.
    pub fn new(root: String, name: String) -> (c: Unsubscribe)
        ensures
            c.0@ == "unsubscribe"@,
            c.1 == root,
            c.2 == name,
    {
        Unsubscribe("unsubscribe", root, name)
    }

    /// The command on the wire.
    pub open spec fn wire(&self) -> WireView {
        WireView::Array(
            seq![WireView::Text(self.0@), WireView::Text(self.1@), WireView::Text(self.2@)],
        )
    }

    /// The command on the wire.
    pub fn encode(&self) -> (w: Wire)
        ensures
            w@ == self.wire(),
    {
        let mut items: Vec<Wire> = Vec::new();
        items.push(Wire::text(self.0));
        items.push(Wire::Text(self.1.clone()));
        items.push(Wire::Text(self.2.clone()));
        let w = Wire::array(items);
        assert(w@->Array_0 =~= self.wire()->Array_0);
        w
    }
}

/// The answer to `unsubscribe`.
#[derive(Debug, Clone, PartialEq)]
pub struct UnsubscribeResponse {
    /// The version of the server.
    pub version: String,
    /// The name of the subscription that ended.
    pub unsubscribe: String,
}

/// The mathematical value of a [`UnsubscribeResponse`].
pub ghost struct UnsubscribeResponseView {
    pub version: Seq<char>,
    pub unsubscribe: Seq<char>,
}

impl DeepView for UnsubscribeResponse {
    type V = UnsubscribeResponseView;

    open spec fn deep_view(&self) -> UnsubscribeResponseView {
        UnsubscribeResponseView {
            version: self.version.deep_view(),
            unsubscribe: self.unsubscribe.deep_view(),
        }
    }
}

impl Decode for UnsubscribeResponse {
    open spec fn spec_decode(w: WireView) -> Result<UnsubscribeResponseView, DecodeError> {
        let version = spec_required::<String>(w, "version");
        let unsubscribe = spec_required::<String>(w, "unsubscribe");
        if version is Err {
            Err(version->Err_0)
        } else if unsubscribe is Err {
            Err(unsubscribe->Err_0)
        } else {
            Ok(
                UnsubscribeResponseView {
                    version: version->Ok_0,
                    unsubscribe: unsubscribe->Ok_0,
                },
            )
        }
    }

    fn decode(w: &Wire) -> (r: Result<UnsubscribeResponse, DecodeError>)
        ensures
            decoded(r) == Self::spec_decode(w@),
    {
        let version = required::<String>(w, "version")?;
        let unsubscribe = required::<String>(w, "unsubscribe")?;
        Ok(UnsubscribeResponse { version, unsubscribe })
    }
}
} // verus!
