//! Durations as the protocol carries them: a count of milliseconds.

use crate::encode::entry_if;
use crate::encode::ObjectBuilder;
use crate::wire::Wire;
use crate::wire::WireView;
use std::time::Duration;
use vstd::prelude::*;
use vstd::std_specs::convert::FromSpecImpl;

verus! {

/// The whole milliseconds that a duration holds: what `Duration::as_millis`
/// returns for it.
pub uninterp spec fn duration_millis(d: Duration) -> u128;

/// `Duration::as_millis` of std: the total number of whole milliseconds
/// contained by the duration.
#[verifier::external_body]
fn as_millis(d: &Duration) -> (ms: u128)
    ensures
        ms == duration_millis(*d),
{
    d.as_millis()
}

/// `Clone::clone` of std for `Duration`, which is `Copy`: the clone is the
/// duration itself.
pub assume_specification[ <std::time::Duration as Clone>::clone ](d: &std::time::Duration) -> (r:
    std::time::Duration)
    ensures
        r == *d,
;

/// A count of milliseconds as the wire carries it: cut to its low 64 bits and
/// read as a signed integer, so a count that fits is carried unchanged.
pub open spec fn spec_wire_millis(ms: u128) -> i64 {
    ms as i64
}

/// See [`spec_wire_millis`].
pub fn wire_millis(ms: u128) -> (n: i64)
    ensures
        n == spec_wire_millis(ms),
        ms <= i64::MAX ==> n == ms,
{
    #[verifier::truncate]
    (ms as i64)
}

/// How long the server waits for its view of the filesystem to catch up
/// before it answers.
#[derive(Debug, Clone)]
pub enum SyncTimeout {
    /// Use the server's default timeout.
    Default,
    /// Do not synchronize at all. This saves latency, and the answer may be
    /// from an outdated view of the filesystem.
    DisableCookie,
    /// Wait this long. The server counts in milliseconds.
    Duration(Duration),
}

/// Where a timeout is written. The two kinds of command give the absence of
/// the field different meanings, so each leaves out a different variant.
#[derive(Debug, Clone, Copy, PartialEq, Eq, Structural)]
pub enum SyncContext {
    /// The parameters of a query, where no field means the server's
    /// default.
    Query,
    /// The parameters of a clock or state command, where no field means no
    /// synchronization.
    ClockOrState,
}

/// The milliseconds that stand for the server's default timeout, one minute,
/// where the default has to be written out.
pub const DEFAULT_SYNC_TIMEOUT_MS: i64 = 60_000;

impl SyncTimeout {
    /// The timeout as the wire carries it, in milliseconds.
    pub open spec fn millis(self) -> i64 {
        match self {
            SyncTimeout::Default => DEFAULT_SYNC_TIMEOUT_MS,
            SyncTimeout::DisableCookie => 0,
            SyncTimeout::Duration(d) => spec_wire_millis(duration_millis(d)),
        }
    }

    /// The timeout for a duration of which `millis` is the count of whole
    /// milliseconds: no synchronization where there is not one whole
    /// millisecond, else the duration itself.
    pub open spec fn spec_with_millis(duration: Duration, millis: u128) -> SyncTimeout {
        if millis == 0 {
            SyncTimeout::DisableCookie
        } else {
            SyncTimeout::Duration(duration)
        }
    }

    /// See [`SyncTimeout::spec_with_millis`].
    pub fn with_millis(duration: Duration, millis: u128) -> (t: SyncTimeout)
        ensures
            t == Self::spec_with_millis(duration, millis),
    {
        if millis == 0 {
            SyncTimeout::DisableCookie
        } else {
            SyncTimeout::Duration(duration)
        }
    }

    /// Whether the timeout is left out in the given context: the variant
    /// that the absence of the field stands for there.
    pub open spec fn spec_omitted_in(self, context: SyncContext) -> bool {
        match context {
            SyncContext::Query => self is Default,
            SyncContext::ClockOrState => self is DisableCookie,
        }
    }

    /// The entries that the timeout adds to the parameters of a command in
    /// the given context: none where it is left out, else its milliseconds
    /// under `sync_timeout`.
    pub open spec fn entries_in(self, context: SyncContext) -> Seq<(Seq<char>, WireView)> {
        entry_if(
            !self.spec_omitted_in(context),
            "sync_timeout"@,
            WireView::Integer(self.millis()),
        )
    }

    /// See [`SyncTimeout::spec_omitted_in`].
    pub fn omitted_in(&self, context: SyncContext) -> (b: bool)
        ensures
            b == self.spec_omitted_in(context),
    {
        match context {
            SyncContext::Query => self.is_default(),
            SyncContext::ClockOrState => self.is_disabled(),
        }
    }

    /// Writes the timeout to the parameters of a command in the given
    /// context.
    pub fn put_in(&self, context: SyncContext, b: &mut ObjectBuilder)
        ensures
            final(b)@ == old(b)@ + self.entries_in(context),
    {
        b.put_if(!self.omitted_in(context), "sync_timeout", Wire::Integer(self.to_millis()));
    }

    /// Whether this is the server's default.
    pub fn is_default(&self) -> (b: bool)
        ensures
            b == (*self is Default),
    {
        match self {
            SyncTimeout::Default => true,
            _ => false,
        }
    }

    /// Whether synchronization is switched off.
    pub fn is_disabled(&self) -> (b: bool)
        ensures
            b == (*self is DisableCookie),
    {
        match self {
            SyncTimeout::DisableCookie => true,
            _ => false,
        }
    }

    /// The timeout as the wire carries it, in milliseconds.
    pub fn to_millis(&self) -> (n: i64)
        ensures
            n == self.millis(),
    {
        match self {
            SyncTimeout::Default => DEFAULT_SYNC_TIMEOUT_MS,
            SyncTimeout::DisableCookie => 0,
            SyncTimeout::Duration(d) => wire_millis(as_millis(d)),
        }
    }
}

/// What a timeout adds to the parameters of a query: nothing where it is
/// the server's default, else its milliseconds, which are 0 where
/// synchronization is switched off.
pub proof fn lemma_timeout_in_query(t: SyncTimeout)
    ensures
        t is Default ==> t.entries_in(SyncContext::Query) == Seq::<(Seq<char>, WireView)>::empty(),
        t is DisableCookie ==> t.entries_in(SyncContext::Query) == seq![
            ("sync_timeout"@, WireView::Integer(0)),
        ],
        t is Duration ==> t.entries_in(SyncContext::Query) == seq![
            ("sync_timeout"@, WireView::Integer(spec_wire_millis(duration_millis(t->Duration_0)))),
        ],
{
}

/// What a timeout adds to the parameters of a clock or state command:
/// nothing where synchronization is switched off, which is therefore not to
/// be told from a timeout that was never set; 60000 for the server's
/// default; else its milliseconds.
pub proof fn lemma_timeout_in_clock_or_state(t: SyncTimeout)
    ensures
        t is DisableCookie ==> t.entries_in(SyncContext::ClockOrState) == Seq::<
            (Seq<char>, WireView),
        >::empty(),
        t is Default ==> t.entries_in(SyncContext::ClockOrState) == seq![
            ("sync_timeout"@, WireView::Integer(60_000)),
        ],
        t is Duration ==> t.entries_in(SyncContext::ClockOrState) == seq![
            ("sync_timeout"@, WireView::Integer(spec_wire_millis(duration_millis(t->Duration_0)))),
        ],
{
}

impl Default for SyncTimeout {
    fn default() -> (t: SyncTimeout)
        ensures
            t == SyncTimeout::Default,
    {
        SyncTimeout::Default
    }
}

impl From<Duration> for SyncTimeout {
    fn from(duration: Duration) -> (t: SyncTimeout)
        ensures
            t == SyncTimeout::spec_with_millis(duration, duration_millis(duration)),
    {
        let millis = as_millis(&duration);
        SyncTimeout::with_millis(duration, millis)
    }
}

impl FromSpecImpl<Duration> for SyncTimeout {
    open spec fn obeys_from_spec() -> bool {
        true
    }

    open spec fn from_spec(duration: Duration) -> SyncTimeout {
        SyncTimeout::spec_with_millis(duration, duration_millis(duration))
    }
}

impl From<SyncTimeout> for i64 {
    fn from(val: SyncTimeout) -> (n: i64)
        ensures
            n == val.millis(),
    {
        val.to_millis()
    }
}

impl FromSpecImpl<SyncTimeout> for i64 {
    open spec fn obeys_from_spec() -> bool {
        true
    }

    open spec fn from_spec(val: SyncTimeout) -> i64 {
        val.millis()
    }
}

/// How long the filesystem must have been quiet, counted in milliseconds on
/// the wire.
#[derive(Debug, Clone)]
pub struct SettleDurationMs(pub Duration);

impl SettleDurationMs {
    /// The duration as the wire carries it, in milliseconds.
    pub open spec fn millis(self) -> i64 {
        spec_wire_millis(duration_millis(self.0))
    }

    /// The duration as the wire carries it, in milliseconds.
    pub fn to_millis(&self) -> (n: i64)
        ensures
            n == self.millis(),
    {
        wire_millis(as_millis(&self.0))
    }
}

impl From<Duration> for SettleDurationMs {
    fn from(duration: Duration) -> (s: SettleDurationMs)
        ensures
            s == SettleDurationMs(duration),
    {
        SettleDurationMs(duration)
    }
}

impl FromSpecImpl<Duration> for SettleDurationMs {
    open spec fn obeys_from_spec() -> bool {
        true
    }

    open spec fn from_spec(duration: Duration) -> SettleDurationMs {
        SettleDurationMs(duration)
    }
}

impl From<SettleDurationMs> for i64 {
    fn from(val: SettleDurationMs) -> (n: i64)
        ensures
            n == val.millis(),
    {
        val.to_millis()
    }
}

impl FromSpecImpl<SettleDurationMs> for i64 {
    open spec fn obeys_from_spec() -> bool {
        true
    }

    open spec fn from_spec(val: SettleDurationMs) -> i64 {
        val.millis()
    }
}

} // verus!
