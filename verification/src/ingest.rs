//! The course of one collection run: connect, authenticate, discover the
//! naming contexts, stream every context page by page into the store, and
//! persist. The network and the store are driven from outside; this module
//! decides what comes next.

use crate::text::{contains, contains_seq, texts};
use vstd::prelude::*;

verus! {

/// The number of records asked for in one page. Asking for more than the
/// server hands out unpaged ends the query with a protocol error.
pub const PAGE_SIZE: i32 = 999;

/// The control that makes the server return security descriptors.
pub const SD_FLAGS_CONTROL: &'static str = "1.2.840.113556.1.4.801";

/// The value of the control: owner, group and DACL are asked for.
pub const SD_FLAGS_VALUE: [u8; 5] = [48, 3, 2, 1, 5];

/// The seconds allowed for the connection to be made.
pub const CONNECT_TIMEOUT_SECONDS: u64 = 10;

/// How the run authenticates.
#[derive(Debug, Clone, Copy, PartialEq, Eq, Structural)]
pub enum BindMethod {
    /// User name and password.
    Simple,
    /// User name and NTLM hash.
    Ntlm,
    /// The Kerberos session of the caller.
    Gssapi,
}

/// Where a run stands.
#[derive(Debug, Clone, Copy, PartialEq, Eq, Structural)]
pub enum Phase {
    Connect,
    Authenticate,
    Discover,
    /// Streaming the naming context at place `current`.
    Stream,
    /// Every context is streamed; the connection is being given up.
    Unbind,
    Persist,
    Done,
    Failed,
}

/// Why a run ends without a graph.
#[derive(Debug, Clone, Copy, PartialEq, Eq, Structural)]
pub enum Fatal {
    Connection,
    Authentication,
    /// Kerberos needs the name of the domain controller.
    MissingControllerName,
    NamingContexts,
    /// No record came from any naming context.
    NoRecords,
    Storage,
    /// Something happened that the phase does not expect.
    OutOfTurn,
}

/// What happened outside.
#[derive(Debug, Clone, Copy, PartialEq, Eq, Structural)]
pub enum Event {
    Connected,
    ConnectionFailed,
    Bound,
    BindFailed,
    /// The naming contexts are known: how many, and whether one of them is
    /// the configuration partition.
    Contexts { count: usize, with_configuration: bool },
    DiscoveryFailed,
    /// One record arrived and the store took it.
    Stored,
    /// One record arrived and the store refused it.
    StoreFailed,
    /// The current context has no more records, whether the server ended it
    /// well or not.
    ContextDone,
    Unbound,
    Flushed,
    FlushFailed,
}

/// What to do next.
#[derive(Debug, Clone, Copy, PartialEq, Eq, Structural)]
pub enum Action {
    Connect,
    Bind { method: BindMethod },
    Discover,
    /// Start the paged subtree query of the naming context at `context`.
    Search { context: usize },
    /// Wait for the next record of the running query.
    Next,
    Unbind,
    Flush,
    /// The run is over with `total` records.
    Finish { total: usize },
    Fail { reason: Fatal },
}

/// The state of a run.
#[derive(Debug, Clone, Copy, PartialEq, Eq, Structural)]
pub struct Pipeline {
    pub phase: Phase,
    pub method: BindMethod,
    /// Whether the name of the domain controller is known.
    pub controller_known: bool,
    /// The number of naming contexts.
    pub contexts: usize,
    /// The context that is streamed.
    pub current: usize,
    /// The records stored so far.
    pub total: usize,
}

/// A state in which the run has failed.
pub open spec fn failed(p: Pipeline) -> Pipeline {
    Pipeline { phase: Phase::Failed, ..p }
}

/// One more record, without ever wrapping around.
pub open spec fn counted(total: usize) -> usize {
    if total < usize::MAX {
        (total + 1) as usize
    } else {
        total
    }
}

/// The state after the contexts are streamed up to `current`: the next
/// context when there is one, giving up the connection otherwise.
pub open spec fn after_context(p: Pipeline, next: usize) -> (Pipeline, Action) {
    if next < p.contexts {
        (Pipeline { phase: Phase::Stream, current: next, ..p }, Action::Search { context: next })
    } else {
        (Pipeline { phase: Phase::Unbind, current: next, ..p }, Action::Unbind)
    }
}

/// The state and the action that follow an event. Authentication failure,
/// failure to discover the naming contexts, and a run without any record are
/// fatal; a query that the server ends badly is not. Without a configuration
/// partition among the contexts nothing is queried.
pub open spec fn spec_step(p: Pipeline, event: Event) -> (Pipeline, Action) {
    match (p.phase, event) {
        (Phase::Connect, Event::Connected) => {
            if p.method == BindMethod::Gssapi && !p.controller_known {
                (failed(p), Action::Fail { reason: Fatal::MissingControllerName })
            } else {
                (Pipeline { phase: Phase::Authenticate, ..p }, Action::Bind { method: p.method })
            }
        },
        (Phase::Connect, Event::ConnectionFailed) => (
            failed(p),
            Action::Fail { reason: Fatal::Connection },
        ),
        (Phase::Authenticate, Event::Bound) => (
            Pipeline { phase: Phase::Discover, ..p },
            Action::Discover,
        ),
        (Phase::Authenticate, Event::BindFailed) => (
            failed(p),
            Action::Fail { reason: Fatal::Authentication },
        ),
        (Phase::Discover, Event::Contexts { count, with_configuration }) => {
            if with_configuration {
                after_context(Pipeline { contexts: count, total: 0, ..p }, 0)
            } else {
                (
                    Pipeline { phase: Phase::Failed, contexts: count, total: 0, ..p },
                    Action::Fail { reason: Fatal::NoRecords },
                )
            }
        },
        (Phase::Discover, Event::DiscoveryFailed) => (
            failed(p),
            Action::Fail { reason: Fatal::NamingContexts },
        ),
        (Phase::Stream, Event::Stored) => (Pipeline { total: counted(p.total), ..p }, Action::Next),
        (Phase::Stream, Event::StoreFailed) => (failed(p), Action::Fail { reason: Fatal::Storage }),
        (Phase::Stream, Event::ContextDone) => {
            if p.current < p.contexts {
                after_context(p, (p.current + 1) as usize)
            } else {
                after_context(p, p.current)
            }
        },
        (Phase::Unbind, Event::Unbound) => {
            if p.total == 0 {
                (failed(p), Action::Fail { reason: Fatal::NoRecords })
            } else {
                (Pipeline { phase: Phase::Persist, ..p }, Action::Flush)
            }
        },
        (Phase::Persist, Event::Flushed) => (
            Pipeline { phase: Phase::Done, ..p },
            Action::Finish { total: p.total },
        ),
        (Phase::Persist, Event::FlushFailed) => (
            failed(p),
            Action::Fail { reason: Fatal::Storage },
        ),
        _ => (failed(p), Action::Fail { reason: Fatal::OutOfTurn }),
    }
}

impl Pipeline {
    /// A run that has not connected yet.
    pub fn new(method: BindMethod, controller_known: bool) -> (p: Self)
        ensures
            p == (Pipeline {
                phase: Phase::Connect,
                method,
                controller_known,
                contexts: 0,
                current: 0,
                total: 0,
            }),
    {
        Pipeline {
            phase: Phase::Connect,
            method,
            controller_known,
            contexts: 0,
            current: 0,
            total: 0,
        }
    }

    fn enter_context(&mut self, next: usize) -> (action: Action)
        ensures
            (*final(self), action) == after_context(*old(self), next),
    {
        self.current = next;
        if next < self.contexts {
            self.phase = Phase::Stream;
            Action::Search { context: next }
        } else {
            self.phase = Phase::Unbind;
            Action::Unbind
        }
    }

    fn fail(&mut self, reason: Fatal) -> (action: Action)
        ensures
            *final(self) == failed(*old(self)),
            action == (Action::Fail { reason }),
    {
        self.phase = Phase::Failed;
        Action::Fail { reason }
    }

    /// Takes an event and says what to do next.
    pub fn step(&mut self, event: Event) -> (action: Action)
        ensures
            (*final(self), action) == spec_step(*old(self), event),
    {
        match (self.phase, event) {
            (Phase::Connect, Event::Connected) => {
                if self.method == BindMethod::Gssapi && !self.controller_known {
                    self.fail(Fatal::MissingControllerName)
                } else {
                    self.phase = Phase::Authenticate;
                    Action::Bind { method: self.method }
                }
            },
            (Phase::Connect, Event::ConnectionFailed) => self.fail(Fatal::Connection),
            (Phase::Authenticate, Event::Bound) => {
                self.phase = Phase::Discover;
                Action::Discover
            },
            (Phase::Authenticate, Event::BindFailed) => self.fail(Fatal::Authentication),
            (Phase::Discover, Event::Contexts { count, with_configuration }) => {
                self.contexts = count;
                self.total = 0;
                if with_configuration {
                    self.enter_context(0)
                } else {
                    self.fail(Fatal::NoRecords)
                }
            },
            (Phase::Discover, Event::DiscoveryFailed) => self.fail(Fatal::NamingContexts),
            (Phase::Stream, Event::Stored) => {
                if self.total < usize::MAX {
                    self.total = self.total + 1;
                }
                Action::Next
            },
            (Phase::Stream, Event::StoreFailed) => self.fail(Fatal::Storage),
            (Phase::Stream, Event::ContextDone) => {
                if self.current < self.contexts {
                    self.enter_context(self.current + 1)
                } else {
                    self.enter_context(self.current)
                }
            },
            (Phase::Unbind, Event::Unbound) => {
                if self.total == 0 {
                    self.fail(Fatal::NoRecords)
                } else {
                    self.phase = Phase::Persist;
                    Action::Flush
                }
            },
            (Phase::Persist, Event::Flushed) => {
                self.phase = Phase::Done;
                Action::Finish { total: self.total }
            },
            (Phase::Persist, Event::FlushFailed) => self.fail(Fatal::Storage),
            _ => self.fail(Fatal::OutOfTurn),
        }
    }
}

/// Whether one of the naming contexts is the configuration partition: its
/// name holds `Configuration`.
pub open spec fn spec_has_configuration(contexts: Seq<Seq<char>>) -> bool {
    exists|i: int| 0 <= i < contexts.len() && contains_seq(#[trigger] contexts[i], "Configuration"@)
}

/// Whether one of the naming contexts is the configuration partition.
pub fn has_configuration(contexts: &Vec<String>) -> (r: bool)
    ensures
        r == spec_has_configuration(texts(contexts@)),
{
    let mut i: usize = 0;
    while i < contexts.len()
        invariant
            i <= contexts.len(),
            forall|j: int| 0 <= j < i ==> !contains_seq(
                #[trigger] texts(contexts@)[j],
                "Configuration"@,
            ),
        decreases contexts.len() - i,
    {
        assert(texts(contexts@)[i as int] == contexts@[i as int]@);
        if contains(contexts[i].as_str(), "Configuration") {
            return true;
        }
        i += 1;
    }
    false
}

/// What stands for a user name or a password that was not given.
pub const NOT_SET: &'static str = "not set";

/// Whether the user has to be asked for a name: none was given and the run
/// does not use Kerberos.
pub fn needs_username(username_given: bool, kerberos: bool) -> (r: bool)
    ensures
        r == (!username_given && !kerberos),
{
    !username_given && !kerberos
}

/// Whether the user has to be asked for a password: none was given, the run
/// does not use Kerberos, and the user name is set.
pub fn needs_password(username: &str, secret_given: bool, kerberos: bool) -> (r: bool)
    ensures
        r == (!secret_given && !kerberos && !contains_seq(username@, NOT_SET@)),
{
    !secret_given && !kerberos && !contains(username, NOT_SET)
}

/// How a run authenticates: with the Kerberos session when asked to, with an
/// NTLM hash when one is given, with a password otherwise.
pub fn bind_method(kerberos: bool, ntlm_hash_given: bool) -> (m: BindMethod)
    ensures
        m == (if kerberos {
            BindMethod::Gssapi
        } else if ntlm_hash_given {
            BindMethod::Ntlm
        } else {
            BindMethod::Simple
        }),
{
    if kerberos {
        BindMethod::Gssapi
    } else if ntlm_hash_given {
        BindMethod::Ntlm
    } else {
        BindMethod::Simple
    }
}

/// Whether the name of the domain controller was given.
pub fn controller_is_known(ldapfqdn: &str) -> (r: bool)
    ensures
        r == !contains_seq(ldapfqdn@, NOT_SET@),
{
    !contains(ldapfqdn, NOT_SET)
}

/// The progress of a run in percent: `count` of `total` records.
pub open spec fn spec_percentage(count: usize, total: usize) -> Option<usize> {
    if total == 0 || count > usize::MAX / 100 {
        None
    } else {
        Some((100 * count / total as int) as usize)
    }
}

/// Works out the progress of a run. `None` when the total is unknown to be
/// positive or the count is too large to scale.
pub fn percentage(count: usize, total: usize) -> (r: Option<usize>)
    ensures
        r == spec_percentage(count, total),
{
    if total == 0 || count > usize::MAX / 100 {
        None
    } else {
        Some(100 * count / total)
    }
}

} // verus!
