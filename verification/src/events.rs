//! The interaction dispatcher: the authorization gate, the routing of
//! each incoming command to its handler and response mode, and the
//! deferred-response protocol for the slow commands.

use vstd::prelude::*;
use vstd::string::*;

use crate::text::str_eq;

verus! {

/// One incoming command invocation: the command's name, the caller's
/// role memberships (nothing when the command arrived outside the
/// guild), and the optional game-name argument.
pub struct CommandInvocation {
    pub command: String,
    pub member_roles: Option<Vec<u64>>,
    pub game: Option<String>,
}

/// The caller holds the trusted role. A caller with no role
/// information at all is untrusted.
pub open spec fn spec_is_trusted(roles: Option<Vec<u64>>, trusted_role: u64) -> bool {
    match roles {
        Some(rs) => rs@.contains(trusted_role),
        None => false,
    }
}

/// The authorization gate: a pure check of the caller's roles against
/// the one configured trusted role.
pub fn is_trusted_member(roles: &Option<Vec<u64>>, trusted_role: u64) -> (r: bool)
    ensures
        r == spec_is_trusted(*roles, trusted_role),
{
    match roles {
        Some(rs) => {
            let n = rs.len();
            let mut i: usize = 0;
            while i < n
                invariant
                    *roles == Some(*rs),
                    n == rs@.len(),
                    0 <= i <= n,
                    forall|k: int| 0 <= k < i ==> rs@[k] != trusted_role,
                decreases n - i,
            {
                if rs[i] == trusted_role {
                    proof {
                        assert(rs@.contains(trusted_role)) by {
                            assert(rs@[i as int] == trusted_role);
                        }
                    }
                    return true;
                }
                i += 1;
            }
            false
        },
        None => false,
    }
}

/// The rejection sent to an untrusted caller.
pub open spec fn rejection_text() -> Seq<char> {
    "This bot is restricted to trusted memebers, ask someone to add you to the `Server Vet` role"@
}

/// The answer to a command name outside the known set.
pub open spec fn unrecognized_text(name: Seq<char>) -> Seq<char> {
    "\""@ + name + "\" is not a recognised command"@
}

/// The command name belongs to the known set.
pub open spec fn known_command(name: Seq<char>) -> bool {
    name == "help"@ || name == "ip"@ || name == "list"@ || name == "start"@ || name == "stop"@
        || name == "restart"@ || name == "update"@
}

pub open spec fn listing_progress_text() -> Seq<char> {
    "Listing status of all game servers..."@
}

pub open spec fn starting_progress_text() -> Seq<char> {
    "Starting game server..."@
}

pub open spec fn stopping_progress_text() -> Seq<char> {
    "Stopping game server (may take a few minutes)..."@
}

pub open spec fn restarting_progress_text() -> Seq<char> {
    "Restarting game server..."@
}

pub open spec fn updating_progress_text() -> Seq<char> {
    "Updating game server (may take a several minutes)..."@
}

/// The two commands answered inline: they complete in sub-second time.
pub enum FastCommand {
    Help,
    Ip,
}

/// The five commands that may block on process control and are
/// answered through the deferred-response protocol.
pub enum SlowCommand {
    List,
    Start,
    Stop,
    Restart,
    Update,
}

/// The dispatcher's routing decision for one invocation.
pub enum Dispatch {
    /// untrusted caller: send this one rejection and stop — no handler
    /// runs and no backend is touched
    Reject(String),
    /// compute the answer inline and send it as the only response
    Immediate(FastCommand),
    /// run the deferred-response protocol with this progress line
    Deferred(SlowCommand, String),
    /// unknown command name: send this answer and stop
    Unrecognized(String),
}

/// Routes one invocation: the authorization gate first, then the
/// command's class. Denial short-circuits: a `Reject` carries no
/// handler and no backend operation.
pub fn dispatch(inv: &CommandInvocation, trusted_role: u64) -> (d: Dispatch)
    ensures
        (match d {
            Dispatch::Reject(m) => !spec_is_trusted(inv.member_roles, trusted_role) && m@
                == rejection_text(),
            Dispatch::Immediate(f) => spec_is_trusted(inv.member_roles, trusted_role) && (match f {
                FastCommand::Help => inv.command@ == "help"@,
                FastCommand::Ip => inv.command@ == "ip"@,
            }),
            Dispatch::Deferred(s, p) => spec_is_trusted(inv.member_roles, trusted_role) && (match s {
                SlowCommand::List => inv.command@ == "list"@ && p@ == listing_progress_text(),
                SlowCommand::Start => inv.command@ == "start"@ && p@ == starting_progress_text(),
                SlowCommand::Stop => inv.command@ == "stop"@ && p@ == stopping_progress_text(),
                SlowCommand::Restart => inv.command@ == "restart"@ && p@
                    == restarting_progress_text(),
                SlowCommand::Update => inv.command@ == "update"@ && p@
                    == updating_progress_text(),
            }),
            Dispatch::Unrecognized(m) => spec_is_trusted(inv.member_roles, trusted_role)
                && !known_command(inv.command@) && m@ == unrecognized_text(inv.command@),
        }),
{
    if !is_trusted_member(&inv.member_roles, trusted_role) {
        return Dispatch::Reject(
            String::from_str(
                "This bot is restricted to trusted memebers, ask someone to add you to the `Server Vet` role",
            ),
        );
    }
    let c = inv.command.as_str();
    if str_eq(c, "help") {
        Dispatch::Immediate(FastCommand::Help)
    } else if str_eq(c, "ip") {
        Dispatch::Immediate(FastCommand::Ip)
    } else if str_eq(c, "list") {
        Dispatch::Deferred(
            SlowCommand::List,
            String::from_str("Listing status of all game servers..."),
        )
    } else if str_eq(c, "start") {
        Dispatch::Deferred(SlowCommand::Start, String::from_str("Starting game server..."))
    } else if str_eq(c, "stop") {
        Dispatch::Deferred(
            SlowCommand::Stop,
            String::from_str("Stopping game server (may take a few minutes)..."),
        )
    } else if str_eq(c, "restart") {
        Dispatch::Deferred(SlowCommand::Restart, String::from_str("Restarting game server..."))
    } else if str_eq(c, "update") {
        Dispatch::Deferred(
            SlowCommand::Update,
            String::from_str("Updating game server (may take a several minutes)..."),
        )
    } else {
        Dispatch::Unrecognized(
            String::from_str("\"").concat(c).concat("\" is not a recognised command"),
        )
    }
}

/// Where one deferred exchange stands.
pub enum Phase {
    /// nothing signalled yet
    Pending,
    /// the platform accepted the pending-response signal
    Acknowledged,
    /// the progress line is out, the operation is under way
    InProgress,
    /// the final result replaced the progress line
    Completed,
    /// signalling failed; the exchange is abandoned with no messages
    Aborted,
}

pub open spec fn protocol_init() -> (Phase, Seq<Seq<char>>) {
    (Phase::Pending, Seq::empty())
}

pub open spec fn protocol_ack(s: (Phase, Seq<Seq<char>>), ok: bool) -> (Phase, Seq<Seq<char>>) {
    if ok {
        (Phase::Acknowledged, s.1)
    } else {
        (Phase::Aborted, s.1)
    }
}

pub open spec fn protocol_publish(s: (Phase, Seq<Seq<char>>), msg: Seq<char>) -> (
    Phase,
    Seq<Seq<char>>,
) {
    (Phase::InProgress, s.1.push(msg))
}

pub open spec fn protocol_complete(s: (Phase, Seq<Seq<char>>), outcome: Seq<char>) -> (
    Phase,
    Seq<Seq<char>>,
) {
    (Phase::Completed, s.1.push(outcome))
}

/// One deferred exchange. The surrounding binary drives it: it tells
/// the exchange whether the pending-response signal went through, then
/// publishes the progress line, runs the blocking operation on a
/// worker, and completes with the operation's outcome. The exchange
/// records every message published, in order.
pub struct DeferredExchange {
    phase: Phase,
    sent: Vec<String>,
}

impl DeferredExchange {
    pub closed spec fn spec_phase(&self) -> Phase {
        self.phase
    }

    /// Every message published so far, in order.
    pub closed spec fn log(&self) -> Seq<Seq<char>> {
        self.sent@.map_values(|s: String| s@)
    }

    pub fn new() -> (x: DeferredExchange)
        ensures
            (x.spec_phase(), x.log()) == protocol_init(),
    {
        let x = DeferredExchange { phase: Phase::Pending, sent: Vec::new() };
        proof {
            assert(x.log() =~= Seq::<Seq<char>>::empty());
        }
        x
    }

    /// Records whether the pending-response signal went through. A
    /// failed signal abandons the exchange: no message is ever
    /// published for it.
    pub fn acknowledge(&mut self, ok: bool)
        requires
            old(self).spec_phase() == Phase::Pending,
        ensures
            (final(self).spec_phase(), final(self).log()) == protocol_ack(
                (old(self).spec_phase(), old(self).log()),
                ok,
            ),
    {
        if ok {
            self.phase = Phase::Acknowledged;
        } else {
            self.phase = Phase::Aborted;
        }
    }

    /// Publishes the short human-readable progress line.
    pub fn publish_progress(&mut self, msg: &str)
        requires
            old(self).spec_phase() == Phase::Acknowledged,
        ensures
            (final(self).spec_phase(), final(self).log()) == protocol_publish(
                (old(self).spec_phase(), old(self).log()),
                msg@,
            ),
    {
        self.sent.push(String::from_str(msg));
        self.phase = Phase::InProgress;
        proof {
            assert(self.log() =~= old(self).log().push(msg@));
        }
    }

    /// Replaces the progress line with the operation's outcome,
    /// verbatim.
    pub fn complete(&mut self, outcome: &str)
        requires
            old(self).spec_phase() == Phase::InProgress,
        ensures
            (final(self).spec_phase(), final(self).log()) == protocol_complete(
                (old(self).spec_phase(), old(self).log()),
                outcome@,
            ),
    {
        self.sent.push(String::from_str(outcome));
        self.phase = Phase::Completed;
        proof {
            assert(self.log() =~= old(self).log().push(outcome@));
        }
    }

    /// The messages published so far, in order.
    pub fn messages(&self) -> (r: &Vec<String>)
        ensures
            r@.map_values(|s: String| s@) == self.log(),
    {
        &self.sent
    }
}

/// Law: a deferred exchange that is acknowledged, publishes its
/// progress line and completes with the operation's outcome emits
/// exactly two messages — the progress line first, then the outcome
/// verbatim. One whose acknowledgment fails emits none.
pub proof fn lemma_deferred_two_messages(progress: Seq<char>, outcome: Seq<char>)
    ensures
        protocol_complete(protocol_publish(protocol_ack(protocol_init(), true), progress), outcome).1
            =~= seq![progress, outcome],
        protocol_ack(protocol_init(), false).1 =~= Seq::<Seq<char>>::empty(),
{
}

} // verus!
