//! The uniform server-control abstraction: the reports a host hands
//! back about one lifecycle interaction, the outcome messages every
//! backend renders from them, and the `GameServer` contract each game
//! backend satisfies.
//!
//! Two control styles exist. Script-controlled backends drive a
//! management script whose exit code tells the story (`0` done, `2`
//! already in the desired state). Session-controlled backends guard a
//! terminal session: a probe first asks whether the session is live,
//! and only then is a command run.
//!
//! A deliberate limitation: operations on the *same* backend are not
//! serialized. Two near-simultaneous commands for one game race at
//! the host, because the underlying check-then-act session idioms are
//! not atomic; the contracts here speak of one interaction's report
//! at a time and promise nothing across overlapping ones.

use vstd::prelude::*;
use vstd::string::*;

use crate::text::{
    contains_text, dec_text, str_contains, str_eq, trim_str, trimmed_text, u16_to_string,
};

pub mod enshrouded;
pub mod satisfactory;
pub mod sevendays;
pub mod skyvaults;
pub mod vaulthunters;
pub mod zomboid;

verus! {

/// The exit status of one finished host command: the code it exited
/// with, or nothing when it was ended by a signal.
#[derive(Clone, Copy)]
pub struct ExitOutcome {
    pub code: Option<i32>,
}

/// What the host observed while carrying one lifecycle interaction
/// out. The surrounding binary gathers it; the library only reads it.
pub enum HostReport {
    /// a guard probe found the session already live; nothing was run
    SessionPresent,
    /// a guard probe found no live session
    SessionAbsent,
    /// the control command ran to its end with this exit status
    Exited(ExitOutcome),
    /// the control command ran and printed this text
    Output(String),
    /// the host could not carry the interaction out at all
    Failed,
}

/// The command exited cleanly.
pub open spec fn exit_ok(e: ExitOutcome) -> bool {
    e.code == Some(0i32)
}

/// The script's "already in the desired state" exit code.
pub open spec fn exit_already(e: ExitOutcome) -> bool {
    e.code == Some(2i32)
}

/// One outcome message: a glyph, the server's name and a tail.
pub open spec fn outcome_text(ok: bool, name: Seq<char>, tail: Seq<char>) -> Seq<char> {
    (if ok {
        "✅ The "@
    } else {
        "❌ The "@
    }) + name + " server "@ + tail
}

pub open spec fn started_text(name: Seq<char>) -> Seq<char> {
    outcome_text(true, name, "started successfully"@)
}

pub open spec fn already_running_text(name: Seq<char>) -> Seq<char> {
    outcome_text(true, name, "is already running"@)
}

pub open spec fn stopped_text(name: Seq<char>) -> Seq<char> {
    outcome_text(true, name, "stopped successfully"@)
}

pub open spec fn already_stopped_text(name: Seq<char>) -> Seq<char> {
    outcome_text(true, name, "is already stopped"@)
}

pub open spec fn restarted_text(name: Seq<char>) -> Seq<char> {
    outcome_text(true, name, "restarted successfully"@)
}

pub open spec fn updated_text(name: Seq<char>) -> Seq<char> {
    outcome_text(true, name, "updated successfully"@)
}

pub open spec fn script_start_failed_text(name: Seq<char>) -> Seq<char> {
    outcome_text(false, name, "failed to start, ask Tony to fix it)"@)
}

pub open spec fn session_start_failed_text(name: Seq<char>) -> Seq<char> {
    outcome_text(false, name, "failed to start, ask Tony to fix it"@)
}

pub open spec fn script_stop_failed_text(name: Seq<char>) -> Seq<char> {
    outcome_text(false, name, "failed to stop, ask Tony)"@)
}

pub open spec fn session_stop_failed_text(name: Seq<char>) -> Seq<char> {
    outcome_text(false, name, "failed to stop, ask Tony to fix it"@)
}

pub open spec fn script_restart_failed_text(name: Seq<char>) -> Seq<char> {
    outcome_text(false, name, "failed to restart, ask Tony)"@)
}

pub open spec fn session_restart_failed_text(name: Seq<char>) -> Seq<char> {
    outcome_text(false, name, "failed to restart, ask Tony to fix it"@)
}

pub open spec fn update_failed_text(name: Seq<char>) -> Seq<char> {
    outcome_text(false, name, "failed to update, ask Tony)"@)
}

pub open spec fn manual_update_text(name: Seq<char>) -> Seq<char> {
    outcome_text(false, name, "must be updated manually, ask Tony"@)
}

pub open spec fn running_text() -> Seq<char> {
    ":arrow_forward: Running"@
}

pub open spec fn idle_text() -> Seq<char> {
    ":stop_button: Idle"@
}

pub open spec fn unknown_text() -> Seq<char> {
    "\u{2753} Unknown"@
}

/// A status message is one of exactly three classes: running, idle or
/// unknown.
pub open spec fn is_status_text(s: Seq<char>) -> bool {
    s == running_text() || s == idle_text() || s == unknown_text()
}

/// Builds one outcome message.
pub fn outcome_message(ok: bool, name: &str, tail: &str) -> (r: String)
    ensures
        r@ == outcome_text(ok, name@, tail@),
{
    let prefix: &'static str = if ok {
        "✅ The "
    } else {
        "❌ The "
    };
    String::from_str(prefix).concat(name).concat(" server ").concat(tail)
}

/// `ip:port`, as the help texts embed the host's address.
pub open spec fn ip_port_text(ip: Seq<char>, port: u16) -> Seq<char> {
    ip + ":"@ + dec_text(port as nat)
}

/// Builds `ip:port`.
pub fn ip_port(ip: &str, port: u16) -> (r: String)
    ensures
        r@ == ip_port_text(ip@, port),
{
    String::from_str(ip).concat(":").concat(u16_to_string(port).as_str())
}

/// What a script-controlled backend answers to `start`.
pub open spec fn script_start_text(name: Seq<char>, r: HostReport) -> Seq<char> {
    match r {
        HostReport::Exited(e) => if exit_ok(e) {
            started_text(name)
        } else if exit_already(e) {
            already_running_text(name)
        } else {
            script_start_failed_text(name)
        },
        _ => script_start_failed_text(name),
    }
}

/// What a script-controlled backend answers to `stop`.
pub open spec fn script_stop_text(name: Seq<char>, r: HostReport) -> Seq<char> {
    match r {
        HostReport::Exited(e) => if exit_ok(e) {
            stopped_text(name)
        } else if exit_already(e) {
            already_stopped_text(name)
        } else {
            script_stop_failed_text(name)
        },
        _ => script_stop_failed_text(name),
    }
}

/// What a script-controlled backend answers to `restart`.
pub open spec fn script_restart_text(name: Seq<char>, r: HostReport) -> Seq<char> {
    match r {
        HostReport::Exited(e) => if exit_ok(e) {
            restarted_text(name)
        } else {
            script_restart_failed_text(name)
        },
        _ => script_restart_failed_text(name),
    }
}

/// What a script-controlled backend answers to `update`.
pub open spec fn script_update_text(name: Seq<char>, r: HostReport) -> Seq<char> {
    match r {
        HostReport::Exited(e) => if exit_ok(e) {
            updated_text(name)
        } else {
            update_failed_text(name)
        },
        _ => update_failed_text(name),
    }
}

/// What a script-controlled backend answers to `status`: its lock-file
/// probe prints `1` or `0`; anything else, or a failed probe, reads as
/// unknown.
pub open spec fn script_status_text(r: HostReport) -> Seq<char> {
    match r {
        HostReport::Output(s) => if trimmed_text(s@) == "1"@ {
            running_text()
        } else if trimmed_text(s@) == "0"@ {
            idle_text()
        } else {
            unknown_text()
        },
        _ => unknown_text(),
    }
}

/// What a session-controlled backend answers to `start`: a live
/// session short-circuits to "already running"; otherwise the launch
/// command's exit decides.
pub open spec fn session_start_text(name: Seq<char>, r: HostReport) -> Seq<char> {
    match r {
        HostReport::SessionPresent => already_running_text(name),
        HostReport::Exited(e) => if exit_ok(e) {
            started_text(name)
        } else {
            session_start_failed_text(name)
        },
        _ => session_start_failed_text(name),
    }
}

/// What a session-controlled backend answers to `stop`.
pub open spec fn session_stop_text(name: Seq<char>, r: HostReport) -> Seq<char> {
    match r {
        HostReport::SessionAbsent => already_stopped_text(name),
        HostReport::Exited(e) => if exit_ok(e) {
            stopped_text(name)
        } else {
            session_stop_failed_text(name)
        },
        _ => session_stop_failed_text(name),
    }
}

/// What a session-controlled backend answers to `restart`: the old
/// session is killed unconditionally, so only the relaunch's exit
/// matters.
pub open spec fn session_restart_text(name: Seq<char>, r: HostReport) -> Seq<char> {
    match r {
        HostReport::Exited(e) => if exit_ok(e) {
            restarted_text(name)
        } else {
            session_restart_failed_text(name)
        },
        _ => session_restart_failed_text(name),
    }
}

/// What a session-controlled backend answers to `update`: the update
/// client's log is scanned for its success marker.
pub open spec fn session_update_text(name: Seq<char>, r: HostReport) -> Seq<char> {
    match r {
        HostReport::Output(s) => if contains_text(s@, "Success!"@) {
            updated_text(name)
        } else {
            update_failed_text(name)
        },
        _ => update_failed_text(name),
    }
}

/// What a session-controlled backend answers to `status`.
pub open spec fn session_status_text(r: HostReport) -> Seq<char> {
    match r {
        HostReport::SessionPresent => running_text(),
        HostReport::SessionAbsent => idle_text(),
        _ => unknown_text(),
    }
}

/// Renders a script-controlled backend's `start` outcome.
pub fn script_start(name: &str, r: &HostReport) -> (m: String)
    ensures
        m@ == script_start_text(name@, *r),
{
    match r {
        HostReport::Exited(e) => match e.code {
            Some(0i32) => outcome_message(true, name, "started successfully"),
            Some(2i32) => outcome_message(true, name, "is already running"),
            _ => outcome_message(false, name, "failed to start, ask Tony to fix it)"),
        },
        _ => outcome_message(false, name, "failed to start, ask Tony to fix it)"),
    }
}

/// Renders a script-controlled backend's `stop` outcome.
pub fn script_stop(name: &str, r: &HostReport) -> (m: String)
    ensures
        m@ == script_stop_text(name@, *r),
{
    match r {
        HostReport::Exited(e) => match e.code {
            Some(0i32) => outcome_message(true, name, "stopped successfully"),
            Some(2i32) => outcome_message(true, name, "is already stopped"),
            _ => outcome_message(false, name, "failed to stop, ask Tony)"),
        },
        _ => outcome_message(false, name, "failed to stop, ask Tony)"),
    }
}

/// Renders a script-controlled backend's `restart` outcome.
pub fn script_restart(name: &str, r: &HostReport) -> (m: String)
    ensures
        m@ == script_restart_text(name@, *r),
{
    match r {
        HostReport::Exited(e) => match e.code {
            Some(0i32) => outcome_message(true, name, "restarted successfully"),
            _ => outcome_message(false, name, "failed to restart, ask Tony)"),
        },
        _ => outcome_message(false, name, "failed to restart, ask Tony)"),
    }
}

/// Renders a script-controlled backend's `update` outcome.
pub fn script_update(name: &str, r: &HostReport) -> (m: String)
    ensures
        m@ == script_update_text(name@, *r),
{
    match r {
        HostReport::Exited(e) => match e.code {
            Some(0i32) => outcome_message(true, name, "updated successfully"),
            _ => outcome_message(false, name, "failed to update, ask Tony)"),
        },
        _ => outcome_message(false, name, "failed to update, ask Tony)"),
    }
}

/// Renders a script-controlled backend's `status`.
pub fn script_status(r: &HostReport) -> (m: String)
    ensures
        m@ == script_status_text(*r),
        is_status_text(m@),
{
    match r {
        HostReport::Output(s) => {
            let t = trim_str(s.as_str());
            if str_eq(t, "1") {
                String::from_str(":arrow_forward: Running")
            } else if str_eq(t, "0") {
                String::from_str(":stop_button: Idle")
            } else {
                String::from_str("\u{2753} Unknown")
            }
        },
        _ => String::from_str("\u{2753} Unknown"),
    }
}

/// Renders a session-controlled backend's `start` outcome.
pub fn session_start(name: &str, r: &HostReport) -> (m: String)
    ensures
        m@ == session_start_text(name@, *r),
{
    match r {
        HostReport::SessionPresent => outcome_message(true, name, "is already running"),
        HostReport::Exited(e) => match e.code {
            Some(0i32) => outcome_message(true, name, "started successfully"),
            _ => outcome_message(false, name, "failed to start, ask Tony to fix it"),
        },
        _ => outcome_message(false, name, "failed to start, ask Tony to fix it"),
    }
}

/// Renders a session-controlled backend's `stop` outcome.
pub fn session_stop(name: &str, r: &HostReport) -> (m: String)
    ensures
        m@ == session_stop_text(name@, *r),
{
    match r {
        HostReport::SessionAbsent => outcome_message(true, name, "is already stopped"),
        HostReport::Exited(e) => match e.code {
            Some(0i32) => outcome_message(true, name, "stopped successfully"),
            _ => outcome_message(false, name, "failed to stop, ask Tony to fix it"),
        },
        _ => outcome_message(false, name, "failed to stop, ask Tony to fix it"),
    }
}

/// Renders a session-controlled backend's `restart` outcome.
pub fn session_restart(name: &str, r: &HostReport) -> (m: String)
    ensures
        m@ == session_restart_text(name@, *r),
{
    match r {
        HostReport::Exited(e) => match e.code {
            Some(0i32) => outcome_message(true, name, "restarted successfully"),
            _ => outcome_message(false, name, "failed to restart, ask Tony to fix it"),
        },
        _ => outcome_message(false, name, "failed to restart, ask Tony to fix it"),
    }
}

/// Renders a session-controlled backend's `update` outcome.
pub fn session_update(name: &str, r: &HostReport) -> (m: String)
    ensures
        m@ == session_update_text(name@, *r),
{
    match r {
        HostReport::Output(s) => {
            if str_contains(s.as_str(), "Success!") {
                outcome_message(true, name, "updated successfully")
            } else {
                outcome_message(false, name, "failed to update, ask Tony)")
            }
        },
        _ => outcome_message(false, name, "failed to update, ask Tony)"),
    }
}

/// Renders a session-controlled backend's `status`.
pub fn session_status(r: &HostReport) -> (m: String)
    ensures
        m@ == session_status_text(*r),
        is_status_text(m@),
{
    match r {
        HostReport::SessionPresent => String::from_str(":arrow_forward: Running"),
        HostReport::SessionAbsent => String::from_str(":stop_button: Idle"),
        _ => String::from_str("\u{2753} Unknown"),
    }
}

/// The uniform surface every backend satisfies. The lifecycle
/// operations read the host's report of the underlying interaction and
/// render the outcome message; `status` is bound to answer one of the
/// three status classes whatever the probe yielded.
pub trait GameServer: Sized {
    /// the backend's descriptor holds its configured values
    spec fn wf(&self) -> bool;

    spec fn spec_name(&self) -> Seq<char>;

    spec fn spec_description(&self) -> Seq<char>;

    spec fn spec_port(&self) -> u16;

    spec fn spec_help(&self, ip: Seq<char>) -> Seq<char>;

    spec fn spec_start(&self, r: HostReport) -> Seq<char>;

    spec fn spec_stop(&self, r: HostReport) -> Seq<char>;

    spec fn spec_restart(&self, r: HostReport) -> Seq<char>;

    spec fn spec_update(&self, r: HostReport) -> Seq<char>;

    spec fn spec_status(&self, r: HostReport) -> Seq<char>;

    fn new() -> (s: Self)
        ensures
            s.wf(),
    ;

    fn name(&self) -> (r: String)
        ensures
            r@ == self.spec_name(),
    ;

    fn description(&self) -> (r: String)
        ensures
            r@ == self.spec_description(),
    ;

    fn port(&self) -> (r: u16)
        ensures
            r == self.spec_port(),
    ;

    /// connection instructions, with the host's public address woven in
    fn help_message(&self, ip: &str) -> (r: String)
        ensures
            r@ == self.spec_help(ip@),
    ;

    fn start(&self, report: &HostReport) -> (r: String)
        ensures
            r@ == self.spec_start(*report),
    ;

    fn stop(&self, report: &HostReport) -> (r: String)
        ensures
            r@ == self.spec_stop(*report),
    ;

    fn restart(&self, report: &HostReport) -> (r: String)
        ensures
            r@ == self.spec_restart(*report),
    ;

    fn update(&self, report: &HostReport) -> (r: String)
        ensures
            r@ == self.spec_update(*report),
    ;

    fn status(&self, report: &HostReport) -> (r: String)
        ensures
            r@ == self.spec_status(*report),
            is_status_text(r@),
    ;
}

/// The closed set of backends, one variant per game, dispatched by
/// matching on the variant.
pub enum Backend {
    SevenDays(sevendays::Server),
    Enshrouded(enshrouded::Server),
    Satisfactory(satisfactory::Server),
    SkyVaults(skyvaults::Server),
    VaultHunters(vaulthunters::Server),
    Zomboid(zomboid::Server),
}

impl Backend {
    pub open spec fn wf(&self) -> bool {
        match self {
            Backend::SevenDays(s) => s.wf(),
            Backend::Enshrouded(s) => s.wf(),
            Backend::Satisfactory(s) => s.wf(),
            Backend::SkyVaults(s) => s.wf(),
            Backend::VaultHunters(s) => s.wf(),
            Backend::Zomboid(s) => s.wf(),
        }
    }

    pub open spec fn spec_name(&self) -> Seq<char> {
        match self {
            Backend::SevenDays(s) => s.spec_name(),
            Backend::Enshrouded(s) => s.spec_name(),
            Backend::Satisfactory(s) => s.spec_name(),
            Backend::SkyVaults(s) => s.spec_name(),
            Backend::VaultHunters(s) => s.spec_name(),
            Backend::Zomboid(s) => s.spec_name(),
        }
    }

    pub open spec fn spec_description(&self) -> Seq<char> {
        match self {
            Backend::SevenDays(s) => s.spec_description(),
            Backend::Enshrouded(s) => s.spec_description(),
            Backend::Satisfactory(s) => s.spec_description(),
            Backend::SkyVaults(s) => s.spec_description(),
            Backend::VaultHunters(s) => s.spec_description(),
            Backend::Zomboid(s) => s.spec_description(),
        }
    }

    pub open spec fn spec_port(&self) -> u16 {
        match self {
            Backend::SevenDays(s) => s.spec_port(),
            Backend::Enshrouded(s) => s.spec_port(),
            Backend::Satisfactory(s) => s.spec_port(),
            Backend::SkyVaults(s) => s.spec_port(),
            Backend::VaultHunters(s) => s.spec_port(),
            Backend::Zomboid(s) => s.spec_port(),
        }
    }

    pub open spec fn spec_help(&self, ip: Seq<char>) -> Seq<char> {
        match self {
            Backend::SevenDays(s) => s.spec_help(ip),
            Backend::Enshrouded(s) => s.spec_help(ip),
            Backend::Satisfactory(s) => s.spec_help(ip),
            Backend::SkyVaults(s) => s.spec_help(ip),
            Backend::VaultHunters(s) => s.spec_help(ip),
            Backend::Zomboid(s) => s.spec_help(ip),
        }
    }

    pub open spec fn spec_start(&self, r: HostReport) -> Seq<char> {
        match self {
            Backend::SevenDays(s) => s.spec_start(r),
            Backend::Enshrouded(s) => s.spec_start(r),
            Backend::Satisfactory(s) => s.spec_start(r),
            Backend::SkyVaults(s) => s.spec_start(r),
            Backend::VaultHunters(s) => s.spec_start(r),
            Backend::Zomboid(s) => s.spec_start(r),
        }
    }

    pub open spec fn spec_stop(&self, r: HostReport) -> Seq<char> {
        match self {
            Backend::SevenDays(s) => s.spec_stop(r),
            Backend::Enshrouded(s) => s.spec_stop(r),
            Backend::Satisfactory(s) => s.spec_stop(r),
            Backend::SkyVaults(s) => s.spec_stop(r),
            Backend::VaultHunters(s) => s.spec_stop(r),
            Backend::Zomboid(s) => s.spec_stop(r),
        }
    }

    pub open spec fn spec_restart(&self, r: HostReport) -> Seq<char> {
        match self {
            Backend::SevenDays(s) => s.spec_restart(r),
            Backend::Enshrouded(s) => s.spec_restart(r),
            Backend::Satisfactory(s) => s.spec_restart(r),
            Backend::SkyVaults(s) => s.spec_restart(r),
            Backend::VaultHunters(s) => s.spec_restart(r),
            Backend::Zomboid(s) => s.spec_restart(r),
        }
    }

    pub open spec fn spec_update(&self, r: HostReport) -> Seq<char> {
        match self {
            Backend::SevenDays(s) => s.spec_update(r),
            Backend::Enshrouded(s) => s.spec_update(r),
            Backend::Satisfactory(s) => s.spec_update(r),
            Backend::SkyVaults(s) => s.spec_update(r),
            Backend::VaultHunters(s) => s.spec_update(r),
            Backend::Zomboid(s) => s.spec_update(r),
        }
    }

    pub open spec fn spec_status(&self, r: HostReport) -> Seq<char> {
        match self {
            Backend::SevenDays(s) => s.spec_status(r),
            Backend::Enshrouded(s) => s.spec_status(r),
            Backend::Satisfactory(s) => s.spec_status(r),
            Backend::SkyVaults(s) => s.spec_status(r),
            Backend::VaultHunters(s) => s.spec_status(r),
            Backend::Zomboid(s) => s.spec_status(r),
        }
    }

    pub fn name(&self) -> (r: String)
        ensures
            r@ == self.spec_name(),
    {
        match self {
            Backend::SevenDays(s) => s.name(),
            Backend::Enshrouded(s) => s.name(),
            Backend::Satisfactory(s) => s.name(),
            Backend::SkyVaults(s) => s.name(),
            Backend::VaultHunters(s) => s.name(),
            Backend::Zomboid(s) => s.name(),
        }
    }

    pub fn description(&self) -> (r: String)
        ensures
            r@ == self.spec_description(),
    {
        match self {
            Backend::SevenDays(s) => s.description(),
            Backend::Enshrouded(s) => s.description(),
            Backend::Satisfactory(s) => s.description(),
            Backend::SkyVaults(s) => s.description(),
            Backend::VaultHunters(s) => s.description(),
            Backend::Zomboid(s) => s.description(),
        }
    }

    pub fn port(&self) -> (r: u16)
        ensures
            r == self.spec_port(),
    {
        match self {
            Backend::SevenDays(s) => s.port(),
            Backend::Enshrouded(s) => s.port(),
            Backend::Satisfactory(s) => s.port(),
            Backend::SkyVaults(s) => s.port(),
            Backend::VaultHunters(s) => s.port(),
            Backend::Zomboid(s) => s.port(),
        }
    }

    pub fn help_message(&self, ip: &str) -> (r: String)
        ensures
            r@ == self.spec_help(ip@),
    {
        match self {
            Backend::SevenDays(s) => s.help_message(ip),
            Backend::Enshrouded(s) => s.help_message(ip),
            Backend::Satisfactory(s) => s.help_message(ip),
            Backend::SkyVaults(s) => s.help_message(ip),
            Backend::VaultHunters(s) => s.help_message(ip),
            Backend::Zomboid(s) => s.help_message(ip),
        }
    }

    pub fn start(&self, report: &HostReport) -> (r: String)
        ensures
            r@ == self.spec_start(*report),
    {
        match self {
            Backend::SevenDays(s) => s.start(report),
            Backend::Enshrouded(s) => s.start(report),
            Backend::Satisfactory(s) => s.start(report),
            Backend::SkyVaults(s) => s.start(report),
            Backend::VaultHunters(s) => s.start(report),
            Backend::Zomboid(s) => s.start(report),
        }
    }

    pub fn stop(&self, report: &HostReport) -> (r: String)
        ensures
            r@ == self.spec_stop(*report),
    {
        match self {
            Backend::SevenDays(s) => s.stop(report),
            Backend::Enshrouded(s) => s.stop(report),
            Backend::Satisfactory(s) => s.stop(report),
            Backend::SkyVaults(s) => s.stop(report),
            Backend::VaultHunters(s) => s.stop(report),
            Backend::Zomboid(s) => s.stop(report),
        }
    }

    pub fn restart(&self, report: &HostReport) -> (r: String)
        ensures
            r@ == self.spec_restart(*report),
    {
        match self {
            Backend::SevenDays(s) => s.restart(report),
            Backend::Enshrouded(s) => s.restart(report),
            Backend::Satisfactory(s) => s.restart(report),
            Backend::SkyVaults(s) => s.restart(report),
            Backend::VaultHunters(s) => s.restart(report),
            Backend::Zomboid(s) => s.restart(report),
        }
    }

    pub fn update(&self, report: &HostReport) -> (r: String)
        ensures
            r@ == self.spec_update(*report),
    {
        match self {
            Backend::SevenDays(s) => s.update(report),
            Backend::Enshrouded(s) => s.update(report),
            Backend::Satisfactory(s) => s.update(report),
            Backend::SkyVaults(s) => s.update(report),
            Backend::VaultHunters(s) => s.update(report),
            Backend::Zomboid(s) => s.update(report),
        }
    }

    pub fn status(&self, report: &HostReport) -> (r: String)
        ensures
            r@ == self.spec_status(*report),
            is_status_text(r@),
    {
        match self {
            Backend::SevenDays(s) => s.status(report),
            Backend::Enshrouded(s) => s.status(report),
            Backend::Satisfactory(s) => s.status(report),
            Backend::SkyVaults(s) => s.status(report),
            Backend::VaultHunters(s) => s.status(report),
            Backend::Zomboid(s) => s.status(report),
        }
    }
}

/// The canonical, order-stable collection of all backends. It is built
/// once at startup and read-only thereafter; its order is the display
/// order for listings.
pub struct Registry {
    pub servers: Vec<Backend>,
}

impl Registry {
    /// The names, in display order.
    pub open spec fn spec_names(&self) -> Seq<Seq<char>> {
        Seq::new(self.servers@.len(), |i: int| self.servers@[i].spec_name())
    }

    /// Every backend is well formed and the names are unique.
    pub open spec fn wf(&self) -> bool {
        (forall|i: int|
            0 <= i < self.servers@.len() ==> (#[trigger] self.servers@[i]).wf())
            && (forall|i: int, j: int|
                0 <= i < j < self.servers@.len()
                    ==> (#[trigger] self.servers@[i].spec_name())
                        != (#[trigger] self.servers@[j].spec_name()))
    }

    /// Builds the fixed fleet, in display order.
    pub fn new() -> (r: Registry)
        ensures
            r.wf(),
            r.servers@.len() == 6,
            r.spec_names() == seq![
                "7days"@,
                "enshrouded"@,
                "satisfactory"@,
                "skyvaults"@,
                "vaulthunters"@,
                "zomboid"@,
            ],
            forall|i: int|
                0 <= i < r.servers@.len() ==> (#[trigger] r.servers@[i].spec_name())
                    == r.spec_names()[i],
    {
        let mut servers: Vec<Backend> = Vec::new();
        servers.push(Backend::SevenDays(sevendays::Server::new()));
        servers.push(Backend::Enshrouded(enshrouded::Server::new()));
        servers.push(Backend::Satisfactory(satisfactory::Server::new()));
        servers.push(Backend::SkyVaults(skyvaults::Server::new()));
        servers.push(Backend::VaultHunters(vaulthunters::Server::new()));
        servers.push(Backend::Zomboid(zomboid::Server::new()));
        let r = Registry { servers };
        proof {
            reveal_strlit("7days");
            reveal_strlit("enshrouded");
            reveal_strlit("satisfactory");
            reveal_strlit("skyvaults");
            reveal_strlit("vaulthunters");
            reveal_strlit("zomboid");
            assert(r.spec_names() =~= seq![
                "7days"@,
                "enshrouded"@,
                "satisfactory"@,
                "skyvaults"@,
                "vaulthunters"@,
                "zomboid"@,
            ]);
            assert("satisfactory"@ != "vaulthunters"@) by {
                assert("satisfactory"@[0] != "vaulthunters"@[0]);
            }
            assert forall|i: int, j: int| 0 <= i < j < r.servers@.len() implies r.servers@[i].spec_name()
                != r.servers@[j].spec_name() by {
                assert(r.servers@[i].spec_name() == r.spec_names()[i]);
                assert(r.servers@[j].spec_name() == r.spec_names()[j]);
            }
        }
        r
    }

    /// The full fleet, in display order.
    pub fn all(&self) -> (r: &Vec<Backend>)
        ensures
            r@ == self.servers@,
    {
        &self.servers
    }
}

/// Looks a backend up by its exact, case-sensitive name. Under the
/// registry invariant the result is pinned down: the name of a
/// registered backend yields exactly that backend, and an unknown name
/// yields nothing.
pub fn get_game_server<'a>(registry: &'a Registry, name: &str) -> (r: Option<&'a Backend>)
    requires
        registry.wf(),
    ensures
        match r {
            Some(b) => b.wf() && b.spec_name() == name@ && registry.servers@.contains(*b)
                && (forall|i: int|
                    0 <= i < registry.servers@.len()
                        && (#[trigger] registry.servers@[i].spec_name()) == name@
                        ==> registry.servers@[i] == *b),
            None => forall|i: int|
                0 <= i < registry.servers@.len()
                    ==> (#[trigger] registry.servers@[i].spec_name()) != name@,
        },
{
    let n = registry.servers.len();
    let mut idx: usize = 0;
    while idx < n
        invariant
            registry.wf(),
            n == registry.servers@.len(),
            0 <= idx <= n,
            forall|k: int|
                0 <= k < idx ==> (#[trigger] registry.servers@[k].spec_name()) != name@,
        decreases n - idx,
    {
        let b = &registry.servers[idx];
        let bn = b.name();
        if str_eq(bn.as_str(), name) {
            proof {
                assert(registry.servers@.contains(*b));
            }
            return Some(b);
        }
        idx += 1;
    }
    None
}

} // verus!
