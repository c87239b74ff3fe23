//! A model of a healthy host behind one backend: what each control
//! style reports when its commands are carried out on a host whose
//! process state is `running` or not. The idempotence laws of the
//! lifecycle operations are stated against these transitions, and
//! tests drive the library through the model hosts in place of a real
//! machine.

use vstd::prelude::*;
use vstd::string::*;

use crate::games::{
    already_running_text, already_stopped_text, restarted_text, script_restart_text,
    script_start_text, script_stop_text, session_restart_text, session_start_text,
    session_stop_text, started_text, ExitOutcome, HostReport,
};

verus! {

/// What a script answers to `start`: done, or exit code 2 when the
/// server is already running.
pub open spec fn script_start_report(running: bool) -> HostReport {
    HostReport::Exited(
        ExitOutcome {
            code: Some(
                if running {
                    2i32
                } else {
                    0i32
                },
            ),
        },
    )
}

pub open spec fn script_running_after_start(running: bool) -> bool {
    true
}

/// What a script answers to `stop`: done, or exit code 2 when the
/// server is already stopped.
pub open spec fn script_stop_report(running: bool) -> HostReport {
    HostReport::Exited(
        ExitOutcome {
            code: Some(
                if running {
                    0i32
                } else {
                    2i32
                },
            ),
        },
    )
}

pub open spec fn script_running_after_stop(running: bool) -> bool {
    false
}

/// A script's `restart` acts whatever the state and reports success on
/// a healthy host.
pub open spec fn script_restart_report(running: bool) -> HostReport {
    HostReport::Exited(ExitOutcome { code: Some(0i32) })
}

pub open spec fn script_running_after_restart(running: bool) -> bool {
    true
}

/// A session-controlled `start` probes first: a live session
/// short-circuits, otherwise the launch runs and succeeds on a healthy
/// host.
pub open spec fn session_start_report(running: bool) -> HostReport {
    if running {
        HostReport::SessionPresent
    } else {
        HostReport::Exited(ExitOutcome { code: Some(0i32) })
    }
}

pub open spec fn session_running_after_start(running: bool) -> bool {
    true
}

/// A session-controlled `stop` probes first: no live session
/// short-circuits, otherwise the kill runs and succeeds on a healthy
/// host.
pub open spec fn session_stop_report(running: bool) -> HostReport {
    if running {
        HostReport::Exited(ExitOutcome { code: Some(0i32) })
    } else {
        HostReport::SessionAbsent
    }
}

pub open spec fn session_running_after_stop(running: bool) -> bool {
    false
}

/// A session-controlled `restart` kills the old session
/// unconditionally and relaunches; on a healthy host the relaunch
/// succeeds.
pub open spec fn session_restart_report(running: bool) -> HostReport {
    HostReport::Exited(ExitOutcome { code: Some(0i32) })
}

pub open spec fn session_running_after_restart(running: bool) -> bool {
    true
}

/// What the session probe itself reports.
pub open spec fn session_status_report(running: bool) -> HostReport {
    if running {
        HostReport::SessionPresent
    } else {
        HostReport::SessionAbsent
    }
}

/// A healthy host driven through a management script.
pub struct ScriptHost {
    pub running: bool,
}

impl ScriptHost {
    pub fn new(running: bool) -> (h: ScriptHost)
        ensures
            h.running == running,
    {
        ScriptHost { running }
    }

    pub fn start(&mut self) -> (r: HostReport)
        ensures
            r == script_start_report(old(self).running),
            final(self).running == script_running_after_start(old(self).running),
    {
        let r = if self.running {
            HostReport::Exited(ExitOutcome { code: Some(2) })
        } else {
            HostReport::Exited(ExitOutcome { code: Some(0) })
        };
        self.running = true;
        r
    }

    pub fn stop(&mut self) -> (r: HostReport)
        ensures
            r == script_stop_report(old(self).running),
            final(self).running == script_running_after_stop(old(self).running),
    {
        let r = if self.running {
            HostReport::Exited(ExitOutcome { code: Some(0) })
        } else {
            HostReport::Exited(ExitOutcome { code: Some(2) })
        };
        self.running = false;
        r
    }

    pub fn restart(&mut self) -> (r: HostReport)
        ensures
            r == script_restart_report(old(self).running),
            final(self).running == script_running_after_restart(old(self).running),
    {
        self.running = true;
        HostReport::Exited(ExitOutcome { code: Some(0) })
    }

    /// The lock-file probe: prints `1` or `0` with a trailing newline.
    pub fn status_probe(&self) -> (r: HostReport)
        ensures
            (match r {
                HostReport::Output(s) => s@ == (
                if self.running {
                    "1\n"@
                } else {
                    "0\n"@
                }),
                _ => false,
            }),
    {
        if self.running {
            HostReport::Output(String::from_str("1\n"))
        } else {
            HostReport::Output(String::from_str("0\n"))
        }
    }
}

/// A healthy host driven through a guarded terminal session.
pub struct SessionHost {
    pub running: bool,
}

impl SessionHost {
    pub fn new(running: bool) -> (h: SessionHost)
        ensures
            h.running == running,
    {
        SessionHost { running }
    }

    pub fn start(&mut self) -> (r: HostReport)
        ensures
            r == session_start_report(old(self).running),
            final(self).running == session_running_after_start(old(self).running),
    {
        let r = if self.running {
            HostReport::SessionPresent
        } else {
            HostReport::Exited(ExitOutcome { code: Some(0) })
        };
        self.running = true;
        r
    }

    pub fn stop(&mut self) -> (r: HostReport)
        ensures
            r == session_stop_report(old(self).running),
            final(self).running == session_running_after_stop(old(self).running),
    {
        let r = if self.running {
            HostReport::Exited(ExitOutcome { code: Some(0) })
        } else {
            HostReport::SessionAbsent
        };
        self.running = false;
        r
    }

    pub fn restart(&mut self) -> (r: HostReport)
        ensures
            r == session_restart_report(old(self).running),
            final(self).running == session_running_after_restart(old(self).running),
    {
        self.running = true;
        HostReport::Exited(ExitOutcome { code: Some(0) })
    }

    pub fn status_probe(&self) -> (r: HostReport)
        ensures
            r == session_status_report(self.running),
    {
        if self.running {
            HostReport::SessionPresent
        } else {
            HostReport::SessionAbsent
        }
    }
}

/// Law: starting a stopped script-controlled backend reports a
/// successful start and leaves the host running; an immediately
/// repeated start reports it already running — never a second start
/// and never a failure.
pub proof fn lemma_script_start_twice(name: Seq<char>)
    ensures
        script_start_text(name, script_start_report(false)) == started_text(name),
        script_running_after_start(false),
        script_start_text(name, script_start_report(script_running_after_start(false)))
            == already_running_text(name),
{
}

/// Law: the same for a session-controlled backend: the start goes
/// through once, and the repeat is answered "already running" off the
/// session probe alone.
pub proof fn lemma_session_start_twice(name: Seq<char>)
    ensures
        session_start_text(name, session_start_report(false)) == started_text(name),
        session_running_after_start(false),
        session_start_text(name, session_start_report(session_running_after_start(false)))
            == already_running_text(name),
{
}

/// Law: stopping an already-stopped backend answers "already stopped"
/// — never a failure — in both control styles.
pub proof fn lemma_stop_already_stopped(name: Seq<char>)
    ensures
        script_stop_text(name, script_stop_report(false)) == already_stopped_text(name),
        session_stop_text(name, session_stop_report(false)) == already_stopped_text(name),
{
}

/// Law: restarting a stopped backend succeeds and leaves the host
/// running, exactly as a start from the same state would, in both
/// control styles.
pub proof fn lemma_restart_from_stopped(name: Seq<char>)
    ensures
        script_restart_text(name, script_restart_report(false)) == restarted_text(name),
        script_running_after_restart(false) == script_running_after_start(false),
        session_restart_text(name, session_restart_report(false)) == restarted_text(name),
        session_running_after_restart(false) == session_running_after_start(false),
{
}

} // verus!
