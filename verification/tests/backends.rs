use multiplayer_bot::games::{enshrouded, satisfactory, sevendays, skyvaults, vaulthunters, zomboid};
use multiplayer_bot::games::{ExitOutcome, GameServer, HostReport};
use multiplayer_bot::host::{ScriptHost, SessionHost};

fn exited(code: i32) -> HostReport {
    HostReport::Exited(ExitOutcome { code: Some(code) })
}

#[test]
fn descriptors_are_fixed() {
    let s = satisfactory::Server::new();
    assert_eq!(s.name(), "satisfactory");
    assert_eq!(s.description(), "Vanilla satisfactory server");
    assert_eq!(s.port(), 7777);
    let e = enshrouded::Server::new();
    assert_eq!(e.name(), "enshrouded");
    assert_eq!(e.port(), 15637);
    assert_eq!(sevendays::Server::new().name(), "7days");
    assert_eq!(skyvaults::Server::new().port(), 25566);
    assert_eq!(vaulthunters::Server::new().port(), 25565);
    assert_eq!(zomboid::Server::new().port(), 16261);
}

#[test]
fn start_twice_on_stopped_script_backend() {
    let s = satisfactory::Server::new();
    let mut host = ScriptHost::new(false);
    let first = s.start(&host.start());
    assert_eq!(first, "✅ The satisfactory server started successfully");
    let second = s.start(&host.start());
    assert_eq!(second, "✅ The satisfactory server is already running");
}

#[test]
fn start_twice_on_stopped_session_backend() {
    let s = enshrouded::Server::new();
    let mut host = SessionHost::new(false);
    let first = s.start(&host.start());
    assert_eq!(first, "✅ The enshrouded server started successfully");
    let second = s.start(&host.start());
    assert_eq!(second, "✅ The enshrouded server is already running");
}

#[test]
fn stop_on_stopped_backend_is_never_a_failure() {
    let s = zomboid::Server::new();
    let mut host = ScriptHost::new(false);
    assert_eq!(s.stop(&host.stop()), "✅ The zomboid server is already stopped");
    let e = enshrouded::Server::new();
    let mut shost = SessionHost::new(false);
    assert_eq!(e.stop(&shost.stop()), "✅ The enshrouded server is already stopped");
}

#[test]
fn restart_on_stopped_backend_succeeds_and_runs() {
    let s = sevendays::Server::new();
    let mut host = ScriptHost::new(false);
    assert_eq!(s.restart(&host.restart()), "✅ The 7days server restarted successfully");
    assert!(host.running);
    let e = enshrouded::Server::new();
    let mut shost = SessionHost::new(false);
    assert_eq!(e.restart(&shost.restart()), "✅ The enshrouded server restarted successfully");
    assert!(shost.running);
}

#[test]
fn stop_and_start_round_trip() {
    let s = satisfactory::Server::new();
    let mut host = ScriptHost::new(true);
    assert_eq!(s.stop(&host.stop()), "✅ The satisfactory server stopped successfully");
    assert_eq!(s.start(&host.start()), "✅ The satisfactory server started successfully");
}

#[test]
fn failures_are_worded_as_failures() {
    let s = zomboid::Server::new();
    assert_eq!(s.start(&exited(1)), "❌ The zomboid server failed to start, ask Tony to fix it)");
    assert_eq!(s.stop(&exited(1)), "❌ The zomboid server failed to stop, ask Tony)");
    assert_eq!(s.restart(&exited(1)), "❌ The zomboid server failed to restart, ask Tony)");
    assert_eq!(s.update(&exited(1)), "❌ The zomboid server failed to update, ask Tony)");
    let e = enshrouded::Server::new();
    assert_eq!(e.start(&exited(1)), "❌ The enshrouded server failed to start, ask Tony to fix it");
    assert_eq!(e.stop(&exited(1)), "❌ The enshrouded server failed to stop, ask Tony to fix it");
    let killed = HostReport::Exited(ExitOutcome { code: None });
    assert_eq!(s.start(&killed), "❌ The zomboid server failed to start, ask Tony to fix it)");
}

#[test]
fn script_update_follows_the_exit_status() {
    let s = skyvaults::Server::new();
    assert_eq!(s.update(&exited(0)), "✅ The skyvaults server updated successfully");
    assert_eq!(s.update(&exited(3)), "❌ The skyvaults server failed to update, ask Tony)");
}

#[test]
fn vaulthunters_update_is_always_manual() {
    let v = vaulthunters::Server::new();
    let manual = "❌ The vaulthunters server must be updated manually, ask Tony";
    assert_eq!(v.update(&exited(0)), manual);
    assert_eq!(v.update(&exited(1)), manual);
    assert_eq!(v.update(&HostReport::Failed), manual);
}

#[test]
fn enshrouded_update_scans_for_the_success_marker() {
    let e = enshrouded::Server::new();
    let good = HostReport::Output(String::from(" Update state (0x61) downloading... Success! App '2278520' fully installed.\n"));
    assert_eq!(e.update(&good), "✅ The enshrouded server updated successfully");
    let bad = HostReport::Output(String::from("Login failure: no connection\n"));
    assert_eq!(bad_update(&e, bad), "❌ The enshrouded server failed to update, ask Tony)");
    assert_eq!(e.update(&HostReport::Failed), "❌ The enshrouded server failed to update, ask Tony)");
}

fn bad_update(e: &enshrouded::Server, r: HostReport) -> String {
    e.update(&r)
}

#[test]
fn status_is_one_of_three_classes_for_every_probe_outcome() {
    let classes = [":arrow_forward: Running", ":stop_button: Idle", "\u{2753} Unknown"];
    let s = satisfactory::Server::new();
    let e = enshrouded::Server::new();
    let probes = [
        HostReport::Output(String::from("1\n")),
        HostReport::Output(String::from("0\n")),
        HostReport::Output(String::from("garbage")),
        HostReport::Exited(ExitOutcome { code: Some(0) }),
        HostReport::SessionPresent,
        HostReport::SessionAbsent,
        HostReport::Failed,
    ];
    for p in &probes {
        assert!(classes.contains(&s.status(p).as_str()));
        assert!(classes.contains(&e.status(p).as_str()));
    }
}

#[test]
fn script_status_reads_the_lock_file_probe() {
    let s = sevendays::Server::new();
    let host = ScriptHost::new(true);
    assert_eq!(s.status(&host.status_probe()), ":arrow_forward: Running");
    let idle = ScriptHost::new(false);
    assert_eq!(s.status(&idle.status_probe()), ":stop_button: Idle");
    assert_eq!(s.status(&HostReport::Failed), "\u{2753} Unknown");
    assert_eq!(s.status(&HostReport::Output(String::from("2\n"))), "\u{2753} Unknown");
}

#[test]
fn session_status_reads_the_session_probe() {
    let e = enshrouded::Server::new();
    let host = SessionHost::new(true);
    assert_eq!(e.status(&host.status_probe()), ":arrow_forward: Running");
    let idle = SessionHost::new(false);
    assert_eq!(e.status(&idle.status_probe()), ":stop_button: Idle");
    assert_eq!(e.status(&HostReport::Failed), "\u{2753} Unknown");
}

#[test]
fn help_messages_embed_address_and_port() {
    let s = satisfactory::Server::new();
    let h = s.help_message("203.0.113.9");
    assert!(h.contains("## Help for Satisfactory"));
    assert!(h.contains("203.0.113.9:7777"));
    assert!(!h.contains("Enshrouded"));
    let e = enshrouded::Server::new();
    let eh = e.help_message("203.0.113.9");
    assert!(eh.contains("## Help for Enshrouded"));
    assert_eq!(eh.matches("203.0.113.9:15637").count(), 2);
}
