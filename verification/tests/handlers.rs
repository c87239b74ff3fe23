use multiplayer_bot::commands::{help, ip, list, restart, start, stop, update};
use multiplayer_bot::games::{get_game_server, Backend, ExitOutcome, HostReport, Registry};

fn exited(code: i32) -> HostReport {
    HostReport::Exited(ExitOutcome { code: Some(code) })
}

#[test]
fn registry_lists_the_fleet_in_display_order() {
    let registry = Registry::new();
    let names: Vec<String> = registry.all().iter().map(|b| b.name()).collect();
    assert_eq!(
        names,
        vec!["7days", "enshrouded", "satisfactory", "skyvaults", "vaulthunters", "zomboid"]
    );
}

#[test]
fn lookup_finds_each_registered_server_and_nothing_else() {
    let registry = Registry::new();
    for b in registry.all() {
        let found = get_game_server(&registry, &b.name()).expect("registered name must be found");
        assert_eq!(found.name(), b.name());
        assert_eq!(found.port(), b.port());
    }
    assert!(get_game_server(&registry, "doesnotexist").is_none());
    assert!(get_game_server(&registry, "Satisfactory").is_none());
    assert!(get_game_server(&registry, "").is_none());
}

#[test]
fn general_help_names_every_server() {
    let registry = Registry::new();
    let h = help::run(&registry, None, "unknown");
    assert!(h.starts_with("# Welcome to the Brumders multiplayer bot"));
    for b in registry.all() {
        assert!(h.contains(&b.name()));
        assert!(h.contains(&b.description()));
    }
    assert!(h.contains("- `7days` - Seven Days To Die server\n"));
}

#[test]
fn game_help_is_specific_to_that_backend() {
    let registry = Registry::new();
    let h = help::run(&registry, Some("satisfactory"), "203.0.113.9");
    assert!(h.contains("## Help for Satisfactory"));
    assert!(h.contains("203.0.113.9:7777"));
    assert!(!h.contains("Enshrouded"));
    assert!(!h.contains("Zomboid"));
}

#[test]
fn help_for_an_unknown_game_falls_back_to_the_overview() {
    let registry = Registry::new();
    let fallback = help::run(&registry, Some("doesnotexist"), "unknown");
    assert_eq!(fallback, help::run(&registry, None, "unknown"));
}

#[test]
fn ip_reports_the_address_verbatim() {
    assert_eq!(ip::run("203.0.113.9"), "The current server ip is 203.0.113.9");
    assert_eq!(ip::run("unknown"), "The current server ip is unknown");
}

#[test]
fn lifecycle_commands_reject_missing_or_unknown_games() {
    let registry = Registry::new();
    let report = HostReport::Failed;
    assert_eq!(start::run(&registry, Some("doesnotexist"), &report), "Please provide a valid game name");
    assert_eq!(start::run(&registry, None, &report), "Please provide a valid game name");
    assert_eq!(stop::run(&registry, Some("SATISFACTORY"), &report), "Please provide a valid game name");
    assert_eq!(restart::run(&registry, None, &report), "Please provide a valid game name");
    assert_eq!(update::run(&registry, Some(""), &report), "Please provide a valid game name");
}

#[test]
fn lifecycle_commands_route_to_the_named_backend() {
    let registry = Registry::new();
    assert_eq!(
        start::run(&registry, Some("7days"), &exited(0)),
        "✅ The 7days server started successfully"
    );
    assert_eq!(
        stop::run(&registry, Some("zomboid"), &exited(2)),
        "✅ The zomboid server is already stopped"
    );
    assert_eq!(
        restart::run(&registry, Some("enshrouded"), &exited(1)),
        "❌ The enshrouded server failed to restart, ask Tony to fix it"
    );
    assert_eq!(
        update::run(&registry, Some("vaulthunters"), &exited(0)),
        "❌ The vaulthunters server must be updated manually, ask Tony"
    );
}

#[test]
fn listing_shows_status_and_description_per_server() {
    let registry = Registry::new();
    let reports = vec![
        HostReport::Output(String::from("1\n")),
        HostReport::SessionAbsent,
        HostReport::Output(String::from("0\n")),
        HostReport::Output(String::from("nonsense")),
        HostReport::Failed,
        HostReport::Output(String::from(" 1 ")),
    ];
    let listing = list::run(&registry, &reports);
    assert!(listing.starts_with("## List of brumders servers\n"));
    assert!(listing.contains("- `7days` - :arrow_forward: Running\n  - Seven Days To Die server\n"));
    assert!(listing.contains("- `enshrouded` - :stop_button: Idle\n  - Enshrouded server\n"));
    assert!(listing.contains("- `satisfactory` - :stop_button: Idle\n  - Vanilla satisfactory server\n"));
    assert!(listing.contains("- `skyvaults` - \u{2753} Unknown\n"));
    assert!(listing.contains("- `vaulthunters` - \u{2753} Unknown\n"));
    assert!(listing.contains("- `zomboid` - :arrow_forward: Running\n  - Project Zomboid server\n"));
}

#[test]
fn listing_reads_a_missing_report_as_unknown() {
    let registry = Registry::new();
    let listing = list::run(&registry, &Vec::new());
    for b in registry.all() {
        assert!(listing.contains(&format!("- `{}` - \u{2753} Unknown\n", b.name())));
    }
}

#[test]
fn a_wrong_backend_is_never_consulted() {
    let registry = Registry::new();
    let msg = start::run(&registry, Some("satisfactory"), &exited(0));
    assert!(msg.contains("satisfactory"));
    assert!(!msg.contains("zomboid"));
    let b: &Backend = get_game_server(&registry, "satisfactory").unwrap();
    assert_eq!(msg, b.start(&exited(0)));
}
