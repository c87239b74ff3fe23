use multiplayer_bot::commands::start;
use multiplayer_bot::events::{
    dispatch, is_trusted_member, CommandInvocation, DeferredExchange, Dispatch, FastCommand,
    SlowCommand,
};
use multiplayer_bot::games::Registry;
use multiplayer_bot::host::ScriptHost;

const TRUSTED: u64 = 777;

fn invocation(command: &str, roles: Option<Vec<u64>>, game: Option<&str>) -> CommandInvocation {
    CommandInvocation {
        command: String::from(command),
        member_roles: roles,
        game: game.map(String::from),
    }
}

#[test]
fn gate_requires_the_trusted_role() {
    assert!(is_trusted_member(&Some(vec![1, TRUSTED, 9]), TRUSTED));
    assert!(is_trusted_member(&Some(vec![TRUSTED]), TRUSTED));
    assert!(!is_trusted_member(&Some(vec![1, 9]), TRUSTED));
    assert!(!is_trusted_member(&Some(vec![]), TRUSTED));
    assert!(!is_trusted_member(&None, TRUSTED));
}

#[test]
fn denial_short_circuits_with_the_fixed_rejection() {
    let inv = invocation("start", Some(vec![1, 2]), Some("satisfactory"));
    match dispatch(&inv, TRUSTED) {
        Dispatch::Reject(m) => assert_eq!(
            m,
            "This bot is restricted to trusted memebers, ask someone to add you to the `Server Vet` role"
        ),
        _ => panic!("an untrusted caller must be rejected"),
    }
    let outside_guild = invocation("help", None, None);
    assert!(matches!(dispatch(&outside_guild, TRUSTED), Dispatch::Reject(_)));
}

#[test]
fn fast_commands_are_answered_inline() {
    let help = invocation("help", Some(vec![TRUSTED]), None);
    assert!(matches!(dispatch(&help, TRUSTED), Dispatch::Immediate(FastCommand::Help)));
    let ip = invocation("ip", Some(vec![TRUSTED]), None);
    assert!(matches!(dispatch(&ip, TRUSTED), Dispatch::Immediate(FastCommand::Ip)));
}

#[test]
fn slow_commands_defer_with_their_progress_line() {
    let cases: [(&str, SlowCommand, &str); 5] = [
        ("list", SlowCommand::List, "Listing status of all game servers..."),
        ("start", SlowCommand::Start, "Starting game server..."),
        ("stop", SlowCommand::Stop, "Stopping game server (may take a few minutes)..."),
        ("restart", SlowCommand::Restart, "Restarting game server..."),
        ("update", SlowCommand::Update, "Updating game server (may take a several minutes)..."),
    ];
    for (name, want_cmd, want_progress) in cases {
        let inv = invocation(name, Some(vec![TRUSTED]), Some("zomboid"));
        match dispatch(&inv, TRUSTED) {
            Dispatch::Deferred(cmd, progress) => {
                assert_eq!(std::mem::discriminant(&cmd), std::mem::discriminant(&want_cmd));
                assert_eq!(progress, want_progress);
            },
            _ => panic!("{name} must run deferred"),
        }
    }
}

#[test]
fn unknown_commands_are_echoed_back() {
    let inv = invocation("frobnicate", Some(vec![TRUSTED]), None);
    match dispatch(&inv, TRUSTED) {
        Dispatch::Unrecognized(m) => assert_eq!(m, "\"frobnicate\" is not a recognised command"),
        _ => panic!("an unknown command must be answered as unrecognised"),
    }
}

#[test]
fn deferred_exchange_emits_exactly_two_messages_in_order() {
    let mut ex = DeferredExchange::new();
    ex.acknowledge(true);
    ex.publish_progress("Starting game server...");
    ex.complete("✅ The zomboid server started successfully");
    let messages = ex.messages();
    assert_eq!(messages.len(), 2);
    assert_eq!(messages[0], "Starting game server...");
    assert_eq!(messages[1], "✅ The zomboid server started successfully");
}

#[test]
fn full_deferred_start_round_trip() {
    let registry = Registry::new();
    let inv = invocation("start", Some(vec![TRUSTED]), Some("zomboid"));
    let (op, progress) = match dispatch(&inv, TRUSTED) {
        Dispatch::Deferred(op, progress) => (op, progress),
        _ => panic!("start must run deferred"),
    };
    assert!(matches!(op, SlowCommand::Start));

    let mut exchange = DeferredExchange::new();
    exchange.acknowledge(true);
    exchange.publish_progress(&progress);
    let mut host = ScriptHost::new(false);
    let outcome = start::run(&registry, inv.game.as_deref(), &host.start());
    exchange.complete(&outcome);

    let messages = exchange.messages();
    assert_eq!(messages.len(), 2);
    assert_eq!(messages[0], "Starting game server...");
    assert_eq!(messages[1], "✅ The zomboid server started successfully");
    assert!(host.running);
}

#[test]
fn failed_acknowledgment_emits_no_messages() {
    let mut ex = DeferredExchange::new();
    ex.acknowledge(false);
    assert!(ex.messages().is_empty());
}
