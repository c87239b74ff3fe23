use vstd::prelude::*;

use crate::commands::{invalid_game_message, invalid_game_text};
use crate::games::{get_game_server, HostReport, Registry};

verus! {

/// Starts the named backend: reads the host's report of the start
/// interaction and answers the outcome; a missing or unknown game name
/// answers the invalid-game message and no backend is consulted.
pub fn run(registry: &Registry, game: Option<&str>, report: &HostReport) -> (r: String)
    requires
        registry.wf(),
    ensures
        (match game {
            Some(g) => {
                &&& (forall|i: int|
                    0 <= i < registry.servers@.len()
                        && (#[trigger] registry.servers@[i].spec_name()) == g@
                        ==> r@ == registry.servers@[i].spec_start(*report))
                &&& ((forall|i: int|
                    0 <= i < registry.servers@.len()
                        ==> (#[trigger] registry.servers@[i].spec_name()) != g@)
                        ==> r@ == invalid_game_text())
            },
            None => r@ == invalid_game_text(),
        }),
{
    match game {
        Some(g) => match get_game_server(registry, g) {
            Some(b) => b.start(report),
            None => invalid_game_message(),
        },
        None => invalid_game_message(),
    }
}

} // verus!
