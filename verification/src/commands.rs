//! One handler per user-facing command. Each consults the registry
//! and renders the response; the surrounding binary supplies whatever
//! the outside world contributed (the public address, the host's
//! report of a lifecycle interaction).

use vstd::prelude::*;
use vstd::string::*;

pub mod help;
pub mod ip;
pub mod list;
pub mod restart;
pub mod start;
pub mod stop;
pub mod update;

verus! {

/// The answer to a lifecycle command whose game argument is missing or
/// names no registered server.
pub open spec fn invalid_game_text() -> Seq<char> {
    "Please provide a valid game name"@
}

/// Builds the invalid-game answer.
pub fn invalid_game_message() -> (r: String)
    ensures
        r@ == invalid_game_text(),
{
    String::from_str("Please provide a valid game name")
}

} // verus!
