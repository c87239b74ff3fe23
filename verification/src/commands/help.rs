use vstd::prelude::*;
use vstd::string::*;

use crate::games::{get_game_server, Backend, Registry};

verus! {

/// One overview line: name and description.
pub open spec fn server_line_text(b: Backend) -> Seq<char> {
    "- `"@ + b.spec_name() + "` - "@ + b.spec_description() + "\n"@
}

/// The first `n` overview lines, in display order.
pub open spec fn server_lines_text(servers: Seq<Backend>, n: int) -> Seq<char>
    decreases n,
{
    if n <= 0 {
        Seq::empty()
    } else {
        server_lines_text(servers, n - 1) + server_line_text(servers[n - 1])
    }
}

pub open spec fn general_help_header_text() -> Seq<char> {
    "# Welcome to the Brumders multiplayer bot\nThis bot allows you to interact with our game servers\n## Slash Commands\nGeneral commands:\n```\n/help : Show this general help info\n/ip   : Latest public IP\n/list : List of available servers and their status\n\n```\nGame-specific commands:\n```\n/help    <game> : How to set up your game\n/start   <game> : Start the server\n/stop    <game> : Stop the server\n/restart <game> : Restart the server\n/update  <game> : Update the server if possible\n```\nAll `/` commands have autocomplete suggestions for game selection\n## Available game servers\n"@
}

/// The general overview: the fixed header, then one line for every
/// registered server.
pub open spec fn general_help_text(servers: Seq<Backend>) -> Seq<char> {
    general_help_header_text() + server_lines_text(servers, servers.len() as int) + "\n"@
}

/// Builds the general overview message.
pub fn general_help(registry: &Registry) -> (r: String)
    ensures
        r@ == general_help_text(registry.servers@),
{
    let n = registry.servers.len();
    let mut list = String::new();
    let mut i: usize = 0;
    while i < n
        invariant
            n == registry.servers@.len(),
            0 <= i <= n,
            list@ == server_lines_text(registry.servers@, i as int),
        decreases n - i,
    {
        let b = &registry.servers[i];
        let line = String::from_str("- `").concat(b.name().as_str()).concat("` - ").concat(
            b.description().as_str(),
        ).concat("\n");
        list = list.concat(line.as_str());
        i += 1;
    }
    String::from_str(
        "# Welcome to the Brumders multiplayer bot\nThis bot allows you to interact with our game servers\n## Slash Commands\nGeneral commands:\n```\n/help : Show this general help info\n/ip   : Latest public IP\n/list : List of available servers and their status\n\n```\nGame-specific commands:\n```\n/help    <game> : How to set up your game\n/start   <game> : Start the server\n/stop    <game> : Stop the server\n/restart <game> : Restart the server\n/update  <game> : Update the server if possible\n```\nAll `/` commands have autocomplete suggestions for game selection\n## Available game servers\n",
    ).concat(list.as_str()).concat("\n")
}

/// Answers a valid game name with that backend's own instructions,
/// with the host's public address woven in; any other invocation gets
/// the general overview.
pub fn run(registry: &Registry, game: Option<&str>, ip: &str) -> (r: String)
    requires
        registry.wf(),
    ensures
        (match game {
            Some(g) => {
                &&& (forall|i: int|
                    0 <= i < registry.servers@.len()
                        && (#[trigger] registry.servers@[i].spec_name()) == g@
                        ==> r@ == registry.servers@[i].spec_help(ip@))
                &&& ((forall|i: int|
                    0 <= i < registry.servers@.len()
                        ==> (#[trigger] registry.servers@[i].spec_name()) != g@)
                        ==> r@ == general_help_text(registry.servers@))
            },
            None => r@ == general_help_text(registry.servers@),
        }),
{
    match game {
        Some(g) => match get_game_server(registry, g) {
            Some(b) => b.help_message(ip),
            None => general_help(registry),
        },
        None => general_help(registry),
    }
}

} // verus!
