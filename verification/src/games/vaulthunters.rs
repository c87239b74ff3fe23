use vstd::prelude::*;
use vstd::string::*;

use crate::games::{
    GameServer, HostReport, ip_port, ip_port_text, manual_update_text, outcome_message,
    script_restart, script_restart_text, script_start, script_start_text, script_status,
    script_status_text, script_stop, script_stop_text,
};

verus! {

/// Vault Hunters: a script-controlled backend whose modpack has no
/// update path of its own — `update` always answers that it must be
/// done by hand.
pub struct Server {
    /// account that runs the game server
    pub user: String,
    /// management script that handles the game
    pub runner: String,
}

impl GameServer for Server {
    open spec fn wf(&self) -> bool {
        self.user@ == "gs_vaulthunters"@ && self.runner@ == "mcserver"@
    }

    open spec fn spec_name(&self) -> Seq<char> {
        "vaulthunters"@
    }

    open spec fn spec_description(&self) -> Seq<char> {
        "Minecraft server - Vaulthunters modpack"@
    }

    open spec fn spec_port(&self) -> u16 {
        25565u16
    }

    open spec fn spec_help(&self, ip: Seq<char>) -> Seq<char> {
        "## Help for Vaulthunters\nFor Vaulthunters with skyblock world generation use `skyvaults`.\n### Installation\n- Download curseforge (<https://www.curseforge.com/download/app>)\n- Install the Vault Hunters v3 modpack\n- Click play\n### Connection\n- Connect to "@
            + ip_port_text(ip, 25565)
            + "\n### Server settings\n- Vault difficulty: normal\n- Vanilla difficulty: hard\n"@
    }

    open spec fn spec_start(&self, r: HostReport) -> Seq<char> {
        script_start_text(self.spec_name(), r)
    }

    open spec fn spec_stop(&self, r: HostReport) -> Seq<char> {
        script_stop_text(self.spec_name(), r)
    }

    open spec fn spec_restart(&self, r: HostReport) -> Seq<char> {
        script_restart_text(self.spec_name(), r)
    }

    open spec fn spec_update(&self, r: HostReport) -> Seq<char> {
        manual_update_text(self.spec_name())
    }

    open spec fn spec_status(&self, r: HostReport) -> Seq<char> {
        script_status_text(r)
    }

    fn new() -> (s: Server) {
        Server { user: String::from_str("gs_vaulthunters"), runner: String::from_str("mcserver") }
    }

    fn name(&self) -> (r: String) {
        String::from_str("vaulthunters")
    }

    fn description(&self) -> (r: String) {
        String::from_str("Minecraft server - Vaulthunters modpack")
    }

    fn port(&self) -> (r: u16) {
        25565
    }

    fn help_message(&self, ip: &str) -> (r: String) {
        String::from_str(
            "## Help for Vaulthunters\nFor Vaulthunters with skyblock world generation use `skyvaults`.\n### Installation\n- Download curseforge (<https://www.curseforge.com/download/app>)\n- Install the Vault Hunters v3 modpack\n- Click play\n### Connection\n- Connect to ",
        ).concat(ip_port(ip, 25565).as_str()).concat(
            "\n### Server settings\n- Vault difficulty: normal\n- Vanilla difficulty: hard\n",
        )
    }

    fn start(&self, report: &HostReport) -> (r: String) {
        script_start("vaulthunters", report)
    }

    fn stop(&self, report: &HostReport) -> (r: String) {
        script_stop("vaulthunters", report)
    }

    fn restart(&self, report: &HostReport) -> (r: String) {
        script_restart("vaulthunters", report)
    }

    fn update(&self, report: &HostReport) -> (r: String) {
        outcome_message(false, "vaulthunters", "must be updated manually, ask Tony")
    }

    fn status(&self, report: &HostReport) -> (r: String) {
        script_status(report)
    }
}

} // verus!
