use vstd::prelude::*;
use vstd::string::*;

use crate::games::{
    GameServer, HostReport, ip_port, ip_port_text, script_restart, script_restart_text,
    script_start, script_start_text, script_status, script_status_text, script_stop,
    script_stop_text, script_update, script_update_text,
};

verus! {

/// Skyvaults: the Vault Hunters modpack with skyblock world
/// generation, a script-controlled backend.
pub struct Server {
    /// account that runs the game server
    pub user: String,
    /// management script that handles the game
    pub runner: String,
}

impl GameServer for Server {
    open spec fn wf(&self) -> bool {
        self.user@ == "gs_skyvaults"@ && self.runner@ == "mcserver"@
    }

    open spec fn spec_name(&self) -> Seq<char> {
        "skyvaults"@
    }

    open spec fn spec_description(&self) -> Seq<char> {
        "Minecraft server - Vaulthunters skyblock modpack"@
    }

    open spec fn spec_port(&self) -> u16 {
        25566u16
    }

    open spec fn spec_help(&self, ip: Seq<char>) -> Seq<char> {
        "## Help for Skyvaults\nVaulthunters with skyblock world generation.\n### Installation\n- Download curseforge (<https://www.curseforge.com/download/app>)\n- Install the Vault Hunters v3 modpack\n- Click play\n### Connection\n- Connect to "@
            + ip_port_text(ip, 25566)
            + "\n### Server settings\n- Vault difficulty: normal\n- Vanilla difficulty: hard\n"@
    }

    open spec fn spec_start(&self, r: HostReport) -> Seq<char> {
        script_start_text(self.spec_name(), r)
    }

    open spec fn spec_stop(&self, r: HostReport) -> Seq<char> {
        script_stop_text(self.spec_name(), r)
    }

    open spec fn spec_restart(&self, r: HostReport) -> Seq<char> {
        script_restart_text(self.spec_name(), r)
    }

    open spec fn spec_update(&self, r: HostReport) -> Seq<char> {
        script_update_text(self.spec_name(), r)
    }

    open spec fn spec_status(&self, r: HostReport) -> Seq<char> {
        script_status_text(r)
    }

    fn new() -> (s: Server) {
        Server { user: String::from_str("gs_skyvaults"), runner: String::from_str("mcserver") }
    }

    fn name(&self) -> (r: String) {
        String::from_str("skyvaults")
    }

    fn description(&self) -> (r: String) {
        String::from_str("Minecraft server - Vaulthunters skyblock modpack")
    }

    fn port(&self) -> (r: u16) {
        25566
    }

    fn help_message(&self, ip: &str) -> (r: String) {
        String::from_str(
            "## Help for Skyvaults\nVaulthunters with skyblock world generation.\n### Installation\n- Download curseforge (<https://www.curseforge.com/download/app>)\n- Install the Vault Hunters v3 modpack\n- Click play\n### Connection\n- Connect to ",
        ).concat(ip_port(ip, 25566).as_str()).concat(
            "\n### Server settings\n- Vault difficulty: normal\n- Vanilla difficulty: hard\n",
        )
    }

    fn start(&self, report: &HostReport) -> (r: String) {
        script_start("skyvaults", report)
    }

    fn stop(&self, report: &HostReport) -> (r: String) {
        script_stop("skyvaults", report)
    }

    fn restart(&self, report: &HostReport) -> (r: String) {
        script_restart("skyvaults", report)
    }

    fn update(&self, report: &HostReport) -> (r: String) {
        script_update("skyvaults", report)
    }

    fn status(&self, report: &HostReport) -> (r: String) {
        script_status(report)
    }
}

} // verus!
