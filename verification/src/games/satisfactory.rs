use vstd::prelude::*;
use vstd::string::*;

use crate::games::{
    GameServer, HostReport, ip_port, ip_port_text, script_restart, script_restart_text,
    script_start, script_start_text, script_status, script_status_text, script_stop,
    script_stop_text, script_update, script_update_text,
};

verus! {

/// Satisfactory: a script-controlled backend.
pub struct Server {
    /// account that runs the game server
    pub user: String,
    /// management script that handles the game
    pub runner: String,
}

impl GameServer for Server {
    open spec fn wf(&self) -> bool {
        self.user@ == "gs_sfserver"@ && self.runner@ == "sfserver"@
    }

    open spec fn spec_name(&self) -> Seq<char> {
        "satisfactory"@
    }

    open spec fn spec_description(&self) -> Seq<char> {
        "Vanilla satisfactory server"@
    }

    open spec fn spec_port(&self) -> u16 {
        7777u16
    }

    open spec fn spec_help(&self, ip: Seq<char>) -> Seq<char> {
        "## Help for Satisfactory\nVanilla satisfactory server, version 1.1\n### Installation\n- Install Satisfactory\n- Click play\n### Connection\n- Server Manager > Add Server\n- Connect to "@
            + ip_port_text(ip, 7777)
            + " directly\n\nThe server password is \"aids\" if it asks you to authenticate\n\nNote: v1.1 has shitty cpu usage when idle, please use `/stop` when you are done playing until they can fix it\n"@
    }

    open spec fn spec_start(&self, r: HostReport) -> Seq<char> {
        script_start_text(self.spec_name(), r)
    }

    open spec fn spec_stop(&self, r: HostReport) -> Seq<char> {
        script_stop_text(self.spec_name(), r)
    }

    open spec fn spec_restart(&self, r: HostReport) -> Seq<char> {
        script_restart_text(self.spec_name(), r)
    }

    open spec fn spec_update(&self, r: HostReport) -> Seq<char> {
        script_update_text(self.spec_name(), r)
    }

    open spec fn spec_status(&self, r: HostReport) -> Seq<char> {
        script_status_text(r)
    }

    fn new() -> (s: Server) {
        Server { user: String::from_str("gs_sfserver"), runner: String::from_str("sfserver") }
    }

    fn name(&self) -> (r: String) {
        String::from_str("satisfactory")
    }

    fn description(&self) -> (r: String) {
        String::from_str("Vanilla satisfactory server")
    }

    fn port(&self) -> (r: u16) {
        7777
    }

    fn help_message(&self, ip: &str) -> (r: String) {
        String::from_str(
            "## Help for Satisfactory\nVanilla satisfactory server, version 1.1\n### Installation\n- Install Satisfactory\n- Click play\n### Connection\n- Server Manager > Add Server\n- Connect to ",
        ).concat(ip_port(ip, 7777).as_str()).concat(
            " directly\n\nThe server password is \"aids\" if it asks you to authenticate\n\nNote: v1.1 has shitty cpu usage when idle, please use `/stop` when you are done playing until they can fix it\n",
        )
    }

    fn start(&self, report: &HostReport) -> (r: String) {
        script_start("satisfactory", report)
    }

    fn stop(&self, report: &HostReport) -> (r: String) {
        script_stop("satisfactory", report)
    }

    fn restart(&self, report: &HostReport) -> (r: String) {
        script_restart("satisfactory", report)
    }

    fn update(&self, report: &HostReport) -> (r: String) {
        script_update("satisfactory", report)
    }

    fn status(&self, report: &HostReport) -> (r: String) {
        script_status(report)
    }
}

} // verus!
