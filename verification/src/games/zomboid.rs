use vstd::prelude::*;
use vstd::string::*;

use crate::games::{
    GameServer, HostReport, ip_port, ip_port_text, script_restart, script_restart_text,
    script_start, script_start_text, script_status, script_status_text, script_stop,
    script_stop_text, script_update, script_update_text,
};

verus! {

/// Project Zomboid: a script-controlled backend.
pub struct Server {
    /// account that runs the game server
    pub user: String,
    /// management script that handles the game
    pub runner: String,
}

impl GameServer for Server {
    open spec fn wf(&self) -> bool {
        self.user@ == "gs_zomboid"@ && self.runner@ == "pzserver"@
    }

    open spec fn spec_name(&self) -> Seq<char> {
        "zomboid"@
    }

    open spec fn spec_description(&self) -> Seq<char> {
        "Project Zomboid server"@
    }

    open spec fn spec_port(&self) -> u16 {
        16261u16
    }

    open spec fn spec_help(&self, ip: Seq<char>) -> Seq<char> {
        "## Help for Project Zomboid\n### Installation\n- Install Project Zomboid\n- Click play\n### Connection\nEither:\n- Search for \"Brumders\" in the server browser\n- Connect to "@
            + ip_port_text(ip, 16261)
            + " directly\n\n:lock: The server password is \"aids\"\n"@
    }

    open spec fn spec_start(&self, r: HostReport) -> Seq<char> {
        script_start_text(self.spec_name(), r)
    }

    open spec fn spec_stop(&self, r: HostReport) -> Seq<char> {
        script_stop_text(self.spec_name(), r)
    }

    open spec fn spec_restart(&self, r: HostReport) -> Seq<char> {
        script_restart_text(self.spec_name(), r)
    }

    open spec fn spec_update(&self, r: HostReport) -> Seq<char> {
        script_update_text(self.spec_name(), r)
    }

    open spec fn spec_status(&self, r: HostReport) -> Seq<char> {
        script_status_text(r)
    }

    fn new() -> (s: Server) {
        Server { user: String::from_str("gs_zomboid"), runner: String::from_str("pzserver") }
    }

    fn name(&self) -> (r: String) {
        String::from_str("zomboid")
    }

    fn description(&self) -> (r: String) {
        String::from_str("Project Zomboid server")
    }

    fn port(&self) -> (r: u16) {
        16261
    }

    fn help_message(&self, ip: &str) -> (r: String) {
        String::from_str(
            "## Help for Project Zomboid\n### Installation\n- Install Project Zomboid\n- Click play\n### Connection\nEither:\n- Search for \"Brumders\" in the server browser\n- Connect to ",
        ).concat(ip_port(ip, 16261).as_str()).concat(
            " directly\n\n:lock: The server password is \"aids\"\n",
        )
    }

    fn start(&self, report: &HostReport) -> (r: String) {
        script_start("zomboid", report)
    }

    fn stop(&self, report: &HostReport) -> (r: String) {
        script_stop("zomboid", report)
    }

    fn restart(&self, report: &HostReport) -> (r: String) {
        script_restart("zomboid", report)
    }

    fn update(&self, report: &HostReport) -> (r: String) {
        script_update("zomboid", report)
    }

    fn status(&self, report: &HostReport) -> (r: String) {
        script_status(report)
    }
}

} // verus!
