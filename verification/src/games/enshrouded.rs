use vstd::prelude::*;
use vstd::string::*;

use crate::games::{
    GameServer, HostReport, ip_port, ip_port_text, session_restart, session_restart_text,
    session_start, session_start_text, session_status, session_status_text, session_stop,
    session_stop_text, session_update, session_update_text,
};

verus! {

/// Enshrouded: a session-controlled backend. A live terminal session
/// is the mark that the server is running; operations first probe for
/// it and updates go through the platform's update client.
pub struct Server {
    /// account that runs the game server
    pub user: String,
    /// server executable that handles the game
    pub runner: String,
    /// name of the terminal session the server lives in
    pub session: String,
}

impl GameServer for Server {
    open spec fn wf(&self) -> bool {
        self.user@ == "gs_enshrouded"@
            && self.runner@ == "/usr/bin/wine /home/gs_enshrouded/serverfiles/enshrouded_server.exe"@
            && self.session@ == "enshrouded_server"@
    }

    open spec fn spec_name(&self) -> Seq<char> {
        "enshrouded"@
    }

    open spec fn spec_description(&self) -> Seq<char> {
        "Enshrouded server"@
    }

    open spec fn spec_port(&self) -> u16 {
        15637u16
    }

    open spec fn spec_help(&self, ip: Seq<char>) -> Seq<char> {
        "## Help for Enshrouded\n### Installation\n- Install Enshrouded\n- Click play\n### Connection\nIn-game:\n- Search for \"Brumders\" in the server browser\n- Connect to "@
            + ip_port_text(ip, 15637)
            + " directly\n\nVia steam:\n- View>Game Servers>Favorites>Add "@
            + ip_port_text(ip, 15637)
            + "\n\n:lock: The server password is \"aids\"\n### Server settings\n- Default difficulty\n- 45/15 minute day/night cycle\n"@
    }

    open spec fn spec_start(&self, r: HostReport) -> Seq<char> {
        session_start_text(self.spec_name(), r)
    }

    open spec fn spec_stop(&self, r: HostReport) -> Seq<char> {
        session_stop_text(self.spec_name(), r)
    }

    open spec fn spec_restart(&self, r: HostReport) -> Seq<char> {
        session_restart_text(self.spec_name(), r)
    }

    open spec fn spec_update(&self, r: HostReport) -> Seq<char> {
        session_update_text(self.spec_name(), r)
    }

    open spec fn spec_status(&self, r: HostReport) -> Seq<char> {
        session_status_text(r)
    }

    fn new() -> (s: Server) {
        Server {
            user: String::from_str("gs_enshrouded"),
            runner: String::from_str(
                "/usr/bin/wine /home/gs_enshrouded/serverfiles/enshrouded_server.exe",
            ),
            session: String::from_str("enshrouded_server"),
        }
    }

    fn name(&self) -> (r: String) {
        String::from_str("enshrouded")
    }

    fn description(&self) -> (r: String) {
        String::from_str("Enshrouded server")
    }

    fn port(&self) -> (r: u16) {
        15637
    }

    fn help_message(&self, ip: &str) -> (r: String) {
        let addr = ip_port(ip, 15637);
        String::from_str(
            "## Help for Enshrouded\n### Installation\n- Install Enshrouded\n- Click play\n### Connection\nIn-game:\n- Search for \"Brumders\" in the server browser\n- Connect to ",
        ).concat(addr.as_str()).concat(
            " directly\n\nVia steam:\n- View>Game Servers>Favorites>Add ",
        ).concat(addr.as_str()).concat(
            "\n\n:lock: The server password is \"aids\"\n### Server settings\n- Default difficulty\n- 45/15 minute day/night cycle\n",
        )
    }

    fn start(&self, report: &HostReport) -> (r: String) {
        session_start("enshrouded", report)
    }

    fn stop(&self, report: &HostReport) -> (r: String) {
        session_stop("enshrouded", report)
    }

    fn restart(&self, report: &HostReport) -> (r: String) {
        session_restart("enshrouded", report)
    }

    fn update(&self, report: &HostReport) -> (r: String) {
        session_update("enshrouded", report)
    }

    fn status(&self, report: &HostReport) -> (r: String) {
        session_status(report)
    }
}

} // verus!
