use vstd::prelude::*;
use vstd::string::*;

use crate::games::{
    GameServer, HostReport, ip_port, ip_port_text, script_restart, script_restart_text,
    script_start, script_start_text, script_status, script_status_text, script_stop,
    script_stop_text, script_update, script_update_text,
};

verus! {

/// Seven Days To Die: a script-controlled backend.
pub struct Server {
    /// account that runs the game server
    pub user: String,
    /// management script that handles the game
    pub runner: String,
}

impl GameServer for Server {
    open spec fn wf(&self) -> bool {
        self.user@ == "gs_7days"@ && self.runner@ == "sdtdserver"@
    }

    open spec fn spec_name(&self) -> Seq<char> {
        "7days"@
    }

    open spec fn spec_description(&self) -> Seq<char> {
        "Seven Days To Die server"@
    }

    open spec fn spec_port(&self) -> u16 {
        26900u16
    }

    open spec fn spec_help(&self, ip: Seq<char>) -> Seq<char> {
        "## Help for Seven Days To Die\n### Installation\n- Install the 7 Days 2 Die\n- Click play\n### Connection\nEither:\n- Search for \"Brumders\" in the server browser\n- Connect to "@
            + ip_port_text(ip, 26900)
            + " directly\n\n:lock: The server password is \"aids\"\n### Server settings\n- Random world generation (seed = \"aids\")\n- 60 minute days: 42 day/18 night\n- No death XP/food/health penalty\n- Only drop backpack on death\n- Enemy difficulty: Normal\n- Blood moon every 14 days\n- POI and loot respawn every 7 days\n- Friendly fire is OFF\n### Client-side mods\nThese go in your `C:\\Program Files (x86)\\Steam\\steamapps\\common\\7 Days To Die\\Mods`\n\nAll of these are optional, you do not need them to join\n- [Craft from containers](<https://www.nexusmods.com/7daystodie/mods/4970>)\n- [Read book icons](<https://7daystodiemods.com/dewtas-better-read-book-icons>)\n### Server-side mods\nThese are automatic, you do not need to download them\n- [HUDPlus](<https://7daystodiemods.com/agf-hudplus/>)\n- [Bigger Backpack Mod](<https://7daystodiemods.com/bigger-backpack-mod-60-96-slot/>)\n- [HP Bars](<https://7daystodiemods.com/hp-bars/>)\n"@
    }

    open spec fn spec_start(&self, r: HostReport) -> Seq<char> {
        script_start_text(self.spec_name(), r)
    }

    open spec fn spec_stop(&self, r: HostReport) -> Seq<char> {
        script_stop_text(self.spec_name(), r)
    }

    open spec fn spec_restart(&self, r: HostReport) -> Seq<char> {
        script_restart_text(self.spec_name(), r)
    }

    open spec fn spec_update(&self, r: HostReport) -> Seq<char> {
        script_update_text(self.spec_name(), r)
    }

    open spec fn spec_status(&self, r: HostReport) -> Seq<char> {
        script_status_text(r)
    }

    fn new() -> (s: Server) {
        Server { user: String::from_str("gs_7days"), runner: String::from_str("sdtdserver") }
    }

    fn name(&self) -> (r: String) {
        String::from_str("7days")
    }

    fn description(&self) -> (r: String) {
        String::from_str("Seven Days To Die server")
    }

    fn port(&self) -> (r: u16) {
        26900
    }

    fn help_message(&self, ip: &str) -> (r: String) {
        String::from_str(
            "## Help for Seven Days To Die\n### Installation\n- Install the 7 Days 2 Die\n- Click play\n### Connection\nEither:\n- Search for \"Brumders\" in the server browser\n- Connect to ",
        ).concat(ip_port(ip, 26900).as_str()).concat(
            " directly\n\n:lock: The server password is \"aids\"\n### Server settings\n- Random world generation (seed = \"aids\")\n- 60 minute days: 42 day/18 night\n- No death XP/food/health penalty\n- Only drop backpack on death\n- Enemy difficulty: Normal\n- Blood moon every 14 days\n- POI and loot respawn every 7 days\n- Friendly fire is OFF\n### Client-side mods\nThese go in your `C:\\Program Files (x86)\\Steam\\steamapps\\common\\7 Days To Die\\Mods`\n\nAll of these are optional, you do not need them to join\n- [Craft from containers](<https://www.nexusmods.com/7daystodie/mods/4970>)\n- [Read book icons](<https://7daystodiemods.com/dewtas-better-read-book-icons>)\n### Server-side mods\nThese are automatic, you do not need to download them\n- [HUDPlus](<https://7daystodiemods.com/agf-hudplus/>)\n- [Bigger Backpack Mod](<https://7daystodiemods.com/bigger-backpack-mod-60-96-slot/>)\n- [HP Bars](<https://7daystodiemods.com/hp-bars/>)\n",
        )
    }

    fn start(&self, report: &HostReport) -> (r: String) {
        script_start("7days", report)
    }

    fn stop(&self, report: &HostReport) -> (r: String) {
        script_stop("7days", report)
    }

    fn restart(&self, report: &HostReport) -> (r: String) {
        script_restart("7days", report)
    }

    fn update(&self, report: &HostReport) -> (r: String) {
        script_update("7days", report)
    }

    fn status(&self, report: &HostReport) -> (r: String) {
        script_status(report)
    }
}

} // verus!
