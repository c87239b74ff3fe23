use vstd::prelude::*;
use vstd::string::*;

use crate::games::{Backend, HostReport, Registry};

verus! {

/// The report standing at position `i`; a missing one reads as a
/// failed probe, which every backend answers with an unknown status.
pub open spec fn report_at(reports: Seq<HostReport>, i: int) -> HostReport {
    if 0 <= i < reports.len() {
        reports[i]
    } else {
        HostReport::Failed
    }
}

/// One listing line: name, status, description.
pub open spec fn status_line_text(b: Backend, r: HostReport) -> Seq<char> {
    "- `"@ + b.spec_name() + "` - "@ + b.spec_status(r) + "\n  - "@ + b.spec_description()
        + "\n"@
}

/// The first `n` listing lines, in display order.
pub open spec fn status_lines_text(servers: Seq<Backend>, reports: Seq<HostReport>, n: int) -> Seq<
    char,
>
    decreases n,
{
    if n <= 0 {
        Seq::empty()
    } else {
        status_lines_text(servers, reports, n - 1) + status_line_text(
            servers[n - 1],
            report_at(reports, n - 1),
        )
    }
}

/// The whole listing answer.
pub open spec fn list_text(servers: Seq<Backend>, reports: Seq<HostReport>) -> Seq<char> {
    "## List of brumders servers\n"@ + status_lines_text(servers, reports, servers.len() as int)
        + "\n"@
}

/// Lists every registered server with its status and description, in
/// display order, one probe report per server.
pub fn run(registry: &Registry, reports: &Vec<HostReport>) -> (r: String)
    ensures
        r@ == list_text(registry.servers@, reports@),
{
    let failed = HostReport::Failed;
    let n = registry.servers.len();
    let mut list = String::new();
    let mut i: usize = 0;
    while i < n
        invariant
            n == registry.servers@.len(),
            0 <= i <= n,
            failed == HostReport::Failed,
            list@ == status_lines_text(registry.servers@, reports@, i as int),
        decreases n - i,
    {
        let b = &registry.servers[i];
        let rep: &HostReport = if i < reports.len() {
            &reports[i]
        } else {
            &failed
        };
        proof {
            assert(*rep == report_at(reports@, i as int));
        }
        let status = b.status(rep);
        let line = String::from_str("- `").concat(b.name().as_str()).concat("` - ").concat(
            status.as_str(),
        ).concat("\n  - ").concat(b.description().as_str()).concat("\n");
        list = list.concat(line.as_str());
        i += 1;
    }
    String::from_str("## List of brumders servers\n").concat(list.as_str()).concat("\n")
}

} // verus!
