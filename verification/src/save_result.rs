//! The save-results command: the tool name is parsed into the closed
//! enumeration and the per-tool filename stem is fixed here. A completion
//! message is always produced, so the UI is never left waiting; it reports
//! success only when the name addresses a known tool whose engine state
//! existed and whose save call succeeded.

use vstd::prelude::*;
use vstd::string::StringExecFns;
use crate::tools::{spec_parse_tool, parse_tool};

verus! {

/// A save request: the tool addressed by its user-visible name, and the
/// directory to save under.
pub struct Options {
    pub current_tool: String,
    pub destination: String,
}

/// What came of asking the stored engine state to save: there was none,
/// or the save call succeeded, or it failed. The last two collapse into
/// one user-visible failure message.
#[derive(Clone, Copy, PartialEq, Eq, Structural, Debug)]
pub enum SaveReport {
    NoEngine,
    SaveOk,
    SaveFailed,
}

/// The completion message of a save request.
pub open spec fn spec_save_message(tool_name: Seq<char>, destination: Seq<char>, ok: bool) -> Seq<
    char,
> {
    if ok {
        "Successfully saved `"@ + tool_name + "` results to `"@ + destination + "`"@
    } else {
        "Failed to Save `"@ + tool_name + "` results to `"@ + destination + "`"@
    }
}

/// Builds the completion message of a save request, so that one is always
/// emitted and the UI is never left waiting: the message reports success
/// exactly when the tool name is a known one and its engine state's save
/// call succeeded; an unrecognized name has no engine state, so it gets
/// the same failure message.
pub fn save_result(options: &Options, report: SaveReport) -> (r: String)
    ensures
        r@ == spec_save_message(
            options.current_tool@,
            options.destination@,
            spec_parse_tool(options.current_tool@) is Some && report == SaveReport::SaveOk,
        ),
{
    let recognized = parse_tool(options.current_tool.as_str()).is_some();
    let ok = recognized && matches!(report, SaveReport::SaveOk);
    let mut s = if ok {
        String::from_str("Successfully saved `")
    } else {
        String::from_str("Failed to Save `")
    };
    s.append(options.current_tool.as_str());
    s.append("` results to `");
    s.append(options.destination.as_str());
    s.append("`");
    s
}

} // verus!
