//! The instruction texts the coordinator returns to the calling agent, and
//! the task-scoped file names, each pinned down character for character.

use vstd::prelude::*;

use crate::text::{dec_chars, u64_to_string};

verus! {

/// Name of the single-slot durable record file inside the temp directory.
pub fn pending_record_file_name() -> (r: String)
    ensures
        r@ == "devkit_mcp_pending_task.json"@,
{
    String::from_str("devkit_mcp_pending_task.json")
}

/// Name of the shared coordinator log file inside the temp directory.
pub fn mcp_log_file_name() -> (r: String)
    ensures
        r@ == "devkit_mcp.log"@,
{
    String::from_str("devkit_mcp.log")
}

/// The request file name of a task.
pub open spec fn request_file_name_spec(task_id: Seq<char>) -> Seq<char> {
    "mcp_request_"@ + task_id + ".json"@
}

pub fn request_file_name(task_id: &str) -> (r: String)
    ensures
        r@ == request_file_name_spec(task_id@),
{
    let mut out = String::from_str("mcp_request_");
    out.append(task_id);
    out.append(".json");
    out
}

/// The response file name of a task.
pub open spec fn response_file_name_spec(task_id: Seq<char>) -> Seq<char> {
    "mcp_response_"@ + task_id + ".json"@
}

pub fn response_file_name(task_id: &str) -> (r: String)
    ensures
        r@ == response_file_name_spec(task_id@),
{
    let mut out = String::from_str("mcp_response_");
    out.append(task_id);
    out.append(".json");
    out
}

/// The UI log file name of a task.
pub open spec fn ui_log_file_name_spec(task_id: Seq<char>) -> Seq<char> {
    "devkit_ui_mcp_"@ + task_id + ".log"@
}

pub fn ui_log_file_name(task_id: &str) -> (r: String)
    ensures
        r@ == ui_log_file_name_spec(task_id@),
{
    let mut out = String::from_str("devkit_ui_mcp_");
    out.append(task_id);
    out.append(".log");
    out
}

/// A directory and a file name joined with a forward slash.
pub open spec fn path_join_spec(dir: Seq<char>, name: Seq<char>) -> Seq<char> {
    dir + "/"@ + name
}

pub fn path_join(dir: &str, name: &str) -> (r: String)
    ensures
        r@ == path_join_spec(dir@, name@),
{
    let mut out = String::from_str(dir);
    out.append("/");
    out.append(name);
    out
}

/// The text returned by *start* when a pending task already exists: the same
/// identifier again, with the instruction not to start another dialog.
pub open spec fn already_open_text(task_id: Seq<char>) -> Seq<char> {
    "An interactive dialog is already open. Task ID: "@ + task_id
        + "\n\nDO NOT call prompt again.\nWait for the user to finish their input in the dialog, then call cache_get with task_id \""@
        + task_id
        + "\".\n\nIf the dialog is not visible, ask the user to bring it to the front (or close it and retry)."@
}

pub fn already_open_message(task_id: &str) -> (r: String)
    ensures
        r@ == already_open_text(task_id@),
{
    let mut out = String::from_str("An interactive dialog is already open. Task ID: ");
    out.append(task_id);
    out.append(
        "\n\nDO NOT call prompt again.\nWait for the user to finish their input in the dialog, then call cache_get with task_id \"",
    );
    out.append(task_id);
    out.append(
        "\".\n\nIf the dialog is not visible, ask the user to bring it to the front (or close it and retry).",
    );
    out
}

/// The text returned by *start* after a dialog was opened: the new
/// identifier and the instruction to call *poll* exactly once.
pub open spec fn started_text(task_id: Seq<char>, command_path: Seq<char>) -> Seq<char> {
    "Interactive dialog opened. Task ID: "@ + task_id + "\nUI executable: "@ + command_path
        + "\n\nUSER IS NOW VIEWING THE DIALOG\n\nNEXT STEP: Call cache_get ONCE with task_id \""@
        + task_id
        + "\".\ncache_get will WAIT until the user submits/cancels in the dialog.\nDO NOT poll or call cache_get repeatedly."@
}

pub fn started_message(task_id: &str, command_path: &str) -> (r: String)
    ensures
        r@ == started_text(task_id@, command_path@),
{
    let mut out = String::from_str("Interactive dialog opened. Task ID: ");
    out.append(task_id);
    out.append("\nUI executable: ");
    out.append(command_path);
    out.append("\n\nUSER IS NOW VIEWING THE DIALOG\n\nNEXT STEP: Call cache_get ONCE with task_id \"");
    out.append(task_id);
    out.append(
        "\".\ncache_get will WAIT until the user submits/cancels in the dialog.\nDO NOT poll or call cache_get repeatedly.",
    );
    out
}

/// The result text of an abandoned task: the UI exited without writing a
/// response, so the caller is pointed at the log files.
pub open spec fn abandoned_text(
    task_id: Seq<char>,
    ui_log_path: Seq<char>,
    mcp_log_path: Seq<char>,
) -> Seq<char> {
    "UI did not return a response (it may have failed to start or exited early).\nTask ID: "@
        + task_id + "\nUI log: "@ + ui_log_path + "\nMCP log: "@ + mcp_log_path
        + "\nPlease open these log files and send their contents."@
}

pub fn abandoned_message(task_id: &str, ui_log_path: &str, mcp_log_path: &str) -> (r: String)
    ensures
        r@ == abandoned_text(task_id@, ui_log_path@, mcp_log_path@),
{
    let mut out = String::from_str(
        "UI did not return a response (it may have failed to start or exited early).\nTask ID: ",
    );
    out.append(task_id);
    out.append("\nUI log: ");
    out.append(ui_log_path);
    out.append("\nMCP log: ");
    out.append(mcp_log_path);
    out.append("\nPlease open these log files and send their contents.");
    out
}

/// How a wait budget is displayed: the bound in milliseconds, or the word
/// for an unbounded long-poll.
pub open spec fn budget_display(budget: Option<u64>) -> Seq<char> {
    match budget {
        Some(b) => dec_chars(b as int),
        None => "infinite"@,
    }
}

/// The status text returned when the wait budget is exhausted and the human
/// has not submitted yet: instructs the caller not to busy-poll.
pub open spec fn still_pending_text(
    task_id: Seq<char>,
    waited_ms: u64,
    budget: Option<u64>,
    ui_log_path: Seq<char>,
    mcp_log_path: Seq<char>,
) -> Seq<char> {
    "Status: PENDING - User has not submitted yet\nTask ID: "@ + task_id + "\n\nLong-poll waited: "@
        + dec_chars(waited_ms as int) + "ms (max "@ + budget_display(budget) + ")\n\nUI log: "@
        + ui_log_path + "\nMCP log: "@ + mcp_log_path
        + "\n\nThe user is still working on their response.\nAsk the user in chat: \"Have you finished your input?\"\nDO NOT call prompt again while waiting.\nDO NOT call cache_get again until the user confirms."@
}

pub fn still_pending_message(
    task_id: &str,
    waited_ms: u64,
    budget: Option<u64>,
    ui_log_path: &str,
    mcp_log_path: &str,
) -> (r: String)
    ensures
        r@ == still_pending_text(task_id@, waited_ms, budget, ui_log_path@, mcp_log_path@),
{
    let mut out = String::from_str("Status: PENDING - User has not submitted yet\nTask ID: ");
    out.append(task_id);
    out.append("\n\nLong-poll waited: ");
    let waited = u64_to_string(waited_ms);
    out.append(waited.as_str());
    out.append("ms (max ");
    match budget {
        Some(b) => {
            let bound = u64_to_string(b);
            out.append(bound.as_str());
        },
        None => {
            out.append("infinite");
        },
    }
    out.append(")\n\nUI log: ");
    out.append(ui_log_path);
    out.append("\nMCP log: ");
    out.append(mcp_log_path);
    out.append(
        "\n\nThe user is still working on their response.\nAsk the user in chat: \"Have you finished your input?\"\nDO NOT call prompt again while waiting.\nDO NOT call cache_get again until the user confirms.",
    );
    out
}

/// The error text for a poll of an unknown task identifier.
pub open spec fn task_not_found_text(task_id: Seq<char>) -> Seq<char> {
    "Task not found: "@ + task_id + ". Make sure you called cache (or cache_sync) first."@
}

pub fn task_not_found_message(task_id: &str) -> (r: String)
    ensures
        r@ == task_not_found_text(task_id@),
{
    let mut out = String::from_str("Task not found: ");
    out.append(task_id);
    out.append(". Make sure you called cache (or cache_sync) first.");
    out
}

} // verus!
