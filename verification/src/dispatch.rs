use vstd::prelude::*;

use crate::config::Config;
use crate::messages::config_missing_message;
use crate::messages::config_missing_message_spec;
use crate::messages::status_message;
use crate::messages::status_message_spec;
use crate::messages::transport_error_message;
use crate::messages::transport_error_message_spec;
use crate::messages::usage_message;
use crate::messages::usage_message_spec;
use crate::messages::watch_message;
use crate::messages::watch_message_spec;

verus! {

/// One parsed invocation of the command line interface. Argument presence
/// and shape are enforced by the argument-parsing layer before a `Command`
/// is formed.
pub enum Command {
    Init { chief_url: String, maintainer_key: String },
    Submit { package_url: String, source_url: String },
    Status { pipeline_id: String },
    Watch { pipeline_id: String },
    NoCommand,
}

/// Whether a command may only run once a configuration record exists.
/// Every command but `init` (which creates the record) and the bare
/// invocation (which only prints usage) requires one.
pub open spec fn requires_config(cmd: Command) -> bool {
    cmd is Submit || cmd is Status || cmd is Watch
}

/// What the dispatcher tells the caller to do next: carry on with the
/// `init` flow, carry on with the `submit` flow, or print one message and
/// exit with the given code.
pub enum Step {
    DoInit,
    DoSubmit,
    Emit { message: String, exit_code: i32 },
}

/// Routes one invocation. `init` always proceeds; the bare invocation emits
/// the usage hint with exit code 0; every other command first requires the
/// configuration record, and without it emits the fixed fatal message with
/// exit code 1 before any of its own work — in particular, a `submit`
/// without configuration never reaches the transport. With configuration
/// present, `status` and `watch` echo the supplied pipeline identifier with
/// exit code 0, and `submit` proceeds to its own flow.
pub fn dispatch(cmd: Command, config_exists: bool) -> (s: Step)
    ensures
        cmd is Init ==> s is DoInit,
        cmd is NoCommand ==> (s matches Step::Emit { message, exit_code } && message@
            == usage_message_spec() && exit_code == 0),
        requires_config(cmd) && !config_exists ==> (s matches Step::Emit { message, exit_code }
            && message@ == config_missing_message_spec() && exit_code == 1),
        cmd is Submit && config_exists ==> s is DoSubmit,
        config_exists ==> (cmd matches Command::Status { pipeline_id } ==> (s matches Step::Emit {
            message,
            exit_code,
        } && message@ == status_message_spec(pipeline_id@) && exit_code == 0)),
        config_exists ==> (cmd matches Command::Watch { pipeline_id } ==> (s matches Step::Emit {
            message,
            exit_code,
        } && message@ == watch_message_spec(pipeline_id@) && exit_code == 0)),
{
    match cmd {
        Command::Init { .. } => Step::DoInit,
        Command::NoCommand => Step::Emit { message: usage_message(), exit_code: 0 },
        Command::Submit { .. } => {
            if config_exists {
                Step::DoSubmit
            } else {
                Step::Emit { message: config_missing_message(), exit_code: 1 }
            }
        },
        Command::Status { pipeline_id } => {
            if config_exists {
                Step::Emit { message: status_message(pipeline_id.as_str()), exit_code: 0 }
            } else {
                Step::Emit { message: config_missing_message(), exit_code: 1 }
            }
        },
        Command::Watch { pipeline_id } => {
            if config_exists {
                Step::Emit { message: watch_message(pipeline_id.as_str()), exit_code: 0 }
            } else {
                Step::Emit { message: config_missing_message(), exit_code: 1 }
            }
        },
    }
}

/// The exit code `submit` reports for a transport outcome: 0 for a response,
/// 1 for a transport failure.
pub open spec fn submit_exit_code(succeeded: bool) -> int {
    if succeeded {
        0
    } else {
        1
    }
}

/// What one `submit` invocation reports once the transport call returned:
/// the message to print and the process exit code.
pub struct SubmitReport {
    pub exit_code: i32,
    pub message: String,
}

/// Turns the transport outcome of a `submit` into what the process reports.
/// A response body is printed verbatim with exit code 0; a transport
/// failure is surfaced as a printed diagnostic with exit code 1, never
/// silently swallowed.
pub fn submit_report(transport_result: Result<String, String>) -> (r: SubmitReport)
    ensures
        r.exit_code as int == submit_exit_code(transport_result is Ok),
        transport_result matches Ok(body) ==> r.message@ == body@,
        transport_result matches Err(detail) ==> r.message@ == transport_error_message_spec(
            detail@,
        ),
{
    match transport_result {
        Ok(body) => SubmitReport { exit_code: 0, message: body },
        Err(detail) => SubmitReport {
            exit_code: 1,
            message: transport_error_message(detail.as_str()),
        },
    }
}

/// A transport failure during `submit` is distinguishable from success: for
/// any successful transport outcome and any failed one, the exit codes the
/// two reports carry differ.
pub proof fn lemma_transport_failure_distinguishable(
    success: Result<String, String>,
    failure: Result<String, String>,
)
    requires
        success is Ok,
        failure is Err,
    ensures
        submit_exit_code(success is Ok) != submit_exit_code(failure is Ok),
{
}

/// The informational lines printed before a submission is sent: the chief
/// address, the source URL when one was given, the package URL when one was
/// given, and the target URL, in that order.
pub open spec fn submit_preamble_spec(
    chief_url: Seq<char>,
    source_url: Seq<char>,
    package_url: Seq<char>,
    target_url: Seq<char>,
) -> Seq<Seq<char>> {
    seq!["Chief       : "@ + chief_url] + (if source_url.len() > 0 {
        seq!["Source URL  : "@ + source_url]
    } else {
        Seq::<Seq<char>>::empty()
    }) + (if package_url.len() > 0 {
        seq!["Package URL : "@ + package_url]
    } else {
        Seq::<Seq<char>>::empty()
    }) + seq!["Submit URL  : "@ + target_url]
}

/// Builds the informational lines printed before a submission is sent.
pub fn submit_preamble(config: &Config, source_url: &str, package_url: &str, target_url: &str) -> (
    lines: Vec<String>)
    ensures
        lines@.map_values(|s: String| s@) == submit_preamble_spec(
            config.chief_url@,
            source_url@,
            package_url@,
            target_url@,
        ),
{
    let mut lines: Vec<String> = Vec::new();
    let mut chief_line = "Chief       : ".to_owned();
    chief_line.append(config.chief_url.as_str());
    lines.push(chief_line);
    if source_url.unicode_len() > 0 {
        let mut source_line = "Source URL  : ".to_owned();
        source_line.append(source_url);
        lines.push(source_line);
    }
    if package_url.unicode_len() > 0 {
        let mut package_line = "Package URL : ".to_owned();
        package_line.append(package_url);
        lines.push(package_line);
    }
    let mut target_line = "Submit URL  : ".to_owned();
    target_line.append(target_url);
    lines.push(target_line);
    proof {
        assert(lines@.map_values(|s: String| s@) =~~= submit_preamble_spec(
            config.chief_url@,
            source_url@,
            package_url@,
            target_url@,
        ));
    }
    lines
}

} // verus!
