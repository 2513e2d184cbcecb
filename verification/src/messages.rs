use vstd::prelude::*;

verus! {

/// The fixed fatal message printed when a command other than `init` runs
/// without a configuration file.
pub open spec fn config_missing_message_spec() -> Seq<char> {
    "Error: unable to read config file. Please initialize the irgsh-cli first. See --help for further information."@
}

/// The fixed fatal message printed when the configuration file exists but
/// cannot be parsed into a configuration record.
pub open spec fn config_corrupt_message_spec() -> Seq<char> {
    "Error: the config file exists but could not be parsed. Run init again to rewrite it."@
}

/// The usage hint printed when no subcommand is given.
pub open spec fn usage_message_spec() -> Seq<char> {
    "\nPlease run by a subcommand. See --help for further information."@
}

/// The confirmation line printed after `init` writes the configuration.
pub open spec fn init_success_message_spec(chief_url: Seq<char>) -> Seq<char> {
    "Successfully sets the chief address to "@ + chief_url
        + ". Now you can use irgsh-cli. Happy Hacking"@
}

/// The line printed by the `status` stub: the supplied pipeline identifier,
/// echoed verbatim.
pub open spec fn status_message_spec(pipeline_id: Seq<char>) -> Seq<char> {
    "Status of PipelineID: "@ + pipeline_id
}

/// The line printed by the `watch` stub: the supplied pipeline identifier,
/// echoed verbatim.
pub open spec fn watch_message_spec(pipeline_id: Seq<char>) -> Seq<char> {
    "Watching PipelineID: "@ + pipeline_id
}

/// The diagnostic printed when the transport call of `submit` fails.
pub open spec fn transport_error_message_spec(detail: Seq<char>) -> Seq<char> {
    "Error: the submit request failed: "@ + detail
}

/// Builds the fatal message for a missing configuration file.
pub fn config_missing_message() -> (r: String)
    ensures
        r@ == config_missing_message_spec(),
{
    "Error: unable to read config file. Please initialize the irgsh-cli first. See --help for further information.".to_owned()
}

/// Builds the fatal message for an unparsable configuration file.
pub fn config_corrupt_message() -> (r: String)
    ensures
        r@ == config_corrupt_message_spec(),
{
    "Error: the config file exists but could not be parsed. Run init again to rewrite it.".to_owned()
}

/// Builds the usage hint.
pub fn usage_message() -> (r: String)
    ensures
        r@ == usage_message_spec(),
{
    "\nPlease run by a subcommand. See --help for further information.".to_owned()
}

/// Builds the confirmation line for a successful `init`.
pub fn init_success_message(chief_url: &str) -> (r: String)
    ensures
        r@ == init_success_message_spec(chief_url@),
{
    let mut r = "Successfully sets the chief address to ".to_owned();
    r.append(chief_url);
    r.append(". Now you can use irgsh-cli. Happy Hacking");
    r
}

/// Builds the `status` stub line for a pipeline identifier.
pub fn status_message(pipeline_id: &str) -> (r: String)
    ensures
        r@ == status_message_spec(pipeline_id@),
{
    let mut r = "Status of PipelineID: ".to_owned();
    r.append(pipeline_id);
    r
}

/// Builds the `watch` stub line for a pipeline identifier.
pub fn watch_message(pipeline_id: &str) -> (r: String)
    ensures
        r@ == watch_message_spec(pipeline_id@),
{
    let mut r = "Watching PipelineID: ".to_owned();
    r.append(pipeline_id);
    r
}

/// Builds the diagnostic for a failed submit transport call.
pub fn transport_error_message(detail: &str) -> (r: String)
    ensures
        r@ == transport_error_message_spec(detail@),
{
    let mut r = "Error: the submit request failed: ".to_owned();
    r.append(detail);
    r
}

} // verus!
