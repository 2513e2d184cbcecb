use vstd::prelude::*;

use crate::messages::init_success_message;
use crate::messages::init_success_message_spec;

verus! {

/// The persistent configuration record. A valid record must exist on disk
/// before any command other than `init` may run; `init` alone creates or
/// overwrites it.
pub struct Config {
    /// Base URL of the remote chief service, stored without a trailing slash.
    pub chief_url: String,
    /// Opaque credential associated with the local maintainer.
    pub maintainer_key: String,
    /// Filesystem location of the record itself, derived at runtime.
    pub config_file_path: String,
}

impl Config {
    /// Builds a configuration record holding exactly the supplied fields.
    pub fn new(chief_url: String, maintainer_key: String, config_file_path: String) -> (c: Config)
        ensures
            c.chief_url@ == chief_url@,
            c.maintainer_key@ == maintainer_key@,
            c.config_file_path@ == config_file_path@,
    {
        Config { chief_url, maintainer_key, config_file_path }
    }
}

/// Why loading the configuration record failed: the file is absent, or it is
/// present but cannot be parsed into the expected shape.
pub enum LoadError {
    NotFound,
    Corrupt,
}

/// Classifies the outcome of loading the configuration record. The caller
/// reports whether the file exists and, when it does, what parsing made of
/// it; absence is `NotFound`, an unparsable file is `Corrupt`, and a parsed
/// record is returned unchanged.
pub fn load_outcome(file_exists: bool, parsed: Option<Config>) -> (r: Result<Config, LoadError>)
    ensures
        !file_exists ==> (r matches Err(e) && e is NotFound),
        file_exists && parsed is None ==> (r matches Err(e) && e is Corrupt),
        file_exists ==> (parsed matches Some(c) ==> (r matches Ok(loaded) && loaded == c)),
{
    if !file_exists {
        Err(LoadError::NotFound)
    } else {
        match parsed {
            Some(c) => Ok(c),
            None => Err(LoadError::Corrupt),
        }
    }
}

/// What one `init` invocation decides to do.
pub enum InitOutcome {
    /// Write this record and print this confirmation; the process then exits
    /// with code 0.
    Written { config: Config, message: String },
    /// A record already exists and the user declined to overwrite it: no
    /// write happens and the process exits with code 0.
    Declined,
}

/// Decides one `init` invocation. A fresh home directory (no existing
/// record) is always written; an existing record is overwritten only when
/// the user confirmed, and a declined confirmation leaves the existing file
/// untouched. Whatever is written holds exactly the supplied fields.
pub fn init_outcome(new: Config, already_exists: bool, overwrite_confirmed: bool) -> (r:
    InitOutcome)
    ensures
        (already_exists && !overwrite_confirmed) <==> r is Declined,
        r matches InitOutcome::Written { config, message } ==> {
            &&& config.chief_url@ == new.chief_url@
            &&& config.maintainer_key@ == new.maintainer_key@
            &&& config.config_file_path@ == new.config_file_path@
            &&& message@ == init_success_message_spec(new.chief_url@)
        },
{
    if already_exists && !overwrite_confirmed {
        InitOutcome::Declined
    } else {
        let message = init_success_message(new.chief_url.as_str());
        InitOutcome::Written { config: new, message }
    }
}

} // verus!
