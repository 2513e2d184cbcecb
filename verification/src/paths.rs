use vstd::prelude::*;

verus! {

/// The configuration directory under a home directory.
pub open spec fn config_dir_of(home: Seq<char>) -> Seq<char> {
    home + "/.irgsh"@
}

/// The configuration file under a home directory: the fixed relative
/// location `.irgsh/irgsh.yaml`.
pub open spec fn config_file_of(home: Seq<char>) -> Seq<char> {
    home + "/.irgsh/irgsh.yaml"@
}

/// The two filesystem locations every command works with: the configuration
/// directory and the configuration file inside it.
pub struct ConfigPaths {
    pub dir: String,
    pub file: String,
}

/// Relies on dirs::home_dir: yields the invoking user's home directory, or
/// None when it cannot be determined or is not valid UTF-8. The result
/// depends on the environment, so nothing more is stated of it.
#[verifier::external_body]
fn home_dir_string() -> (r: Option<String>) {
    match dirs::home_dir() {
        Some(p) => p.into_os_string().into_string().ok(),
        None => None,
    }
}

/// Derives both configuration locations from a given home directory.
pub fn config_paths_for_home(home: &str) -> (r: ConfigPaths)
    ensures
        r.dir@ == config_dir_of(home@),
        r.file@ == config_file_of(home@),
{
    let mut dir = home.to_owned();
    dir.append("/.irgsh");
    let mut file = home.to_owned();
    file.append("/.irgsh/irgsh.yaml");
    ConfigPaths { dir, file }
}

/// Resolves the configuration locations from the environment's home
/// directory. Whatever home directory the environment reports, both returned
/// locations are derived from that one directory; None only when no home
/// directory could be determined.
pub fn resolve_config_paths() -> (r: Option<ConfigPaths>)
    ensures
        r matches Some(p) ==> exists|home: Seq<char>|
            p.dir@ == #[trigger] config_dir_of(home) && p.file@ == config_file_of(home),
{
    match home_dir_string() {
        Some(h) => {
            let paths = config_paths_for_home(h.as_str());
            proof {
                assert(paths.dir@ == config_dir_of(h@) && paths.file@ == config_file_of(h@));
            }
            Some(paths)
        },
        None => None,
    }
}

} // verus!
