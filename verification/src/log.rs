//! Where the plugin writes its logs.
//!
//! Logs go to `$HOME/.local/share/nvim/nomad/logs`, in files named
//! `nomad.log.<date>` that roll over daily.

use vstd::prelude::*;

verus! {

/// The prefix of the name of every log file.
pub const LOG_FILE_NAME: &'static str = "nomad.log";

/// The path `base` joined with the relative `component`, as on Unix: a
/// separator goes between them unless `base` is empty or already ends with
/// one.
pub open spec fn spec_join(base: Seq<char>, component: Seq<char>) -> Seq<char> {
    if base.len() == 0 || base.last() == '/' {
        base + component
    } else {
        base + seq!['/'] + component
    }
}

/// `base` joined with the relative `component`.
pub fn join(base: &str, component: &str) -> (path: String)
    ensures
        path@ == spec_join(base@, component@),
{
    let n = base.unicode_len();
    let mut path = String::from_str(base);
    if n > 0 && base.get_char(n - 1) != '/' {
        let sep = "/";
        proof {
            reveal_strlit("/");
        }
        path.append(sep);
    }
    path.append(component);
    path
}

/// The directory where local data lives: `<home>/.local/share`.
pub open spec fn spec_data_local_dir(home: Seq<char>) -> Seq<char> {
    spec_join(spec_join(home, ".local"@), "share"@)
}

/// Neovim's data directory: `<home>/.local/share/nvim`.
pub open spec fn spec_nvim_data_dir(home: Seq<char>) -> Seq<char> {
    spec_join(spec_data_local_dir(home), "nvim"@)
}

/// The plugin's log directory: `<home>/.local/share/nvim/nomad/logs`.
pub open spec fn spec_log_dir(home: Seq<char>) -> Seq<char> {
    spec_join(spec_join(spec_nvim_data_dir(home), "nomad"@), "logs"@)
}

/// The directory where local data lives, under the home directory `home`.
/// An empty home directory is an error that the precondition rules out.
pub fn data_local_dir(home: &str) -> (dir: String)
    requires
        home@.len() > 0,
    ensures
        dir@ == spec_data_local_dir(home@),
{
    let local = join(home, ".local");
    join(local.as_str(), "share")
}

/// Neovim's data directory, under the home directory `home`.
pub fn nvim_data_dir(home: &str) -> (dir: String)
    requires
        home@.len() > 0,
    ensures
        dir@ == spec_nvim_data_dir(home@),
{
    let data = data_local_dir(home);
    join(data.as_str(), "nvim")
}

/// The plugin's log directory, under the home directory `home`.
pub fn log_dir(home: &str) -> (dir: String)
    requires
        home@.len() > 0,
    ensures
        dir@ == spec_log_dir(home@),
{
    let nvim = nvim_data_dir(home);
    let nomad = join(nvim.as_str(), "nomad");
    join(nomad.as_str(), "logs")
}

} // verus!
