//! What the command line asks for.

use std::path::PathBuf;
use vstd::prelude::*;

verus! {

/// The name of the theme file that is used unless another one is named.
pub const DEFAULT_THEME: &'static str = "theme.ron";

/// The settings that the command line gives.
pub struct CliArgs {
    pub theme: PathBuf,
    pub cwd: PathBuf,
}

/// The theme file to look for: the one that the command line names, or the
/// default one if it names none.
pub fn theme_name(named: Option<String>) -> (name: String)
    ensures
        name@ == match named {
            Some(given) => given@,
            None => DEFAULT_THEME@,
        },
{
    match named {
        Some(given) => given,
        None => String::from_str(DEFAULT_THEME),
    }
}

/// The theme file to use: the one looked for if it is there, else the
/// default one.
pub fn theme_choice(wanted: String, wanted_is_file: bool) -> (name: String)
    ensures
        name@ == if wanted_is_file {
            wanted@
        } else {
            DEFAULT_THEME@
        },
{
    if wanted_is_file {
        wanted
    } else {
        String::from_str(DEFAULT_THEME)
    }
}

} // verus!
