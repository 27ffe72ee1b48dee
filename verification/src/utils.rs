//! Small helpers shared by the other modules.

use vstd::prelude::*;
use vstd::string::*;

verus! {

/// The platforms that differ in where the configuration lies.
#[derive(Clone, Copy, Debug, PartialEq, Eq, Structural)]
pub enum Platform {
    Linux,
    Windows,
}

/// Namespace for helpers that do not belong to any one component.
pub struct Utils;

impl Utils {
    /// The configuration directory below the home directory `home`:
    /// `home/.config/fercord` on Linux, `home\fercord` on Windows.
    pub open spec fn config_dir_path(home: Seq<char>, platform: Platform) -> Seq<char> {
        match platform {
            Platform::Linux => home + "/.config/fercord"@,
            Platform::Windows => home + "\\fercord"@,
        }
    }

    /// Returns the path of the configuration directory that belongs to the
    /// home directory `home`.
    pub fn get_config_dir_path(home: &str, platform: Platform) -> (path: String)
        ensures
            path@ == Self::config_dir_path(home@, platform),
    {
        let mut path = String::from_str(home);
        match platform {
            Platform::Linux => path.append("/.config/fercord"),
            Platform::Windows => path.append("\\fercord"),
        }
        path
    }
}

} // verus!
