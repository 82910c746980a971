//! Default location of the Chrome user-data directory, per host OS.
//!
//! The computation is a pure function of three plain inputs: the host
//! operating system, the home directory taken from the environment
//! (`USERPROFILE` on Windows, `HOME` elsewhere), and whether the candidate
//! directory exists on disk. The caller reads the environment and probes the
//! filesystem; this module only builds and chooses the strings.

use vstd::prelude::*;
use vstd::string::StringExecFns;

verus! {

/// The host operating systems with a dedicated default Chrome profile
/// location; anything else falls under `Other`.
#[derive(Clone, Copy, PartialEq, Eq, Structural, Debug)]
pub enum HostOs {
    Windows,
    MacOs,
    Linux,
    Other,
}

/// Path under the home directory where Windows keeps Chrome user data.
pub open spec fn windows_profile_suffix() -> Seq<char> {
    "\\AppData\\Local\\Google\\Chrome\\User Data"@
}

/// Path under the home directory where macOS keeps Chrome user data.
pub open spec fn macos_profile_suffix() -> Seq<char> {
    "/Library/Application Support/Google/Chrome"@
}

/// Path under the home directory where Linux keeps Chrome user data.
pub open spec fn linux_profile_suffix() -> Seq<char> {
    "/.config/google-chrome"@
}

/// The profile directory to probe on disk: home directory plus the
/// OS-specific suffix, or nothing when the home directory is unknown or the
/// OS has no known location.
pub open spec fn spec_candidate_profile_path(os: HostOs, home: Option<Seq<char>>) -> Option<
    Seq<char>,
> {
    match (os, home) {
        (HostOs::Windows, Some(h)) => Some(h + windows_profile_suffix()),
        (HostOs::MacOs, Some(h)) => Some(h + macos_profile_suffix()),
        (HostOs::Linux, Some(h)) => Some(h + linux_profile_suffix()),
        _ => None,
    }
}

/// Builds the candidate profile path for `os` under `home`.
pub fn candidate_profile_path(os: HostOs, home: &Option<String>) -> (r: Option<String>)
    ensures
        r.deep_view() == spec_candidate_profile_path(os, home.deep_view()),
{
    match home {
        None => None,
        Some(h) => {
            let mut p: String = h.clone();
            match os {
                HostOs::Windows => p.append("\\AppData\\Local\\Google\\Chrome\\User Data"),
                HostOs::MacOs => p.append("/Library/Application Support/Google/Chrome"),
                HostOs::Linux => p.append("/.config/google-chrome"),
                HostOs::Other => {
                    return None;
                },
            }
            Some(p)
        },
    }
}

/// The fixed string shown when the candidate directory cannot be found.
pub open spec fn spec_fallback_profile_path(os: HostOs) -> Option<Seq<char>> {
    match os {
        HostOs::Windows => Some("C:\\Users\\YourUsername\\AppData\\Local\\Google\\Chrome\\User Data"@),
        HostOs::MacOs => Some("~/Library/Application Support/Google/Chrome"@),
        HostOs::Linux => Some("~/.config/google-chrome"@),
        HostOs::Other => None,
    }
}

/// Returns the fixed fallback location for `os`.
pub fn fallback_profile_path(os: HostOs) -> (r: Option<String>)
    ensures
        r.deep_view() == spec_fallback_profile_path(os),
{
    match os {
        HostOs::Windows => Some(
            String::from_str("C:\\Users\\YourUsername\\AppData\\Local\\Google\\Chrome\\User Data"),
        ),
        HostOs::MacOs => Some(String::from_str("~/Library/Application Support/Google/Chrome")),
        HostOs::Linux => Some(String::from_str("~/.config/google-chrome")),
        HostOs::Other => None,
    }
}

/// The path the settings page shows: the candidate when it exists on disk,
/// otherwise the fixed fallback for the OS.
pub open spec fn spec_default_profile_path(
    os: HostOs,
    home: Option<Seq<char>>,
    candidate_exists: bool,
) -> Option<Seq<char>> {
    if candidate_exists && spec_candidate_profile_path(os, home) is Some {
        spec_candidate_profile_path(os, home)
    } else {
        spec_fallback_profile_path(os)
    }
}

/// Chooses the path to display. `candidate_exists` says whether the
/// directory built by `candidate_profile_path` is present on disk.
pub fn default_profile_path(os: HostOs, home: &Option<String>, candidate_exists: bool) -> (r:
    Option<String>)
    ensures
        r.deep_view() == spec_default_profile_path(os, home.deep_view(), candidate_exists),
{
    let c = candidate_profile_path(os, home);
    if candidate_exists && c.is_some() {
        c
    } else {
        fallback_profile_path(os)
    }
}

/// Law: the displayed default path is a function of the host OS, the home
/// directory value, and whether the candidate directory exists; equal inputs
/// always give equal results.
pub proof fn lemma_default_path_deterministic(
    os: HostOs,
    home: Option<Seq<char>>,
    candidate_exists: bool,
    r1: Option<Seq<char>>,
    r2: Option<Seq<char>>,
)
    requires
        r1 == spec_default_profile_path(os, home, candidate_exists),
        r2 == spec_default_profile_path(os, home, candidate_exists),
    ensures
        r1 == r2,
{
}

} // verus!
