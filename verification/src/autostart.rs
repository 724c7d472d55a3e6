//! Registration for start at login, as command lines for the Windows
//! registry tool.
//!
//! Running the tool is up to the caller, and so is knowing whether the
//! platform has it. This module says which arguments it takes and what the
//! caller reports afterwards.

use vstd::prelude::*;
use vstd::string::*;

verus! {

/// The registry tool.
pub const REGISTRY_TOOL: &'static str = "reg";

/// Registry key of the programs started at login.
pub const RUN_KEY: &'static str = "HKCU\\Software\\Microsoft\\Windows\\CurrentVersion\\Run";

/// Name of this program's value under [`RUN_KEY`].
pub const RUN_VALUE: &'static str = "MullvadConnectionStatus";

/// Confirmation after registering.
pub const AUTOSTART_ENABLED: &'static str = "Auto-start enabled";

/// Confirmation after unregistering.
pub const AUTOSTART_DISABLED: &'static str = "Auto-start disabled";

/// Failure reported where the registry tool does not exist.
pub const AUTOSTART_UNSUPPORTED: &'static str = "Auto-start only supported on Windows";

/// The texts of `arguments`.
pub open spec fn texts(arguments: Seq<String>) -> Seq<Seq<char>> {
    arguments.map_values(|argument: String| argument@)
}

/// `path` between double quotes.
pub open spec fn quoted(path: Seq<char>) -> Seq<char> {
    seq!['"'] + path + seq!['"']
}

/// Arguments that register the program at `exe_path`.
pub open spec fn enable_arguments(exe_path: Seq<char>) -> Seq<Seq<char>> {
    seq![
        "add"@,
        RUN_KEY@,
        "/v"@,
        RUN_VALUE@,
        "/t"@,
        "REG_SZ"@,
        "/d"@,
        quoted(exe_path),
        "/f"@,
    ]
}

/// Arguments that remove the registration.
pub open spec fn disable_arguments() -> Seq<Seq<char>> {
    seq!["delete"@, RUN_KEY@, "/v"@, RUN_VALUE@, "/f"@]
}

/// Arguments that ask whether the program is registered.
pub open spec fn query_arguments() -> Seq<Seq<char>> {
    seq!["query"@, RUN_KEY@, "/v"@, RUN_VALUE@]
}

/// The arguments of a switch of the registration.
pub open spec fn toggle_arguments(enable: bool, exe_path: Seq<char>) -> Seq<Seq<char>> {
    if enable {
        enable_arguments(exe_path)
    } else {
        disable_arguments()
    }
}

/// Puts `path` between double quotes.
pub fn quote(path: &str) -> (text: String)
    ensures
        text@ == quoted(path@),
{
    proof {
        reveal_strlit("\"");
    }
    let mut text = String::from_str("\"");
    text.append(path);
    text.append("\"");
    assert(text@ =~= quoted(path@));
    text
}

/// Arguments for [`REGISTRY_TOOL`] that switch the start at login on or off.
///
/// Switching on registers `exe_path`, quoted, and overwrites an earlier
/// registration. Switching off does not need the path.
pub fn toggle_autostart(enable: bool, exe_path: &str) -> (arguments: Vec<String>)
    ensures
        texts(arguments@) == toggle_arguments(enable, exe_path@),
{
    let mut arguments: Vec<String> = Vec::new();
    if enable {
        arguments.push(String::from_str("add"));
        arguments.push(String::from_str(RUN_KEY));
        arguments.push(String::from_str("/v"));
        arguments.push(String::from_str(RUN_VALUE));
        arguments.push(String::from_str("/t"));
        arguments.push(String::from_str("REG_SZ"));
        arguments.push(String::from_str("/d"));
        arguments.push(quote(exe_path));
        arguments.push(String::from_str("/f"));
        assert(texts(arguments@) =~= enable_arguments(exe_path@));
    } else {
        arguments.push(String::from_str("delete"));
        arguments.push(String::from_str(RUN_KEY));
        arguments.push(String::from_str("/v"));
        arguments.push(String::from_str(RUN_VALUE));
        arguments.push(String::from_str("/f"));
        assert(texts(arguments@) =~= disable_arguments());
    }
    arguments
}

/// What the caller reports after the switch has run.
pub fn toggle_confirmation(enable: bool) -> (text: String)
    ensures
        text@ == (if enable {
            AUTOSTART_ENABLED@
        } else {
            AUTOSTART_DISABLED@
        }),
{
    if enable {
        String::from_str(AUTOSTART_ENABLED)
    } else {
        String::from_str(AUTOSTART_DISABLED)
    }
}

/// Arguments for [`REGISTRY_TOOL`] that ask whether the program is
/// registered; the tool succeeds if and only if it is.
pub fn check_autostart() -> (arguments: Vec<String>)
    ensures
        texts(arguments@) == query_arguments(),
{
    let mut arguments: Vec<String> = Vec::new();
    arguments.push(String::from_str("query"));
    arguments.push(String::from_str(RUN_KEY));
    arguments.push(String::from_str("/v"));
    arguments.push(String::from_str(RUN_VALUE));
    assert(texts(arguments@) =~= query_arguments());
    arguments
}

} // verus!
