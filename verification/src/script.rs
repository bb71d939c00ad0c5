//! The startup script and the paths it lives at.
//!
//! The registrar installs a launcher script in the user's startup folder.
//! Its location below the application-data root and its exact content are
//! fixed here, so that the registrar's decisions can be stated against them.

use vstd::prelude::*;

verus! {

/// The file name of the startup script.
pub open spec fn script_file_name_spec() -> Seq<char> {
    "AcknowledgementAppStartup.cmd"@
}

/// The file name of the startup script.
pub fn script_file_name() -> (r: &'static str)
    ensures
        r@ == script_file_name_spec(),
{
    "AcknowledgementAppStartup.cmd"
}

/// The startup folder below the application-data root, joined with the
/// given path separator.
pub open spec fn startup_dir_spec(appdata: Seq<char>, sep: Seq<char>) -> Seq<char> {
    appdata + sep + "Microsoft"@ + sep + "Windows"@ + sep + "Start Menu"@ + sep + "Programs"@
        + sep + "Startup"@
}

/// The startup folder below the application-data root.
pub fn startup_dir_path(appdata: &str, sep: &str) -> (r: String)
    ensures
        r@ == startup_dir_spec(appdata@, sep@),
{
    let mut s = String::from_str(appdata);
    s.append(sep);
    s.append("Microsoft");
    s.append(sep);
    s.append("Windows");
    s.append(sep);
    s.append("Start Menu");
    s.append(sep);
    s.append("Programs");
    s.append(sep);
    s.append("Startup");
    proof {
        assert(s@ =~= startup_dir_spec(appdata@, sep@));
    }
    s
}

/// The full path of the startup script inside the given startup folder.
pub open spec fn script_path_spec(startup_dir: Seq<char>, sep: Seq<char>) -> Seq<char> {
    startup_dir + sep + script_file_name_spec()
}

/// The full path of the startup script inside the given startup folder.
pub fn script_path(startup_dir: &str, sep: &str) -> (r: String)
    ensures
        r@ == script_path_spec(startup_dir@, sep@),
{
    let mut s = String::from_str(startup_dir);
    s.append(sep);
    s.append(script_file_name());
    proof {
        assert(s@ =~= script_path_spec(startup_dir@, sep@));
    }
    s
}

/// The exact content of the startup script: a launcher line with the
/// executable path substituted verbatim and wrapped in quotes.
pub open spec fn script_content_spec(exe_path: Seq<char>) -> Seq<char> {
    "@echo off\r\nstart \"\" \""@ + exe_path + "\"\r\n"@
}

/// The content of the startup script for the given executable path.
pub fn script_content(exe_path: &str) -> (r: String)
    ensures
        r@ == script_content_spec(exe_path@),
{
    let mut s = String::from_str("@echo off\r\nstart \"\" \"");
    s.append(exe_path);
    s.append("\"\r\n");
    proof {
        assert(s@ =~= script_content_spec(exe_path@));
    }
    s
}

} // verus!
