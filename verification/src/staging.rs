//! Staging: the clipboard model and the per-platform paste keystroke.
//!
//! The pipeline stages a resolved command by overwriting the OS clipboard and
//! then synthesizing a paste keystroke. The clipboard here is a single slot
//! with no history; the paste keystroke is one platform-specific shell
//! script, chosen once per process from a closed set of supported platforms.
//! Launching the script and writing the real OS clipboard are process and
//! device work the caller performs; this module decides what is written and
//! what is launched.

use vstd::prelude::*;
use vstd::string::StringExecFns;
use crate::extract::spec_opt_text;

verus! {

/// The platforms a paste keystroke can be synthesized on. On any other
/// platform no strategy exists and startup must fail, never silently no-op.
#[derive(Clone, Copy, Debug, PartialEq, Eq, Structural)]
pub enum Platform {
    MacOs,
    Linux,
    Windows,
}

/// The platform a host OS name selects: exactly `macos`, `linux` or
/// `windows`, and nothing for any other name.
pub open spec fn spec_platform_for(os_name: Seq<char>) -> Option<Platform> {
    if os_name == "macos"@ {
        Some(Platform::MacOs)
    } else if os_name == "linux"@ {
        Some(Platform::Linux)
    } else if os_name == "windows"@ {
        Some(Platform::Windows)
    } else {
        None
    }
}

/// Selects the paste strategy for a host OS name, as the platform names of
/// the Rust target vocabulary spell it. Yields nothing on an unsupported
/// platform, so the caller must fail at startup rather than continue.
pub fn parse_platform(os_name: &str) -> (r: Option<Platform>)
    ensures
        r == spec_platform_for(os_name@),
{
    let name = os_name.to_owned();
    if name == String::from_str("macos") {
        Some(Platform::MacOs)
    } else if name == String::from_str("linux") {
        Some(Platform::Linux)
    } else if name == String::from_str("windows") {
        Some(Platform::Windows)
    } else {
        None
    }
}

/// The shell script that synthesizes a paste keystroke on each platform,
/// after a short delay that lets window focus settle.
pub fn paste_script(platform: &Platform) -> (s: String)
    ensures
        platform is MacOs ==> s@
            == "\n    osascript -e 'delay 0' -e 'tell application \"System Events\" to keystroke \"v\" using command down'\n    "@,
        platform is Linux ==> s@ == "\n    xdotool key --delay 1000 ctrl+v\n    "@,
        platform is Windows ==> s@
            == "\n    powershell -command \"Start-Sleep -Seconds 1; Add-Type -AssemblyName System.Windows.Forms; [System.Windows.Forms.SendKeys]::SendWait('^v')\"\n    "@,
{
    match platform {
        Platform::MacOs => String::from_str(
            "\n    osascript -e 'delay 0' -e 'tell application \"System Events\" to keystroke \"v\" using command down'\n    ",
        ),
        Platform::Linux => String::from_str("\n    xdotool key --delay 1000 ctrl+v\n    "),
        Platform::Windows => String::from_str(
            "\n    powershell -command \"Start-Sleep -Seconds 1; Add-Type -AssemblyName System.Windows.Forms; [System.Windows.Forms.SendKeys]::SendWait('^v')\"\n    ",
        ),
    }
}

/// What the clipboard holds after a command is staged: exactly that command,
/// whatever stood there before. The clipboard keeps no history.
pub open spec fn spec_staged(prev: Option<Seq<char>>, command: Seq<char>) -> Option<Seq<char>> {
    Some(command)
}

/// The single-slot clipboard a staged command lands in. `contents` is what
/// the slot holds, `None` before anything was staged in this run; the
/// previous OS content is not preserved and cannot be read back.
pub struct Clipboard {
    pub contents: Option<String>,
}

impl Clipboard {
    /// The clipboard as an invocation first sees it: nothing staged yet.
    pub fn fresh() -> (c: Clipboard)
        ensures
            c.contents is None,
    {
        Clipboard { contents: None }
    }

    /// Stages a command: the slot then holds exactly that text. No undo; the
    /// old content is gone.
    pub fn stage(&mut self, command: &str)
        ensures
            spec_opt_text(final(self).contents) == spec_staged(
                spec_opt_text(old(self).contents),
                command@,
            ),
    {
        self.contents = Some(command.to_owned());
    }
}

/// Law: staging keeps no history. After a command is staged twice in
/// succession — or after any two commands are staged in turn — the clipboard
/// holds the second value only.
pub proof fn lemma_stage_no_history(prev: Option<Seq<char>>, first: Seq<char>, second: Seq<char>)
    ensures
        spec_staged(spec_staged(prev, first), second) == Some(second),
{
}

} // verus!
