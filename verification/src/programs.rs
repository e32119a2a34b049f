//! Programs installed on the machine, as the uninstall keys of the registry
//! list them, and the scripts that query and uninstall them.
use vstd::prelude::*;
use crate::text::{owned, push_str, debug_str, debug_quoted};

verus! {

/// Struct for generic installed programs
pub struct InstalledProgram {
    pub display_name: Option<String>,
    pub display_version: Option<String>,
    pub publisher: Option<String>,
    pub uninstall_string: Option<String>,
    pub install_location: Option<String>,
    pub install_date: Option<String>,
    pub ps_path: Option<String>,
}

/// The script that lists the installed programs of the machine and of the
/// user as JSON.
pub const QUERY_PROGRAMS: &'static str = "\n            $programs = @()\n\n            # Query installed programs from both HKLM and HKCU\n            $paths = @(\n                \"HKLM:\\SOFTWARE\\Microsoft\\Windows\\CurrentVersion\\Uninstall\\*\",\n                \"HKCU:\\Software\\Microsoft\\Windows\\CurrentVersion\\Uninstall\\*\"\n            )\n\n            foreach ($path in $paths) {\n                if (Test-Path $path) {\n                    $programs += Get-ItemProperty -Path $path |\n                        Select-Object DisplayName, DisplayVersion, Publisher, UninstallString, InstallLocation, InstallDate, PSPath\n                }\n            }\n\n            # Convert to JSON and return\n            $programs | ConvertTo-Json\n        ";

/// The opening of the query for one program, before its name.
pub const BY_NAME_HEAD: &'static str = "\n            Get-ItemProperty -Path \"HKLM:\\SOFTWARE\\Microsoft\\Windows\\CurrentVersion\\Uninstall\\*\" |\n            Where-Object { ($_.DisplayName -match \"";

/// What comes between the two mentions of the name in the query.
pub const BY_NAME_MID: &'static str = "\" -or $_.Publisher -match \"";

/// The rest of the query for one program.
pub const BY_NAME_TAIL: &'static str = "\") } |\n            Select-Object DisplayName, DisplayVersion, Publisher, UninstallString, InstallLocation, InstallDate, PSPath |\n            ConvertTo-Json\n            ";

/// The query for the installed programs whose name or publisher matches `name`.
pub open spec fn by_name_text(name: Seq<char>) -> Seq<char> {
    BY_NAME_HEAD@ + name + BY_NAME_MID@ + name + BY_NAME_TAIL@
}

/// How a program is uninstalled, or why it cannot be.
pub open spec fn uninstall_plan(uninstall_string: Option<Seq<char>>, display_name: Option<Seq<char>>)
    -> Result<Seq<char>, Seq<char>>
{
    match (uninstall_string, display_name) {
        (Some(command), Some(_)) => Ok("& "@ + command + " /verysilent /suppressmsgboxes /norestart"@),
        _ => Err("No uninstall string found for program: "@ + match display_name {
            Some(n) => "Some("@ + debug_quoted(n) + ")"@,
            None => "None"@,
        }),
    }
}

impl InstalledProgram {
    /// The script that looks a program up by name or publisher.
    pub fn get_by_name_script(program_name: &str) -> (s: String)
        ensures
            s@ == by_name_text(program_name@),
    {
        let mut s = owned(BY_NAME_HEAD);
        push_str(&mut s, program_name);
        push_str(&mut s, BY_NAME_MID);
        push_str(&mut s, program_name);
        push_str(&mut s, BY_NAME_TAIL);
        s
    }

    /// The script that uninstalls this program silently (the switches of
    /// Inno Setup installers), or the error when its uninstall command or
    /// name is unknown.
    pub fn uninstall_script(&self) -> (r: Result<String, String>)
        ensures
            match (r, uninstall_plan(crate::task_scheduler::opt_view(self.uninstall_string),
                crate::task_scheduler::opt_view(self.display_name))) {
                (Ok(s), Ok(t)) => s@ == t,
                (Err(e), Err(f)) => e@ == f,
                _ => false,
            },
    {
        match (&self.uninstall_string, &self.display_name) {
            (Some(command), Some(_)) => {
                let mut s = owned("& ");
                push_str(&mut s, command.as_str());
                push_str(&mut s, " /verysilent /suppressmsgboxes /norestart");
                Ok(s)
            },
            _ => {
                let mut e = owned("No uninstall string found for program: ");
                match &self.display_name {
                    Some(n) => {
                        push_str(&mut e, "Some(");
                        let q = debug_str(n.as_str());
                        push_str(&mut e, q.as_str());
                        push_str(&mut e, ")");
                    },
                    None => push_str(&mut e, "None"),
                }
                Err(e)
            },
        }
    }

    /// The error after the uninstall script of the program `display_name` failed.
    pub fn uninstall_error(display_name: &str, stderr: &str) -> (s: String)
        ensures
            s@ == "Failed to uninstall "@ + debug_quoted(display_name@) + ": "@ + stderr@,
    {
        let mut s = owned("Failed to uninstall ");
        let q = debug_str(display_name);
        push_str(&mut s, q.as_str());
        push_str(&mut s, ": ");
        push_str(&mut s, stderr);
        s
    }
}

/// The error after the listing of installed programs failed.
pub fn programs_query_error(stderr: &str) -> (s: String)
    ensures
        s@ == "Failed to retrieve installed programs: "@ + stderr@,
{
    let mut s = owned("Failed to retrieve installed programs: ");
    push_str(&mut s, stderr);
    s
}

/// The error after the query for one program failed.
pub fn program_lookup_error(stderr: &str) -> (s: String)
    ensures
        s@ == "Failed to query installed programs: "@ + stderr@,
{
    let mut s = owned("Failed to query installed programs: ");
    push_str(&mut s, stderr);
    s
}

} // verus!
