//! The commands the console runs to reboot, shut down, lock or log off the
//! machine and to kill a process, on each system it runs on.
use vstd::prelude::*;
use crate::text::{owned, push_str, push_decimal, decimal};

verus! {

/// The system the console runs on.
#[derive(PartialEq, Eq, Structural, Clone, Copy, Debug)]
pub enum Platform {
    Windows,
    Linux,
    MacOs,
}

/// What the technician asked of the machine.
#[derive(PartialEq, Eq, Structural, Clone, Copy, Debug)]
pub enum PowerAction {
    Reboot,
    Shutdown,
    Lock,
    LogOff,
    /// Kill the process with this id.
    Kill(u32),
}

/// The program run for `action` on `platform`, and its arguments; `user` is
/// the signed-in user, whose session a log-off ends outside Windows.
pub open spec fn power_command_text(action: PowerAction, platform: Platform, user: Seq<char>) -> (Seq<char>, Seq<Seq<char>>) {
    match action {
        PowerAction::Reboot => if platform == Platform::Windows {
            ("shutdown"@, seq!["/r"@, "/t"@, "5"@, "/c"@, "Mastertech remote reboot requested"@])
        } else {
            ("sudo"@, seq!["shutdown"@, "-r"@, "+1"@])
        },
        PowerAction::Shutdown => if platform == Platform::Windows {
            ("shutdown"@, seq!["/s"@, "/t"@, "5"@, "/c"@, "Mastertech remote shutdown"@])
        } else {
            ("sudo"@, seq!["shutdown"@, "-h"@, "+1"@])
        },
        PowerAction::Lock => match platform {
            Platform::Windows => ("rundll32.exe"@, seq!["user32.dll,LockWorkStation"@]),
            Platform::Linux => ("loginctl"@, seq!["lock-session"@]),
            Platform::MacOs => ("pmset"@, seq!["displaysleepnow"@]),
        },
        PowerAction::LogOff => if platform == Platform::Windows {
            ("shutdown"@, seq!["/l"@])
        } else {
            ("pkill"@, seq!["-KILL"@, "-u"@, user])
        },
        PowerAction::Kill(pid) => if platform == Platform::Windows {
            ("taskkill"@, seq!["/F"@, "/PID"@, decimal(pid as nat)])
        } else {
            ("kill"@, seq!["-9"@, decimal(pid as nat)])
        },
    }
}

/// The views of some strings.
pub open spec fn texts(v: Seq<String>) -> Seq<Seq<char>> {
    v.map_values(|s: String| s@)
}

pub(crate) fn strings(items: &[&str]) -> (v: Vec<String>)
    ensures
        texts(v@) == items@.map_values(|s: &str| s@),
{
    let mut v: Vec<String> = Vec::new();
    let mut i: usize = 0;
    while i < items.len()
        invariant
            i <= items@.len(),
            v@.len() == i,
            forall|k: int| 0 <= k < i ==> #[trigger] v@[k]@ == items@[k]@,
        decreases items@.len() - i,
    {
        v.push(owned(items[i]));
        i = i + 1;
    }
    assert(texts(v@) =~= items@.map_values(|s: &str| s@));
    v
}

fn pid_text(pid: u32) -> (s: String)
    ensures
        s@ == decimal(pid as nat),
{
    let mut s = String::new();
    push_decimal(&mut s, pid as u64);
    s
}

/// The program run for `action` on `platform`, and its arguments.
pub fn power_command(action: PowerAction, platform: Platform, user: &str) -> (r: (String, Vec<String>))
    ensures
        (r.0@, texts(r.1@)) == power_command_text(action, platform, user@),
{
    match action {
        PowerAction::Reboot => if platform == Platform::Windows {
            let a = strings(&["/r", "/t", "5", "/c", "Mastertech remote reboot requested"]);
            assert(texts(a@) =~= seq!["/r"@, "/t"@, "5"@, "/c"@, "Mastertech remote reboot requested"@]);
            (owned("shutdown"), a)
        } else {
            let a = strings(&["shutdown", "-r", "+1"]);
            assert(texts(a@) =~= seq!["shutdown"@, "-r"@, "+1"@]);
            (owned("sudo"), a)
        },
        PowerAction::Shutdown => if platform == Platform::Windows {
            let a = strings(&["/s", "/t", "5", "/c", "Mastertech remote shutdown"]);
            assert(texts(a@) =~= seq!["/s"@, "/t"@, "5"@, "/c"@, "Mastertech remote shutdown"@]);
            (owned("shutdown"), a)
        } else {
            let a = strings(&["shutdown", "-h", "+1"]);
            assert(texts(a@) =~= seq!["shutdown"@, "-h"@, "+1"@]);
            (owned("sudo"), a)
        },
        PowerAction::Lock => match platform {
            Platform::Windows => {
                let a = strings(&["user32.dll,LockWorkStation"]);
                assert(texts(a@) =~= seq!["user32.dll,LockWorkStation"@]);
                (owned("rundll32.exe"), a)
            },
            Platform::Linux => {
                let a = strings(&["lock-session"]);
                assert(texts(a@) =~= seq!["lock-session"@]);
                (owned("loginctl"), a)
            },
            Platform::MacOs => {
                let a = strings(&["displaysleepnow"]);
                assert(texts(a@) =~= seq!["displaysleepnow"@]);
                (owned("pmset"), a)
            },
        },
        PowerAction::LogOff => if platform == Platform::Windows {
            let a = strings(&["/l"]);
            assert(texts(a@) =~= seq!["/l"@]);
            (owned("shutdown"), a)
        } else {
            let a = strings(&["-KILL", "-u", user]);
            assert(texts(a@) =~= seq!["-KILL"@, "-u"@, user@]);
            (owned("pkill"), a)
        },
        PowerAction::Kill(pid) => if platform == Platform::Windows {
            let p = pid_text(pid);
            let a = strings(&["/F", "/PID", p.as_str()]);
            assert(texts(a@) =~= seq!["/F"@, "/PID"@, decimal(pid as nat)]);
            (owned("taskkill"), a)
        } else {
            let p = pid_text(pid);
            let a = strings(&["-9", p.as_str()]);
            assert(texts(a@) =~= seq!["-9"@, decimal(pid as nat)]);
            (owned("kill"), a)
        },
    }
}

/// What the scheduled task that restarts the console at the next logon runs:
/// the program, quoted, in terminal mode when asked.
pub open spec fn restart_command_text(exe_path: Seq<char>, terminal_mode: bool) -> Seq<char> {
    "\""@ + exe_path + if terminal_mode { "\" -t"@ } else { "\""@ }
}

/// The arguments of `schtasks` that create the task restarting the console
/// at the next logon, with the highest privileges, replacing any earlier one.
pub open spec fn restart_task_text(exe_path: Seq<char>, terminal_mode: bool) -> Seq<Seq<char>> {
    seq!["/Create"@, "/TN"@, "MastertechAutoRestart"@, "/TR"@, restart_command_text(exe_path, terminal_mode),
        "/SC"@, "ONLOGON"@, "/RL"@, "HIGHEST"@, "/F"@]
}

/// The arguments of `schtasks` for a reboot that keeps the console running.
pub fn restart_task_args(exe_path: &str, terminal_mode: bool) -> (args: Vec<String>)
    ensures
        texts(args@) == restart_task_text(exe_path@, terminal_mode),
{
    let mut command = owned("\"");
    push_str(&mut command, exe_path);
    push_str(&mut command, if terminal_mode { "\" -t" } else { "\"" });
    let args = strings(&["/Create", "/TN", "MastertechAutoRestart", "/TR", command.as_str(), "/SC", "ONLOGON", "/RL",
        "HIGHEST", "/F"]);
    assert(texts(args@) =~= restart_task_text(exe_path@, terminal_mode));
    args
}

/// A reboot restarts and a shutdown halts, never the other way round: on
/// Windows `shutdown` gets `/r` or `/s` first; elsewhere `shutdown` gets
/// `-r` or `-h` under `sudo`. A kill ends the very process asked for, by its
/// id as the last argument, and a log-off elsewhere ends the given user's
/// processes.
pub proof fn lemma_power_actions_do_what_they_say(platform: Platform, user: Seq<char>, pid: u32)
    ensures
        platform == Platform::Windows ==> power_command_text(PowerAction::Reboot, platform, user).0 == "shutdown"@
            && power_command_text(PowerAction::Reboot, platform, user).1[0] == "/r"@,
        platform == Platform::Windows ==> power_command_text(PowerAction::Shutdown, platform, user).0 == "shutdown"@
            && power_command_text(PowerAction::Shutdown, platform, user).1[0] == "/s"@,
        platform != Platform::Windows ==> power_command_text(PowerAction::Reboot, platform, user).1[0] == "shutdown"@
            && power_command_text(PowerAction::Reboot, platform, user).1[1] == "-r"@,
        platform != Platform::Windows ==> power_command_text(PowerAction::Shutdown, platform, user).1[0] == "shutdown"@
            && power_command_text(PowerAction::Shutdown, platform, user).1[1] == "-h"@,
        power_command_text(PowerAction::Reboot, platform, user) != power_command_text(PowerAction::Shutdown, platform, user),
        power_command_text(PowerAction::Kill(pid), platform, user).1.last() == decimal(pid as nat),
        platform != Platform::Windows ==> power_command_text(PowerAction::LogOff, platform, user).1.last() == user,
{
    reveal_strlit("/r");
    reveal_strlit("/s");
    reveal_strlit("-r");
    reveal_strlit("-h");
    let r = power_command_text(PowerAction::Reboot, platform, user);
    let s = power_command_text(PowerAction::Shutdown, platform, user);
    if platform == Platform::Windows {
        assert(r.1[0][1] != s.1[0][1]);
    } else {
        assert(r.1[1][1] != s.1[1][1]);
    }
}

} // verus!
