//! Moving a customer's user profiles to a new machine with robocopy: the
//! folders left out, the command line, and the checks and messages around a
//! run. Starting and watching the process stays with the caller.
use vstd::prelude::*;
use crate::text::{owned, push_str, push_decimal, decimal};

verus! {

/// Folders of a profile robocopy leaves out: junction points and system
/// folders that would loop or fail.
pub open spec fn excluded_dirs() -> Seq<Seq<char>> {
    seq!["Default"@, "Default User"@, "All Users"@, "Application Data"@, "Local Settings"@, "NetHood"@,
        "PrintHood"@, "Recent"@, "SendTo"@, "Start Menu"@, "Templates"@, "Cookies"@, "My Documents"@,
        "My Music"@, "My Pictures"@, "My Videos"@]
}

/// The fixed switches of the copy: everything, subfolders included, data,
/// attributes and times of files and folders, no retries, thirty seconds
/// between them, backup mode, sizes in bytes, no percentages.
pub open spec fn fixed_switches() -> Seq<Seq<char>> {
    seq!["*.*"@, "/S"@, "/E"@, "/COPY:DAT"@, "/DCOPY:DAT"@, "/R:0"@, "/W:30"@, "/ZB"@, "/bytes"@, "/np"@]
}

/// The whole robocopy command line for copying `source` into `backup_folder`,
/// logging to `log_location` with `threads` copy threads.
pub open spec fn robocopy_command(source: Seq<char>, backup_folder: Seq<char>, log_location: Seq<char>, threads: nat)
    -> Seq<Seq<char>>
{
    seq![source, backup_folder] + fixed_switches() + seq!["/LOG:"@ + log_location, "/MT:"@ + decimal(threads), "/XJ"@, "/XD"@]
        + excluded_dirs()
}

fn push_all(args: &mut Vec<String>, items: &[&str])
    ensures
        final(args)@.map_values(|a: String| a@) == old(args)@.map_values(|a: String| a@)
            + items@.map_values(|s: &str| s@),
{
    let ghost start = args@.map_values(|a: String| a@);
    let mut i: usize = 0;
    proof {
        assert(start + items@.subrange(0, 0).map_values(|s: &str| s@) =~= start);
    }
    while i < items.len()
        invariant
            i <= items@.len(),
            start == old(args)@.map_values(|a: String| a@),
            args@.map_values(|a: String| a@) == start + items@.subrange(0, i as int).map_values(|s: &str| s@),
        decreases items@.len() - i,
    {
        let ghost before = args@;
        let item = owned(items[i]);
        assert(item@ == items@[i as int]@);
        args.push(item);
        i = i + 1;
        proof {
            assert(args@ == before.push(item));
            assert(args@.map_values(|a: String| a@) =~= before.map_values(|a: String| a@).push(items@[i - 1]@));
            assert(items@.subrange(0, i as int).map_values(|s: &str| s@)
                =~= items@.subrange(0, i - 1).map_values(|s: &str| s@).push(items@[i - 1]@));
            assert(args@.map_values(|a: String| a@) =~= start + items@.subrange(0, i as int).map_values(|s: &str| s@));
        }
    }
    proof {
        assert(items@.subrange(0, i as int) =~= items@);
    }
}

/// The arguments robocopy is started with; `threads` is the machine's
/// physical core count, or 4 when unknown.
pub fn robocopy_args(source: &str, backup_folder: &str, log_location: &str, threads: Option<u64>) -> (args: Vec<String>)
    ensures
        args@.map_values(|a: String| a@) == robocopy_command(source@, backup_folder@, log_location@,
            match threads { Some(t) => t as nat, None => 4 }),
{
    let mut args: Vec<String> = Vec::new();
    args.push(owned(source));
    args.push(owned(backup_folder));
    proof {
        assert(args@.map_values(|a: String| a@) =~= seq![source@, backup_folder@]);
    }
    let fixed: [&str; 10] = ["*.*", "/S", "/E", "/COPY:DAT", "/DCOPY:DAT", "/R:0", "/W:30", "/ZB", "/bytes", "/np"];
    push_all(&mut args, &fixed);
    let mut log = owned("/LOG:");
    push_str(&mut log, log_location);
    args.push(log);
    let mut mt = owned("/MT:");
    push_decimal(&mut mt, match threads { Some(t) => t, None => 4 });
    args.push(mt);
    args.push(owned("/XJ"));
    args.push(owned("/XD"));
    let ghost head = args@.map_values(|a: String| a@);
    proof {
        assert(fixed@.map_values(|s: &str| s@) =~= fixed_switches());
        assert(head =~= seq![source@, backup_folder@] + fixed_switches() + seq!["/LOG:"@ + log_location@,
            "/MT:"@ + decimal(match threads { Some(t) => t as nat, None => 4 }), "/XJ"@, "/XD"@]);
    }
    let excluded: [&str; 16] = ["Default", "Default User", "All Users", "Application Data", "Local Settings",
        "NetHood", "PrintHood", "Recent", "SendTo", "Start Menu", "Templates", "Cookies", "My Documents",
        "My Music", "My Pictures", "My Videos"];
    push_all(&mut args, &excluded);
    proof {
        assert(excluded@.map_values(|s: &str| s@) =~= excluded_dirs());
        assert(args@.map_values(|a: String| a@) =~= robocopy_command(source@, backup_folder@, log_location@,
            match threads { Some(t) => t as nat, None => 4 }));
    }
    args
}

/// The log file of a run copying the profile `folder_name`, started at `timestamp`.
pub fn robocopy_log_name(folder_name: &str, timestamp: &str) -> (s: String)
    ensures
        s@ == "Robocopy-"@ + folder_name@ + "-"@ + timestamp@ + ".txt"@,
{
    let mut s = owned("Robocopy-");
    push_str(&mut s, folder_name);
    push_str(&mut s, "-");
    push_str(&mut s, timestamp);
    push_str(&mut s, ".txt");
    s
}

/// Why a copy cannot start: only when neither the source nor the destination
/// exists, naming which are missing.
pub fn robocopy_precheck(source_exists: bool, destination_exists: bool) -> (r: Result<(), String>)
    ensures
        match r {
            Ok(()) => source_exists || destination_exists,
            Err(e) => !source_exists && !destination_exists
                && e@ == "Either the source or the destination do not exist: Source: true Dest: true"@,
        },
{
    if !source_exists && !destination_exists {
        Err(owned("Either the source or the destination do not exist: Source: true Dest: true"))
    } else {
        Ok(())
    }
}

/// The log line once a robocopy process has ended.
pub fn transfer_complete_message(pid: u32) -> (s: String)
    ensures
        s@ == "Transfer complete (PID: "@ + decimal(pid as nat) + ")"@,
{
    let mut s = owned("Transfer complete (PID: ");
    push_decimal(&mut s, pid as u64);
    push_str(&mut s, ")");
    s
}

/// The log line as a source folder starts to be copied.
pub fn transfer_start_message(source: &str, destination: &str) -> (s: String)
    ensures
        s@ == "Starting transfer: "@ + source@ + " -> "@ + destination@,
{
    let mut s = owned("Starting transfer: ");
    push_str(&mut s, source);
    push_str(&mut s, " -> ");
    push_str(&mut s, destination);
    s
}

/// The log line once the profiles were found.
pub fn profiles_found_message(count: u64) -> (s: String)
    ensures
        s@ == "Found "@ + decimal(count as nat) + " user profiles"@,
{
    let mut s = owned("Found ");
    push_decimal(&mut s, count);
    push_str(&mut s, " user profiles");
    s
}

/// A robocopy switch that deletes files: from the source once copied
/// (`/MOV`, `/MOVE`), or from the destination when missing at the source
/// (`/PURGE`, `/MIR`).
pub open spec fn deleting_switch(arg: Seq<char>) -> bool {
    arg == "/MOV"@ || arg == "/MOVE"@ || arg == "/PURGE"@ || arg == "/MIR"@
}

/// A profile transfer copies and never deletes: after the source and the
/// destination, its command line holds `/E` (every subfolder, empty ones
/// too) right after `/S`, and no switch that deletes files anywhere.
pub proof fn lemma_transfer_copies_without_deleting(source: Seq<char>, backup_folder: Seq<char>,
    log_location: Seq<char>, threads: nat)
    ensures
        robocopy_command(source, backup_folder, log_location, threads)[0] == source,
        robocopy_command(source, backup_folder, log_location, threads)[1] == backup_folder,
        robocopy_command(source, backup_folder, log_location, threads)[3] == "/S"@,
        robocopy_command(source, backup_folder, log_location, threads)[4] == "/E"@,
        robocopy_command(source, backup_folder, log_location, threads).contains("/E"@),
        forall|i: int| 2 <= i < robocopy_command(source, backup_folder, log_location, threads).len()
            ==> !deleting_switch(#[trigger] robocopy_command(source, backup_folder, log_location, threads)[i]),
{
    let cmd = robocopy_command(source, backup_folder, log_location, threads);
    lemma_deleting_switches_spelled();
    lemma_fixed_switches_keep_files();
    lemma_excluded_dirs_keep_files();
    reveal_strlit("/S");
    reveal_strlit("/E");
    reveal_strlit("/LOG:");
    reveal_strlit("/MT:");
    reveal_strlit("/XJ");
    reveal_strlit("/XD");
    let head = seq![source, backup_folder];
    let tail = seq!["/LOG:"@ + log_location, "/MT:"@ + decimal(threads), "/XJ"@, "/XD"@];
    assert(cmd =~= head + fixed_switches() + tail + excluded_dirs());
    assert(fixed_switches()[1] == "/S"@ && fixed_switches()[2] == "/E"@);
    assert(cmd[3] == fixed_switches()[1]);
    assert(cmd[4] == fixed_switches()[2]);
    assert(cmd.contains("/E"@)) by {
        assert(cmd[4] == "/E"@);
    }
    assert forall|i: int| 2 <= i < cmd.len() implies !deleting_switch(#[trigger] cmd[i]) by {
        if i < 12 {
            assert(cmd[i] == fixed_switches()[i - 2]);
        } else if i == 12 {
            assert(cmd[i] == "/LOG:"@ + log_location);
            assert(cmd[i][1] == 'L');
        } else if i == 13 {
            assert(cmd[i] == "/MT:"@ + decimal(threads));
            assert(cmd[i][1] == 'M' && cmd[i][2] == 'T');
        } else if i == 14 {
            assert(cmd[i] == "/XJ"@);
        } else if i == 15 {
            assert(cmd[i] == "/XD"@);
        } else {
            assert(cmd[i] == excluded_dirs()[i - 16]);
        }
    }
}

/// The deleting switches, letter by letter.
proof fn lemma_deleting_switches_spelled()
    ensures
        "/MOV"@.len() == 4 && "/MOV"@[1] == 'M' && "/MOV"@[2] == 'O',
        "/MOVE"@.len() == 5 && "/MOVE"@[1] == 'M' && "/MOVE"@[2] == 'O',
        "/PURGE"@.len() == 6 && "/PURGE"@[1] == 'P',
        "/MIR"@.len() == 4 && "/MIR"@[1] == 'M' && "/MIR"@[2] == 'I',
{
    reveal_strlit("/MOV");
    reveal_strlit("/MOVE");
    reveal_strlit("/PURGE");
    reveal_strlit("/MIR");
}

proof fn lemma_fixed_switches_keep_files()
    ensures
        forall|j: int| 0 <= j < fixed_switches().len() ==> !deleting_switch(#[trigger] fixed_switches()[j]),
        fixed_switches().len() == 10,
{
    lemma_deleting_switches_spelled();
    reveal_strlit("*.*");
    reveal_strlit("/S");
    reveal_strlit("/E");
    reveal_strlit("/COPY:DAT");
    reveal_strlit("/DCOPY:DAT");
    reveal_strlit("/R:0");
    reveal_strlit("/W:30");
    reveal_strlit("/ZB");
    reveal_strlit("/bytes");
    reveal_strlit("/np");
    let f = fixed_switches();
    assert forall|j: int| 0 <= j < f.len() implies !deleting_switch(#[trigger] f[j]) by {
        if j == 5 {
            assert(f[j][1] == 'R');
        } else if j == 6 {
            assert(f[j][1] == 'W');
        } else if j == 8 {
            assert(f[j][1] == 'b');
        }
    }
}

proof fn lemma_excluded_dirs_keep_files()
    ensures
        forall|j: int| 0 <= j < excluded_dirs().len() ==> !deleting_switch(#[trigger] excluded_dirs()[j]),
{
    lemma_deleting_switches_spelled();
    reveal_strlit("/MOV");
    reveal_strlit("/MOVE");
    reveal_strlit("/PURGE");
    reveal_strlit("/MIR");
    reveal_strlit("Default");
    reveal_strlit("Default User");
    reveal_strlit("All Users");
    reveal_strlit("Application Data");
    reveal_strlit("Local Settings");
    reveal_strlit("NetHood");
    reveal_strlit("PrintHood");
    reveal_strlit("Recent");
    reveal_strlit("SendTo");
    reveal_strlit("Start Menu");
    reveal_strlit("Templates");
    reveal_strlit("Cookies");
    reveal_strlit("My Documents");
    reveal_strlit("My Music");
    reveal_strlit("My Pictures");
    reveal_strlit("My Videos");
    let d = excluded_dirs();
    assert forall|j: int| 0 <= j < d.len() implies !deleting_switch(#[trigger] d[j]) by {
        assert(d[j][0] != '/');
    }
}

} // verus!
