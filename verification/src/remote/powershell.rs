//! The PowerShell command lines the remote console runs for the technician.
use vstd::prelude::*;
use crate::text::{owned, push_str, push_decimal, str_eq, decimal, seq_contains, str_contains, replace, replace_all};

verus! {

/// The `-Level` clause for an event-log severity filter; unknown or absent
/// filters read every level.
pub open spec fn level_clause(level: Option<Seq<char>>) -> Seq<char> {
    match level {
        Some(l) => if l == "Critical"@ {
            " -Level 1"@
        } else if l == "Error"@ {
            " -Level 2"@
        } else if l == "Warning"@ {
            " -Level 3"@
        } else if l == "Information"@ {
            " -Level 4"@
        } else if l == "Verbose"@ {
            " -Level 5"@
        } else {
            ""@
        },
        None => ""@,
    }
}

/// The `-Level` clause for an event-log severity filter.
pub fn event_level_clause(level: Option<&str>) -> (r: &'static str)
    ensures
        r@ == level_clause(match level { Some(l) => Some(l@), None => None }),
{
    match level {
        Some(l) => if str_eq(l, "Critical") {
            " -Level 1"
        } else if str_eq(l, "Error") {
            " -Level 2"
        } else if str_eq(l, "Warning") {
            " -Level 3"
        } else if str_eq(l, "Information") {
            " -Level 4"
        } else if str_eq(l, "Verbose") {
            " -Level 5"
        } else {
            ""
        },
        None => "",
    }
}

/// The query that reads the newest `max_entries` events of `log_name` as JSON.
pub open spec fn event_log_text(log_name: Seq<char>, max_entries: nat, level: Option<Seq<char>>) -> Seq<char> {
    "Get-WinEvent -LogName '"@ + log_name + "' -MaxEvents "@ + decimal(max_entries)
        + level_clause(level)
        + " -ErrorAction SilentlyContinue | Select-Object LevelDisplayName,TimeCreated,ProviderName,Id,Message | ConvertTo-Json -Compress"@
}

/// The event-log query for `log_name`, at most `max_entries` events, filtered by level.
pub fn event_log_query(log_name: &str, max_entries: u64, level: Option<&str>) -> (s: String)
    ensures
        s@ == event_log_text(log_name@, max_entries as nat, match level { Some(l) => Some(l@), None => None }),
{
    let mut s = owned("Get-WinEvent -LogName '");
    push_str(&mut s, log_name);
    push_str(&mut s, "' -MaxEvents ");
    push_decimal(&mut s, max_entries);
    push_str(&mut s, event_level_clause(level));
    push_str(&mut s, " -ErrorAction SilentlyContinue | Select-Object LevelDisplayName,TimeCreated,ProviderName,Id,Message | ConvertTo-Json -Compress");
    s
}

/// The query that lists every Windows service as JSON.
pub fn list_services_query() -> (s: &'static str)
    ensures
        s@ == "Get-CimInstance Win32_Service | Select-Object Name,DisplayName,State,StartMode,ProcessId | ConvertTo-Json -Compress"@,
{
    "Get-CimInstance Win32_Service | Select-Object Name,DisplayName,State,StartMode,ProcessId | ConvertTo-Json -Compress"
}

/// What the technician asks of a service.
pub enum ServiceAction {
    Start,
    Stop,
    Restart,
    /// Change how the service starts (`Automatic`, `Manual`, `Disabled`, ...).
    SetStartType(String),
}

/// The command that applies `action` to the service `name`.
pub open spec fn service_text(name: Seq<char>, action: ServiceAction) -> Seq<char> {
    match action {
        ServiceAction::Start => "Start-Service -Name '"@ + name + "' -ErrorAction Stop; 'OK'"@,
        ServiceAction::Stop => "Stop-Service -Name '"@ + name + "' -Force -ErrorAction Stop; 'OK'"@,
        ServiceAction::Restart => "Restart-Service -Name '"@ + name + "' -Force -ErrorAction Stop; 'OK'"@,
        ServiceAction::SetStartType(t) => "Set-Service -Name '"@ + name + "' -StartupType '"@ + t@
            + "' -ErrorAction Stop; 'OK'"@,
    }
}

/// The command that applies `action` to the service `name`.
pub fn service_command(name: &str, action: &ServiceAction) -> (s: String)
    ensures
        s@ == service_text(name@, *action),
{
    match action {
        ServiceAction::Start => {
            let mut s = owned("Start-Service -Name '");
            push_str(&mut s, name);
            push_str(&mut s, "' -ErrorAction Stop; 'OK'");
            s
        },
        ServiceAction::Stop => {
            let mut s = owned("Stop-Service -Name '");
            push_str(&mut s, name);
            push_str(&mut s, "' -Force -ErrorAction Stop; 'OK'");
            s
        },
        ServiceAction::Restart => {
            let mut s = owned("Restart-Service -Name '");
            push_str(&mut s, name);
            push_str(&mut s, "' -Force -ErrorAction Stop; 'OK'");
            s
        },
        ServiceAction::SetStartType(t) => {
            let mut s = owned("Set-Service -Name '");
            push_str(&mut s, name);
            push_str(&mut s, "' -StartupType '");
            push_str(&mut s, t.as_str());
            push_str(&mut s, "' -ErrorAction Stop; 'OK'");
            s
        },
    }
}

/// The task folder listed when none is given: the root folder.
pub open spec fn task_folder(folder: Option<Seq<char>>) -> Seq<char> {
    match folder {
        Some(f) => f,
        None => "\\"@,
    }
}

/// The script that lists the scheduled tasks under `folder` as JSON.
pub open spec fn list_tasks_text(folder: Seq<char>) -> Seq<char> {
    "$tasks = Get-ScheduledTask -TaskPath '"@ + folder
        + "*' -ErrorAction SilentlyContinue; $results = @(); foreach($t in $tasks) { $info = $null; try { $info = Get-ScheduledTaskInfo -TaskName $t.TaskName -TaskPath $t.TaskPath -ErrorAction SilentlyContinue } catch {}; $triggers = @(); foreach($tr in $t.Triggers) { $triggers += $tr.CimClass.CimClassName }; $actions = @(); foreach($a in $t.Actions) { $actions += $a.Execute }; $results += @{ Name=$t.TaskName; Path=$t.TaskPath; State=$t.State.ToString(); LastRun=if($info){$info.LastRunTime.ToString('o')}else{'Never'}; NextRun=if($info){$info.NextRunTime.ToString('o')}else{'N/A'}; Description=$t.Description; Triggers=$triggers; Actions=$actions } }; $results | ConvertTo-Json -Compress -Depth 3"@
}

/// The script that lists the scheduled tasks of `folder` (the root folder when absent).
pub fn list_tasks_query(folder: Option<&str>) -> (s: String)
    ensures
        s@ == list_tasks_text(task_folder(match folder { Some(f) => Some(f@), None => None })),
{
    let f = match folder {
        Some(f) => f,
        None => "\\",
    };
    let mut s = owned("$tasks = Get-ScheduledTask -TaskPath '");
    push_str(&mut s, f);
    push_str(&mut s, "*' -ErrorAction SilentlyContinue; $results = @(); foreach($t in $tasks) { $info = $null; try { $info = Get-ScheduledTaskInfo -TaskName $t.TaskName -TaskPath $t.TaskPath -ErrorAction SilentlyContinue } catch {}; $triggers = @(); foreach($tr in $t.Triggers) { $triggers += $tr.CimClass.CimClassName }; $actions = @(); foreach($a in $t.Actions) { $actions += $a.Execute }; $results += @{ Name=$t.TaskName; Path=$t.TaskPath; State=$t.State.ToString(); LastRun=if($info){$info.LastRunTime.ToString('o')}else{'Never'}; NextRun=if($info){$info.NextRunTime.ToString('o')}else{'N/A'}; Description=$t.Description; Triggers=$triggers; Actions=$actions } }; $results | ConvertTo-Json -Compress -Depth 3");
    s
}

/// The command that enables or disables the scheduled task at `path`.
pub open spec fn toggle_task_text(path: Seq<char>, enable: bool) -> Seq<char> {
    if enable {
        "Enable-ScheduledTask -TaskName '"@ + path + "' -ErrorAction Stop; 'OK'"@
    } else {
        "Disable-ScheduledTask -TaskName '"@ + path + "' -ErrorAction Stop; 'OK'"@
    }
}

/// The command that enables (`enable`) or disables the scheduled task at `path`.
pub fn toggle_task_command(path: &str, enable: bool) -> (s: String)
    ensures
        s@ == toggle_task_text(path@, enable),
{
    let mut s = if enable {
        owned("Enable-ScheduledTask -TaskName '")
    } else {
        owned("Disable-ScheduledTask -TaskName '")
    };
    push_str(&mut s, path);
    push_str(&mut s, "' -ErrorAction Stop; 'OK'");
    s
}

/// The command that starts the scheduled task at `path` now.
pub fn run_task_command(path: &str) -> (s: String)
    ensures
        s@ == "Start-ScheduledTask -TaskName '"@ + path@ + "' -ErrorAction Stop; 'OK'"@,
{
    let mut s = owned("Start-ScheduledTask -TaskName '");
    push_str(&mut s, path);
    push_str(&mut s, "' -ErrorAction Stop; 'OK'");
    s
}


/// The registry value type PowerShell is given for a value kind, in either
/// its `REG_*` or its PowerShell spelling; anything else is a string.
pub open spec fn registry_type(kind: Seq<char>) -> Seq<char> {
    if kind == "REG_DWORD"@ || kind == "DWord"@ {
        "DWord"@
    } else if kind == "REG_QWORD"@ || kind == "QWord"@ {
        "QWord"@
    } else if kind == "REG_BINARY"@ || kind == "Binary"@ {
        "Binary"@
    } else if kind == "REG_MULTI_SZ"@ || kind == "MultiString"@ {
        "MultiString"@
    } else if kind == "REG_EXPAND_SZ"@ || kind == "ExpandString"@ {
        "ExpandString"@
    } else {
        "String"@
    }
}

/// The registry value type PowerShell is given for the value kind `kind`.
pub fn registry_value_type(kind: &str) -> (t: &'static str)
    ensures
        t@ == registry_type(kind@),
{
    if str_eq(kind, "REG_DWORD") || str_eq(kind, "DWord") {
        "DWord"
    } else if str_eq(kind, "REG_QWORD") || str_eq(kind, "QWord") {
        "QWord"
    } else if str_eq(kind, "REG_BINARY") || str_eq(kind, "Binary") {
        "Binary"
    } else if str_eq(kind, "REG_MULTI_SZ") || str_eq(kind, "MultiString") {
        "MultiString"
    } else if str_eq(kind, "REG_EXPAND_SZ") || str_eq(kind, "ExpandString") {
        "ExpandString"
    } else {
        "String"
    }
}

/// One change the technician queued in the registry editor.
pub enum RegistryEdit {
    SetValue { path: String, name: String, kind: String, data: String },
    DeleteValue { path: String, name: String },
    CreateKey { path: String },
    DeleteKey { path: String },
}

/// The command that applies one registry edit.
pub open spec fn registry_edit_text(edit: RegistryEdit) -> Seq<char> {
    match edit {
        RegistryEdit::SetValue { path, name, kind, data } => "Set-ItemProperty -Path 'Registry::"@ + path@
            + "' -Name '"@ + name@ + "' -Value '"@ + data@ + "' -Type "@ + registry_type(kind@)
            + " -ErrorAction Stop; 'OK'"@,
        RegistryEdit::DeleteValue { path, name } => "Remove-ItemProperty -Path 'Registry::"@ + path@
            + "' -Name '"@ + name@ + "' -ErrorAction Stop; 'OK'"@,
        RegistryEdit::CreateKey { path } => "New-Item -Path 'Registry::"@ + path@
            + "' -Force -ErrorAction Stop | Out-Null; 'OK'"@,
        RegistryEdit::DeleteKey { path } => "Remove-Item -Path 'Registry::"@ + path@
            + "' -Recurse -Force -ErrorAction Stop; 'OK'"@,
    }
}

/// The command that applies one registry edit.
pub fn registry_edit_command(edit: &RegistryEdit) -> (s: String)
    ensures
        s@ == registry_edit_text(*edit),
{
    match edit {
        RegistryEdit::SetValue { path, name, kind, data } => {
            let mut s = owned("Set-ItemProperty -Path 'Registry::");
            push_str(&mut s, path.as_str());
            push_str(&mut s, "' -Name '");
            push_str(&mut s, name.as_str());
            push_str(&mut s, "' -Value '");
            push_str(&mut s, data.as_str());
            push_str(&mut s, "' -Type ");
            push_str(&mut s, registry_value_type(kind.as_str()));
            push_str(&mut s, " -ErrorAction Stop; 'OK'");
            s
        },
        RegistryEdit::DeleteValue { path, name } => {
            let mut s = owned("Remove-ItemProperty -Path 'Registry::");
            push_str(&mut s, path.as_str());
            push_str(&mut s, "' -Name '");
            push_str(&mut s, name.as_str());
            push_str(&mut s, "' -ErrorAction Stop; 'OK'");
            s
        },
        RegistryEdit::CreateKey { path } => {
            let mut s = owned("New-Item -Path 'Registry::");
            push_str(&mut s, path.as_str());
            push_str(&mut s, "' -Force -ErrorAction Stop | Out-Null; 'OK'");
            s
        },
        RegistryEdit::DeleteKey { path } => {
            let mut s = owned("Remove-Item -Path 'Registry::");
            push_str(&mut s, path.as_str());
            push_str(&mut s, "' -Recurse -Force -ErrorAction Stop; 'OK'");
            s
        },
    }
}
pub const LIST_KEY_HEAD: &'static str = "$subkeys = @(); $values = @(); try { Get-ChildItem -Path 'Registry::";
pub const LIST_KEY_VALUES: &'static str = "' -ErrorAction Stop | ForEach-Object { $subkeys += @{ Name=$_.PSChildName; Path=$_.Name; SubkeyCount=(Get-ChildItem -Path $_.PSPath -ErrorAction SilentlyContinue | Measure-Object).Count; ValueCount=(Get-ItemProperty -Path $_.PSPath -ErrorAction SilentlyContinue | Get-Member -MemberType NoteProperty | Where-Object { $_.Name -notmatch '^PS' } | Measure-Object).Count } }; $props = Get-ItemProperty -Path 'Registry::";
pub const LIST_KEY_KINDS: &'static str = "' -ErrorAction SilentlyContinue; if($props) { $props | Get-Member -MemberType NoteProperty | Where-Object { $_.Name -notmatch '^PS' } | ForEach-Object { $n = $_.Name; $v = $props.$n; $kind = (Get-Item -Path 'Registry::";
pub const LIST_KEY_TAIL: &'static str = "' -ErrorAction SilentlyContinue).GetValueKind($n); $values += @{ Name=$n; Kind=$kind.ToString(); Data=[string]$v } } } } catch { }; @{ Subkeys=$subkeys; Values=$values } | ConvertTo-Json -Compress -Depth 4";

/// The script that lists the subkeys and values of the registry key `p` as JSON.
pub open spec fn list_key_text(p: Seq<char>) -> Seq<char> {
    LIST_KEY_HEAD@ + p + LIST_KEY_VALUES@ + p + LIST_KEY_KINDS@ + p + LIST_KEY_TAIL@
}

/// The script that lists the subkeys and values of the registry key `p`.
pub fn list_key_query(p: &str) -> (s: String)
    ensures
        s@ == list_key_text(p@),
{
    let mut s = owned(LIST_KEY_HEAD);
    push_str(&mut s, p);
    push_str(&mut s, LIST_KEY_VALUES);
    push_str(&mut s, p);
    push_str(&mut s, LIST_KEY_KINDS);
    push_str(&mut s, p);
    push_str(&mut s, LIST_KEY_TAIL);
    s
}

/// The script that lists the programs started at logon, from the `Run` keys
/// and their `StartupApproved` counterparts, as JSON.
pub const STARTUP_APPS_QUERY: &'static str = "\n$paths = @(\n    \"HKCU:\\Software\\Microsoft\\Windows\\CurrentVersion\\Run\",\n    \"HKLM:\\Software\\Microsoft\\Windows\\CurrentVersion\\Run\",\n    \"HKLM:\\Software\\WOW6432Node\\Microsoft\\Windows\\CurrentVersion\\Run\",\n    \"HKLM:\\Software\\Microsoft\\Windows\\CurrentVersion\\Explorer\\StartupApproved\\Run\",\n    \"HKCU:\\Software\\Microsoft\\Windows\\CurrentVersion\\Explorer\\StartupApproved\\Run\"\n)\n$results = @()\nforeach ($path in $paths) {\n    if (Test-Path $path) {\n        $isApproved = $path -like \"*StartupApproved*\"\n        $props = Get-ItemProperty -Path $path -ErrorAction SilentlyContinue\n        if ($props) {\n            $memberNames = ($props | Get-Member -MemberType NoteProperty | Select-Object -ExpandProperty Name) | Where-Object { $_ -notin @('PSPath','PSParentPath','PSChildName','PSProvider','PSDrive') }\n            foreach ($name in $memberNames) {\n                $value = $props.$name\n                $state = \"Unknown\"\n                $cmd = \"\"\n                if ($isApproved) {\n                    if ($value -is [byte[]] -and $value.Length -ge 1) {\n                        switch ($value[0]) {\n                            0x02 { $state = \"Enabled\" }\n                            0x03 { $state = \"Disabled\" }\n                            0x06 { $state = \"DisabledByUser\" }\n                            default { $state = \"Unknown\" }\n                        }\n                    }\n                    $runPath = $path -replace 'StartupApproved\\\\Run','Run'\n                    if (Test-Path $runPath) {\n                        $runProps = Get-ItemProperty -Path $runPath -ErrorAction SilentlyContinue\n                        if ($runProps -and ($runProps | Get-Member -Name $name -ErrorAction SilentlyContinue)) {\n                            $cmd = [string]$runProps.$name\n                        }\n                    }\n                } else {\n                    $cmd = [string]$value\n                    $approvedPath = $path -replace '\\\\Run$','\\Explorer\\StartupApproved\\Run'\n                    if (Test-Path $approvedPath) {\n                        $approvedProps = Get-ItemProperty -Path $approvedPath -ErrorAction SilentlyContinue\n                        if ($approvedProps -and ($approvedProps | Get-Member -Name $name -ErrorAction SilentlyContinue)) {\n                            $aVal = $approvedProps.$name\n                            if ($aVal -is [byte[]] -and $aVal.Length -ge 1) {\n                                switch ($aVal[0]) {\n                                    0x02 { $state = \"Enabled\" }\n                                    0x03 { $state = \"Disabled\" }\n                                    0x06 { $state = \"DisabledByUser\" }\n                                    default { $state = \"Unknown\" }\n                                }\n                            }\n                        } else { $state = \"Enabled\" }\n                    } else { $state = \"Enabled\" }\n                }\n\n                $source = if ($path -like \"HKLM:*\") { \"HKLM\" } else { \"HKCU\" }\n                if ($path -like \"*WOW6432Node*\") { $source = \"HKLM (32-bit)\" }\n                if ($isApproved) { $source += \" (Approved)\" }\n\n                if (-not $isApproved -or $cmd -ne \"\") {\n                    $results += [pscustomobject]@{\n                        name = $name\n                        command = $cmd\n                        registry_path = $path\n                        state = $state\n                        source = $source\n                    }\n                }\n            }\n        }\n    }\n}\n$results | Sort-Object -Property name -Unique | ConvertTo-Json -Depth 3\n";
pub const TOGGLE_HEAD: &'static str = "\n$path = '";
pub const TOGGLE_NAME: &'static str = "'\n$name = '";
pub const TOGGLE_FIRST_BYTE: &'static str = "'\nif (Test-Path $path) {\n    $props = Get-ItemProperty -Path $path -ErrorAction SilentlyContinue\n    if ($props -and ($props | Get-Member -Name $name -ErrorAction SilentlyContinue)) {\n        $current = $props.$name\n        if ($current -is [byte[]]) {\n            $current[0] = ";
pub const TOGGLE_REPLACE: &'static str = "\n            Set-ItemProperty -Path $path -Name $name -Value ([byte[]]$current) -ErrorAction Stop\n            'OK'\n        } else {\n            $newVal = [byte[]]@(";
pub const TOGGLE_CREATE: &'static str = ",0,0,0,0,0,0,0,0,0,0,0)\n            Set-ItemProperty -Path $path -Name $name -Value $newVal -ErrorAction Stop\n            'OK'\n        }\n    } else {\n        $newVal = [byte[]]@(";
pub const TOGGLE_TAIL: &'static str = ",0,0,0,0,0,0,0,0,0,0,0)\n        New-ItemProperty -Path $path -Name $name -Value $newVal -PropertyType Binary -ErrorAction Stop | Out-Null\n        'OK'\n    }\n} else {\n    Write-Error \"Registry path not found: $path\"\n}\n";

/// The script that sets the first byte of the startup entry `name` under the
/// `StartupApproved` key `path` to `byte_val`, creating the entry if missing.
pub open spec fn toggle_startup_text(path: Seq<char>, name: Seq<char>, byte_val: Seq<char>) -> Seq<char> {
    TOGGLE_HEAD@ + path + TOGGLE_NAME@ + name + TOGGLE_FIRST_BYTE@ + byte_val + TOGGLE_REPLACE@ + byte_val
        + TOGGLE_CREATE@ + byte_val + TOGGLE_TAIL@
}

/// The `StartupApproved` key that records whether the entries of the `Run`
/// key `registry_path` are enabled; a path already under it is kept.
pub open spec fn approved_path(registry_path: Seq<char>) -> Seq<char> {
    if seq_contains(registry_path, "StartupApproved"@) {
        registry_path
    } else {
        replace_all(registry_path, "\\Run"@, "\\Explorer\\StartupApproved\\Run"@)
    }
}

/// The first byte Windows stores for an enabled (`0x02`) or disabled (`0x03`) startup entry.
pub open spec fn startup_byte(enable: bool) -> Seq<char> {
    if enable { "0x02"@ } else { "0x03"@ }
}

/// The script that enables or disables the startup entry `name` of `registry_path`.
pub fn toggle_startup_script(name: &str, registry_path: &str, enable: bool) -> (s: String)
    ensures
        s@ == toggle_startup_text(approved_path(registry_path@), name@, startup_byte(enable)),
{
    proof {
        reveal_strlit("\\Run");
    }
    let path = if str_contains(registry_path, "StartupApproved") {
        owned(registry_path)
    } else {
        replace(registry_path, "\\Run", "\\Explorer\\StartupApproved\\Run")
    };
    let byte_val = if enable { "0x02" } else { "0x03" };
    let mut s = owned(TOGGLE_HEAD);
    push_str(&mut s, path.as_str());
    push_str(&mut s, TOGGLE_NAME);
    push_str(&mut s, name);
    push_str(&mut s, TOGGLE_FIRST_BYTE);
    push_str(&mut s, byte_val);
    push_str(&mut s, TOGGLE_REPLACE);
    push_str(&mut s, byte_val);
    push_str(&mut s, TOGGLE_CREATE);
    push_str(&mut s, byte_val);
    push_str(&mut s, TOGGLE_TAIL);
    s
}

/// `p` is where `s` begins.
pub open spec fn begins_with(s: Seq<char>, p: Seq<char>) -> bool {
    p.len() <= s.len() && s.subrange(0, p.len() as int) == p
}

/// Each service action runs its own cmdlet on the service named: starting
/// runs `Start-Service`, stopping `Stop-Service`, restarting
/// `Restart-Service`, a start type `Set-Service`, each with `-Name '` and
/// the name first; so only a restart ever restarts a service, and a stop
/// never restarts or starts it.
pub proof fn lemma_service_action_runs_its_cmdlet(name: Seq<char>, action: ServiceAction)
    ensures
        begins_with(service_text(name, action), match action {
            ServiceAction::Start => "Start-Service -Name '"@,
            ServiceAction::Stop => "Stop-Service -Name '"@,
            ServiceAction::Restart => "Restart-Service -Name '"@,
            ServiceAction::SetStartType(_) => "Set-Service -Name '"@,
        } + name),
        !(action is Restart) ==> !begins_with(service_text(name, action), "Restart-Service"@),
        !(action is Start) ==> !begins_with(service_text(name, action), "Start-Service"@),
        !(action is Stop) ==> !begins_with(service_text(name, action), "Stop-Service"@),
{
    reveal_strlit("Start-Service -Name '");
    reveal_strlit("Stop-Service -Name '");
    reveal_strlit("Restart-Service -Name '");
    reveal_strlit("Set-Service -Name '");
    reveal_strlit("Restart-Service");
    reveal_strlit("Start-Service");
    reveal_strlit("Stop-Service");
    let t = service_text(name, action);
    let p = match action {
        ServiceAction::Start => "Start-Service -Name '"@,
        ServiceAction::Stop => "Stop-Service -Name '"@,
        ServiceAction::Restart => "Restart-Service -Name '"@,
        ServiceAction::SetStartType(_) => "Set-Service -Name '"@,
    };
    let rest = match action {
        ServiceAction::Start => "' -ErrorAction Stop; 'OK'"@,
        ServiceAction::Stop => "' -Force -ErrorAction Stop; 'OK'"@,
        ServiceAction::Restart => "' -Force -ErrorAction Stop; 'OK'"@,
        ServiceAction::SetStartType(k) => "' -StartupType '"@ + k@ + "' -ErrorAction Stop; 'OK'"@,
    };
    assert(t =~= (p + name) + rest);
    assert(t.subrange(0, (p + name).len() as int) =~= p + name);
    assert(t[0] == p[0] && t[1] == p[1] && t[2] == p[2]);
    if !(action is Restart) {
        assert(t[0] != 'R' || t[2] != 's');
    }
    if !(action is Start) {
        assert(t[1] != 't' || t[2] != 'a');
    }
    if !(action is Stop) {
        assert(t[1] != 't' || t[2] != 'o');
    }
}

/// A text made of `head` and then anything begins with `head`.
pub proof fn lemma_begins_with_head(head: Seq<char>, rest: Seq<char>)
    ensures
        begins_with(head + rest, head),
{
    assert((head + rest).subrange(0, head.len() as int) =~= head);
}

/// Enabling a scheduled task runs `Enable-ScheduledTask`, disabling runs
/// `Disable-ScheduledTask`, each on the task's path; the two never agree,
/// and running a task now runs `Start-ScheduledTask` on it.
pub proof fn lemma_task_commands_do_what_they_say(path: Seq<char>)
    ensures
        begins_with(toggle_task_text(path, true), "Enable-ScheduledTask -TaskName '"@ + path),
        begins_with(toggle_task_text(path, false), "Disable-ScheduledTask -TaskName '"@ + path),
        toggle_task_text(path, true) != toggle_task_text(path, false),
{
    reveal_strlit("Enable-ScheduledTask -TaskName '");
    reveal_strlit("Disable-ScheduledTask -TaskName '");
    lemma_begins_with_head("Enable-ScheduledTask -TaskName '"@ + path, "' -ErrorAction Stop; 'OK'"@);
    lemma_begins_with_head("Disable-ScheduledTask -TaskName '"@ + path, "' -ErrorAction Stop; 'OK'"@);
    assert(toggle_task_text(path, true)[0] == 'E');
    assert(toggle_task_text(path, false)[0] == 'D');
}

/// Each registry edit runs its own cmdlet on the key given: a value is set
/// with `Set-ItemProperty`, removed with `Remove-ItemProperty`; a key is
/// created with `New-Item` and deleted, with all it holds, with
/// `Remove-Item ... -Recurse`. Only deleting a key removes a key.
pub proof fn lemma_registry_edit_runs_its_cmdlet(edit: RegistryEdit)
    ensures
        match edit {
            RegistryEdit::SetValue { path, name, kind, data } => begins_with(registry_edit_text(edit),
                "Set-ItemProperty -Path 'Registry::"@ + path@ + "' -Name '"@ + name@ + "' -Value '"@ + data@
                + "' -Type "@ + registry_type(kind@)),
            RegistryEdit::DeleteValue { path, name } => begins_with(registry_edit_text(edit),
                "Remove-ItemProperty -Path 'Registry::"@ + path@ + "' -Name '"@ + name@),
            RegistryEdit::CreateKey { path } => begins_with(registry_edit_text(edit),
                "New-Item -Path 'Registry::"@ + path@),
            RegistryEdit::DeleteKey { path } => registry_edit_text(edit) == "Remove-Item -Path 'Registry::"@
                + path@ + "' -Recurse -Force -ErrorAction Stop; 'OK'"@,
        },
        !(edit is DeleteKey) ==> !begins_with(registry_edit_text(edit), "Remove-Item "@),
{
    reveal_strlit("Set-ItemProperty -Path 'Registry::");
    reveal_strlit("Remove-ItemProperty -Path 'Registry::");
    reveal_strlit("New-Item -Path 'Registry::");
    reveal_strlit("Remove-Item ");
    match edit {
        RegistryEdit::SetValue { path, name, kind, data } => {
            let h = "Set-ItemProperty -Path 'Registry::"@ + path@ + "' -Name '"@ + name@ + "' -Value '"@ + data@
                + "' -Type "@ + registry_type(kind@);
            assert(registry_edit_text(edit) =~= h + " -ErrorAction Stop; 'OK'"@);
            lemma_begins_with_head(h, " -ErrorAction Stop; 'OK'"@);
            let t = registry_edit_text(edit);
            if begins_with(t, "Remove-Item "@) {
                assert(t.subrange(0, 12)[0] == t[0]);
                assert(t[0] == 'S');
            }
        },
        RegistryEdit::DeleteValue { path, name } => {
            let h = "Remove-ItemProperty -Path 'Registry::"@ + path@ + "' -Name '"@ + name@;
            assert(registry_edit_text(edit) =~= h + "' -ErrorAction Stop; 'OK'"@);
            lemma_begins_with_head(h, "' -ErrorAction Stop; 'OK'"@);
            let t = registry_edit_text(edit);
            if begins_with(t, "Remove-Item "@) {
                assert(t.subrange(0, 12)[11] == t[11]);
                assert(t[11] == 'P');
            }
        },
        RegistryEdit::CreateKey { path } => {
            let h = "New-Item -Path 'Registry::"@ + path@;
            assert(registry_edit_text(edit) =~= h + "' -Force -ErrorAction Stop | Out-Null; 'OK'"@);
            lemma_begins_with_head(h, "' -Force -ErrorAction Stop | Out-Null; 'OK'"@);
            let t = registry_edit_text(edit);
            if begins_with(t, "Remove-Item "@) {
                assert(t.subrange(0, 12)[0] == t[0]);
                assert(t[0] == 'N');
            }
        },
        RegistryEdit::DeleteKey { .. } => {},
    }
}

/// Enabling a startup entry writes `0x02` as its first byte, disabling
/// writes `0x03`: the two scripts differ exactly there.
pub proof fn lemma_startup_toggle_bytes()
    ensures
        startup_byte(true) == "0x02"@,
        startup_byte(false) == "0x03"@,
        startup_byte(true) != startup_byte(false),
{
    reveal_strlit("0x02");
    reveal_strlit("0x03");
    assert(startup_byte(true)[3] != startup_byte(false)[3]);
}

} // verus!
