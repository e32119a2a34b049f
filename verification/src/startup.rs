//! Programs started at logon: the `Run` keys and their `StartupApproved`
//! counterparts, and the state Windows records for each entry.
use vstd::prelude::*;
use crate::text::{owned, push_str};

verus! {

/// Represents the state of a startup item.
#[derive(PartialEq, Eq, Structural, Clone, Copy, Debug)]
pub enum StartupState {
    Enabled,
    Disabled,
    DisabledByUser,
    UnknownState,
}

impl StartupState {
    /// An entry with no state recorded is enabled.
    pub fn default() -> (s: StartupState)
        ensures
            s == StartupState::Enabled,
    {
        StartupState::Enabled
    }
}

/// A registry value of a startup entry, as far as its state is read from it.
pub enum StartupValue {
    /// An array; for each element, its value when it is a whole number.
    Array(Vec<Option<u64>>),
    /// Anything else.
    Other,
}

/// One startup entry.
pub struct StartupProgram {
    pub path: String,
    pub key_name: String,
    pub property_name: String,
    pub value: StartupValue,
    /// Decoded state for `StartupApproved\\Run` entries
    pub decoded_state: Option<StartupState>,
}

/// The state a first byte records: `0x02` enabled, `0x03` disabled, `0x06`
/// disabled by the user, anything else unknown.
pub open spec fn state_of_byte(b: u64) -> StartupState {
    if b == 2 {
        StartupState::Enabled
    } else if b == 3 {
        StartupState::Disabled
    } else if b == 6 {
        StartupState::DisabledByUser
    } else {
        StartupState::UnknownState
    }
}

/// The state a startup value records: read from its first element when it
/// is an array whose first element is a whole number.
pub open spec fn decoded(value: StartupValue) -> Option<StartupState> {
    match value {
        StartupValue::Array(bytes) => if bytes@.len() > 0 && bytes@[0] is Some {
            Some(state_of_byte(bytes@[0].unwrap()))
        } else {
            None
        },
        StartupValue::Other => None,
    }
}

impl StartupProgram {
    /// Dynamically decode the startup state from the `Value` field.
    pub fn decode_value(&self) -> (s: Option<StartupState>)
        ensures
            s == decoded(self.value),
    {
        match &self.value {
            StartupValue::Array(bytes) => {
                if bytes.len() > 0 {
                    match bytes[0] {
                        Some(b) => Some(if b == 2 {
                            StartupState::Enabled
                        } else if b == 3 {
                            StartupState::Disabled
                        } else if b == 6 {
                            StartupState::DisabledByUser
                        } else {
                            StartupState::UnknownState
                        }),
                        None => None,
                    }
                } else {
                    None
                }
            },
            StartupValue::Other => None,
        }
    }
}

/// The script that lists the startup entries, with the state of those under
/// `StartupApproved`, as JSON.
pub const QUERY_STARTUP: &'static str = "\n        $paths = @(\n            \"HKCU:\\Software\\Microsoft\\Windows\\CurrentVersion\\Run\",\n            \"HKLM:\\Software\\Microsoft\\Windows\\CurrentVersion\\Run\",\n            \"HKLM:\\Software\\WOW6432Node\\Microsoft\\Windows\\CurrentVersion\\Run\",\n            \"HKLM:\\Software\\Microsoft\\Windows\\CurrentVersion\\Explorer\\StartupApproved\\Run\",\n            \"HKCU:\\Software\\Microsoft\\Windows\\CurrentVersion\\Explorer\\StartupApproved\\Run\"\n        )\n\n        $results = @()\n\n        foreach ($path in $paths) {\n            if (Test-Path $path) {\n                Get-ItemProperty -Path $path |\n                ForEach-Object {\n                    $keyName = $_.PSChildName\n                    $propertyNames = $_ | Get-Member -MemberType NoteProperty | Select-Object -ExpandProperty Name\n\n                    foreach ($propertyName in $propertyNames) {\n                        $value = $_.$propertyName\n                        $decodedState = $null\n\n                        if ($path -like \"*StartupApproved*\") {\n                            if ($value -is [byte[]] -and $value.Length -ge 1) {\n                                switch ($value[0]) {\n                                    0x02 { $decodedState = \"enabled\" }\n                                    0x03 { $decodedState = \"disabled\" }\n                                    0x06 { $decodedState = \"disabled_by_user\" }\n                                    default { $decodedState = \"unknown_state\" }\n                                }\n                            }\n                        }\n\n                        $results += [pscustomobject]@{\n                            Path          = $path\n                            KeyName       = $keyName\n                            PropertyName  = $propertyName\n                            Value         = $value\n                            DecodedState  = $decodedState\n                        }\n                    }\n                }\n            }\n        }\n\n        $results | ConvertTo-Json\n        ";

/// The error after the listing of startup entries failed.
pub fn startup_query_error(stderr: &str) -> (s: String)
    ensures
        s@ == "Failed to retrieve startup programs: "@ + stderr@,
{
    let mut s = owned("Failed to retrieve startup programs: ");
    push_str(&mut s, stderr);
    s
}

} // verus!
