//! Antivirus products as Windows Security Center reports them, and the
//! installers of the products the shop deploys: what is checked and which
//! command lines are run. Downloads and processes stay with the caller.
use vstd::prelude::*;
use crate::text::{owned, push_str, str_contains, seq_contains};
use crate::programs::InstalledProgram;

verus! {

/// An antivirus product registered with Windows Security Center.
pub struct AntiVirusProduct {
    pub display_name: String,
    pub instance_guid: String,
    pub path_to_signed_product_exe: String,
    pub path_to_signed_reporting_exe: String,
    pub product_state: u32,
    pub timestamp: String,
    pub ps_computer_name: Option<String>,
}

/// The query that lists the registered antivirus products as JSON.
pub const QUERY_PRODUCTS: &'static str = "\n        Get-CimInstance -Namespace \"Root\\SecurityCenter2\" -ClassName AntiVirusProduct | ConvertTo-Json\n        ";

/// The opening of the uninstall script, before the product's GUID.
pub const UNINSTALL_HEAD: &'static str = "\n            $guid = \"";

/// The rest of the uninstall script.
pub const UNINSTALL_TAIL: &'static str = "\"\n            Get-CimInstance -Namespace \"ROOT\\SecurityCenter2\" -ClassName AntiVirusProduct | Where-Object { $_.instanceGuid -eq $guid } | ForEach-Object {\n                Write-Output \"Uninstalling $($_.displayName)...\"\n                # Assuming a hypothetical uninstaller command\n                & \"msiexec.exe\" /x $($_.instanceGuid) /quiet\n            }\n            ";

/// The script that uninstalls the product registered under `guid`.
pub open spec fn uninstall_text(guid: Seq<char>) -> Seq<char> {
    UNINSTALL_HEAD@ + guid + UNINSTALL_TAIL@
}

impl AntiVirusProduct {
    /// Decodes the `productState` bitmask: whether the product is enabled,
    /// whether real-time protection is on, whether its signatures are up to date.
    pub fn decode_product_state(&self) -> (r: (bool, bool, bool))
        ensures
            r == ((self.product_state & 0x10000) != 0, (self.product_state & 0x20000) != 0,
                (self.product_state & 0x40000) != 0),
    {
        let enabled = (self.product_state & 0x10000) != 0;
        let real_time_protection = (self.product_state & 0x20000) != 0;
        let signatures_up_to_date = (self.product_state & 0x40000) != 0;
        (enabled, real_time_protection, signatures_up_to_date)
    }

    /// The script that uninstalls this product.
    pub fn uninstall_script(&self) -> (s: String)
        ensures
            s@ == uninstall_text(self.instance_guid@),
    {
        let mut s = owned(UNINSTALL_HEAD);
        push_str(&mut s, self.instance_guid.as_str());
        push_str(&mut s, UNINSTALL_TAIL);
        s
    }

    /// The error after the uninstall script failed with `stderr`.
    pub fn uninstall_error(&self, stderr: &str) -> (s: String)
        ensures
            s@ == "Failed to uninstall "@ + self.display_name@ + ": "@ + stderr@,
    {
        let mut s = owned("Failed to uninstall ");
        push_str(&mut s, self.display_name.as_str());
        push_str(&mut s, ": ");
        push_str(&mut s, stderr);
        s
    }
}

/// The three flags of a product state are separate bits: each can be on
/// without the others.
pub proof fn lemma_state_flags_independent(state: u32)
    ensures
        ((state | 0x10000) & 0x10000) != 0,
        ((state & !0x10000u32) & 0x10000) == 0,
        ((state | 0x10000) & 0x20000) == (state & 0x20000),
        ((state | 0x10000) & 0x40000) == (state & 0x40000),
        ((state | 0x20000) & 0x10000) == (state & 0x10000),
        ((state | 0x40000) & 0x10000) == (state & 0x10000),
{
    assert(((state | 0x10000) & 0x10000) != 0) by (bit_vector);
    assert(((state & !0x10000u32) & 0x10000) == 0) by (bit_vector);
    assert(((state | 0x10000) & 0x20000) == (state & 0x20000)) by (bit_vector);
    assert(((state | 0x10000) & 0x40000) == (state & 0x40000)) by (bit_vector);
    assert(((state | 0x20000) & 0x10000) == (state & 0x10000)) by (bit_vector);
    assert(((state | 0x40000) & 0x10000) == (state & 0x10000)) by (bit_vector);
}

/// Why an installer cannot start.
pub fn activation_key_error(activation_key: &str) -> (e: Option<&'static str>)
    ensures
        activation_key@.len() == 0 ==> e is Some && e.unwrap()@ == "Activation key is empty"@,
        activation_key@.len() > 0 ==> e is None,
{
    if activation_key.unicode_len() == 0 { Some("Activation key is empty") } else { None }
}

/// Whether a download is whole: as many bytes arrived as announced.
pub fn download_complete(downloaded: u64, total: u64) -> (b: bool)
    ensures
        b == (downloaded == total),
{
    downloaded == total
}

/// Where an installer is saved: `name` in the temporary folder.
pub fn temp_file_path(temp_dir: &str, name: &str) -> (s: String)
    ensures
        s@ == temp_dir@ + "\\"@ + name@,
{
    let mut s = owned(temp_dir);
    push_str(&mut s, "\\");
    push_str(&mut s, name);
    s
}

/// The command line of the Webroot installer: run through `cmd`, keyed, silent.
pub fn webroot_installer_args(installer: &str, activation_key: &str) -> (args: Vec<String>)
    ensures
        args@.map_values(|a: String| a@) == seq!["/c "@, installer@, "/key="@ + activation_key@, "/silent"@],
{
    let mut key = owned("/key=");
    push_str(&mut key, activation_key);
    let args = vec![owned("/c "), owned(installer), key, owned("/silent")];
    assert(args@.map_values(|a: String| a@) =~= seq!["/c "@, installer@, "/key="@ + activation_key@, "/silent"@]);
    args
}

/// The command line that registers an installed SUPERAntiSpyware.
pub fn sas_register_args(exe: &str, activation_key: &str) -> (args: Vec<String>)
    ensures
        args@.map_values(|a: String| a@) == seq!["/c "@, exe@, " /autoregister:"@ + activation_key@],
{
    let mut key = owned(" /autoregister:");
    push_str(&mut key, activation_key);
    let args = vec![owned("/c "), owned(exe), key];
    assert(args@.map_values(|a: String| a@) =~= seq!["/c "@, exe@, " /autoregister:"@ + activation_key@]);
    args
}

/// The command line of the SUPERAntiSpyware installer: run through `cmd`, keyed, silent.
pub fn sas_installer_args(installer: &str, activation_key: &str) -> (args: Vec<String>)
    ensures
        args@.map_values(|a: String| a@) == seq!["/c "@, installer@, "/REGCODE="@ + activation_key@, "/silent"@],
{
    let mut key = owned("/REGCODE=");
    push_str(&mut key, activation_key);
    let args = vec![owned("/c "), owned(installer), key, owned("/silent")];
    assert(args@.map_values(|a: String| a@) =~= seq!["/c "@, installer@, "/REGCODE="@ + activation_key@, "/silent"@]);
    args
}

/// The `msiexec` command line of the SuperEasyBackup installer, activated with `code`.
pub fn seb_installer_args(installer: &str, code: &str) -> (args: Vec<String>)
    ensures
        args@.map_values(|a: String| a@) == seq!["/i "@, installer@, "/qn"@, "Silent=1"@,
            "ActivationURL=https://blue.mysecuredatavault.com"@, "ActivationCode="@ + code@],
{
    let mut c = owned("ActivationCode=");
    push_str(&mut c, code);
    let args = vec![owned("/i "), owned(installer), owned("/qn"), owned("Silent=1"),
        owned("ActivationURL=https://blue.mysecuredatavault.com"), c];
    assert(args@.map_values(|a: String| a@) =~= seq!["/i "@, installer@, "/qn"@, "Silent=1"@,
        "ActivationURL=https://blue.mysecuredatavault.com"@, "ActivationCode="@ + code@]);
    args
}

/// Whether an installed program is SUPERAntiSpyware with a known location:
/// its name or its publisher says so (a program without a name has none to
/// say it).
pub open spec fn is_sas_install(p: InstalledProgram) -> bool {
    match (p.publisher, p.install_location) {
        (Some(publisher), Some(_)) =>
            (match p.display_name { Some(n) => seq_contains(n@, "SUPERAntiSpyware"@), None => false })
            || seq_contains(publisher@, "SUPERAntiSpyware"@),
        _ => false,
    }
}

/// The install locations of the SUPERAntiSpyware installs among `programs`, in order.
pub open spec fn sas_locations(programs: Seq<InstalledProgram>) -> Seq<Seq<char>>
    decreases programs.len(),
{
    if programs.len() == 0 {
        Seq::empty()
    } else {
        let rest = sas_locations(programs.drop_last());
        if is_sas_install(programs.last()) {
            rest.push(programs.last().install_location.unwrap()@)
        } else {
            rest
        }
    }
}

/// The folders where SUPERAntiSpyware may already be installed, in the
/// order the installed programs were listed; the first whose program file
/// exists is registered instead of downloading the installer.
pub fn sas_install_locations(programs: &Vec<InstalledProgram>) -> (locs: Vec<String>)
    ensures
        locs@.map_values(|l: String| l@) == sas_locations(programs@),
{
    let mut locs: Vec<String> = Vec::new();
    let mut i: usize = 0;
    while i < programs.len()
        invariant
            i <= programs@.len(),
            locs@.map_values(|l: String| l@) == sas_locations(programs@.subrange(0, i as int)),
        decreases programs@.len() - i,
    {
        proof {
            assert(programs@.subrange(0, i + 1).drop_last() =~= programs@.subrange(0, i as int));
        }
        let p = &programs[i];
        match (&p.publisher, &p.install_location) {
            (Some(publisher), Some(location)) => {
                let name_has = match &p.display_name {
                    Some(n) => str_contains(n.as_str(), "SUPERAntiSpyware"),
                    None => false,
                };
                if name_has || str_contains(publisher.as_str(), "SUPERAntiSpyware") {
                    locs.push(owned(location.as_str()));
                }
            },
            _ => {},
        }
        i = i + 1;
        proof {
            assert(locs@.map_values(|l: String| l@) =~= sas_locations(programs@.subrange(0, i as int)));
        }
    }
    proof {
        assert(programs@.subrange(0, i as int) =~= programs@);
    }
    locs
}

} // verus!
