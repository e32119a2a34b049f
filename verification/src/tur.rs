//! The TUR sheet: the service ticket form, the license keys fetched for an
//! order, the submission of the task with its countdown and duplicate check,
//! and the AI-assist prompt and progress view. The database and the network
//! stay with the caller.
pub mod assist;
pub mod submit;

use vstd::prelude::*;
use crate::text::{owned, str_eq, trimmed, trim};

verus! {

/// The licence keys of one slot: SUPERAntiSpyware and Webroot.
pub struct KeyPair {
    pub superanti_key: String,
    pub webroot_key: String,
}

/// The keys of the licences of `kind` (`SAS` or `WRAV`), in the order given.
pub open spec fn keys_of(licences: Seq<(Seq<char>, Seq<char>)>, kind: Seq<char>) -> Seq<Seq<char>>
    decreases licences.len(),
{
    if licences.len() == 0 {
        Seq::empty()
    } else {
        let rest = keys_of(licences.drop_last(), kind);
        if licences.last().0 == kind { rest.push(licences.last().1) } else { rest }
    }
}

/// The `i`-th key of `keys`, or nothing when there are fewer.
pub open spec fn key_at(keys: Seq<Seq<char>>, i: int) -> Seq<char> {
    if 0 <= i < keys.len() { keys[i] } else { Seq::empty() }
}

/// The number of slots the keys fill: as many as the longer of the two lists.
pub open spec fn slot_count(licences: Seq<(Seq<char>, Seq<char>)>) -> nat {
    let s = keys_of(licences, "SAS"@).len();
    let w = keys_of(licences, "WRAV"@).len();
    if s >= w { s } else { w }
}

fn keys_of_kind(licences: &Vec<(String, String)>, kind: &str) -> (keys: Vec<String>)
    ensures
        keys@.map_values(|k: String| k@) == keys_of(licences@.map_values(|l: (String, String)| (l.0@, l.1@)), kind@),
{
    let ghost lv = licences@.map_values(|l: (String, String)| (l.0@, l.1@));
    let mut keys: Vec<String> = Vec::new();
    let mut i: usize = 0;
    while i < licences.len()
        invariant
            i <= licences@.len(),
            lv == licences@.map_values(|l: (String, String)| (l.0@, l.1@)),
            keys@.map_values(|k: String| k@) == keys_of(lv.subrange(0, i as int), kind@),
        decreases licences@.len() - i,
    {
        proof {
            assert(lv.subrange(0, i + 1).drop_last() =~= lv.subrange(0, i as int));
        }
        if str_eq(licences[i].0.as_str(), kind) {
            keys.push(owned(licences[i].1.as_str()));
        }
        i = i + 1;
        proof {
            assert(keys@.map_values(|k: String| k@) =~= keys_of(lv.subrange(0, i as int), kind@));
        }
    }
    proof {
        assert(lv.subrange(0, i as int) =~= lv);
    }
    keys
}

/// The licences fetched for an order, each as (type, key), paired slot by
/// slot: the n-th SUPERAntiSpyware key with the n-th Webroot key, the shorter
/// list padded with empty keys; licences of other types are left out.
pub fn pair_license_keys(licences: &Vec<(String, String)>) -> (pairs: Vec<KeyPair>)
    ensures
        pairs@.len() == slot_count(licences@.map_values(|l: (String, String)| (l.0@, l.1@))),
        forall|i: int| #![trigger pairs@[i]] 0 <= i < pairs@.len() ==> {
            &&& pairs@[i].superanti_key@ == key_at(keys_of(licences@.map_values(|l: (String, String)| (l.0@, l.1@)), "SAS"@), i)
            &&& pairs@[i].webroot_key@ == key_at(keys_of(licences@.map_values(|l: (String, String)| (l.0@, l.1@)), "WRAV"@), i)
        },
{
    let ghost lv = licences@.map_values(|l: (String, String)| (l.0@, l.1@));
    let sas = keys_of_kind(licences, "SAS");
    let wrav = keys_of_kind(licences, "WRAV");
    let n = if sas.len() >= wrav.len() { sas.len() } else { wrav.len() };
    let mut pairs: Vec<KeyPair> = Vec::new();
    let mut i: usize = 0;
    while i < n
        invariant
            i <= n,
            n == slot_count(lv),
            sas@.map_values(|k: String| k@) == keys_of(lv, "SAS"@),
            wrav@.map_values(|k: String| k@) == keys_of(lv, "WRAV"@),
            pairs@.len() == i,
            forall|k: int| #![trigger pairs@[k]] 0 <= k < i ==> {
                &&& pairs@[k].superanti_key@ == key_at(keys_of(lv, "SAS"@), k)
                &&& pairs@[k].webroot_key@ == key_at(keys_of(lv, "WRAV"@), k)
            },
        decreases n - i,
    {
        let s = if i < sas.len() { owned(sas[i].as_str()) } else { String::new() };
        let w = if i < wrav.len() { owned(wrav[i].as_str()) } else { String::new() };
        proof {
            if i < sas.len() {
                assert(sas@.map_values(|k: String| k@)[i as int] == sas@[i as int]@);
            }
            if i < wrav.len() {
                assert(wrav@.map_values(|k: String| k@)[i as int] == wrav@[i as int]@);
            }
        }
        pairs.push(KeyPair { superanti_key: s, webroot_key: w });
        i = i + 1;
    }
    pairs
}

/// The licence server an order's keys are asked of: PCL for an eight-byte
/// order number, PrestaShop otherwise.
pub fn licence_company(so_number: &str) -> (c: &'static str)
    ensures
        c@ == if so_number.len() == 8 { "pcl"@ } else { "prestashop"@ },
{
    if so_number.len() == 8 { "pcl" } else { "prestashop" }
}

/// The fields of the TUR sheet the checks read.
pub struct TicketForm {
    pub service_number: String,
    pub customer_name: String,
    pub phone_number: String,
    pub salesman: String,
    pub tech: String,
    pub send_specs: bool,
    pub cpu: String,
    pub ram: String,
    pub recommendations: String,
}

/// Whether the order can be pulled: there is a service number, or a phone number.
pub fn can_pull_order(form: &TicketForm) -> (b: bool)
    ensures
        b == (form.service_number@.len() > 0 || form.phone_number@.len() > 0),
{
    form.service_number.as_str().unicode_len() > 0 || form.phone_number.as_str().unicode_len() > 0
}

/// Whether pressing enter in the service number field pulls the order: the
/// number is longer than six bytes.
pub fn enter_pulls_order(service_number: &str) -> (b: bool)
    ensures
        b == (service_number.len() > 6),
{
    service_number.len() > 6
}

/// Whether the machine's specs are in: on Windows they must be sent and the
/// CPU known; elsewhere CPU and RAM must be known.
pub open spec fn specs_ready(form: TicketForm, windows: bool) -> bool {
    if windows {
        form.send_specs && form.cpu@.len() > 0
    } else {
        form.cpu@.len() > 0 && form.ram@.len() > 0
    }
}

/// Whether the sheet may be submitted: service number, customer name, phone
/// number, assignee and tech filled in, and the machine's specs ready.
pub open spec fn submittable(form: TicketForm, windows: bool) -> bool {
    form.service_number@.len() > 0 && form.customer_name@.len() > 0 && form.phone_number@.len() > 0
        && form.salesman@.len() > 0 && form.tech@.len() > 0 && specs_ready(form, windows)
}

/// Whether the sheet may be submitted.
pub fn can_submit(form: &TicketForm, windows: bool) -> (b: bool)
    ensures
        b == submittable(*form, windows),
{
    let specs = if windows {
        form.send_specs && form.cpu.as_str().unicode_len() > 0
    } else {
        form.cpu.as_str().unicode_len() > 0 && form.ram.as_str().unicode_len() > 0
    };
    form.service_number.as_str().unicode_len() > 0 && form.customer_name.as_str().unicode_len() > 0
        && form.phone_number.as_str().unicode_len() > 0 && form.salesman.as_str().unicode_len() > 0
        && form.tech.as_str().unicode_len() > 0 && specs
}

/// The fields shown as missing: service number, customer name, phone number,
/// assignee, tech, CPU, recommendations, each flagged when empty.
pub fn missing_fields(form: &TicketForm) -> (flags: [bool; 7])
    ensures
        flags@ == seq![form.service_number@.len() == 0, form.customer_name@.len() == 0,
            form.phone_number@.len() == 0, form.salesman@.len() == 0, form.tech@.len() == 0,
            form.cpu@.len() == 0, form.recommendations@.len() == 0],
{
    let flags = [
        form.service_number.as_str().unicode_len() == 0,
        form.customer_name.as_str().unicode_len() == 0,
        form.phone_number.as_str().unicode_len() == 0,
        form.salesman.as_str().unicode_len() == 0,
        form.tech.as_str().unicode_len() == 0,
        form.cpu.as_str().unicode_len() == 0,
        form.recommendations.as_str().unicode_len() == 0,
    ];
    assert(flags@ =~= seq![form.service_number@.len() == 0, form.customer_name@.len() == 0,
        form.phone_number@.len() == 0, form.salesman@.len() == 0, form.tech@.len() == 0,
        form.cpu@.len() == 0, form.recommendations@.len() == 0]);
    flags
}

/// What an order is looked up by: its service number when one is typed,
/// else the customer's phone number.
pub enum OrderLookup {
    ServiceNumber(String),
    Phone(String),
}

/// What the pull looks the order up by, both fields trimmed; or the message
/// asking for one when both are blank.
pub fn order_lookup(service_number: &str, phone_number: &str) -> (r: Result<OrderLookup, &'static str>)
    ensures
        match r {
            Ok(OrderLookup::ServiceNumber(s)) => trimmed(service_number@).len() > 0 && s@ == trimmed(service_number@),
            Ok(OrderLookup::Phone(p)) => trimmed(service_number@).len() == 0 && trimmed(phone_number@).len() > 0
                && p@ == trimmed(phone_number@),
            Err(m) => trimmed(service_number@).len() == 0 && trimmed(phone_number@).len() == 0
                && m@ == "Enter a service number or a phone number first"@,
        },
{
    let input = trim(service_number);
    let phone = trim(phone_number);
    if input.as_str().unicode_len() > 0 {
        Ok(OrderLookup::ServiceNumber(input))
    } else if phone.as_str().unicode_len() > 0 {
        Ok(OrderLookup::Phone(phone))
    } else {
        Err("Enter a service number or a phone number first")
    }
}

/// Each required field is required on its own: a sheet can be submitted
/// only with a service number, a customer name, a phone number, an assignee
/// and a tech, and with the specs in (sent and the CPU known on Windows, CPU
/// and RAM known elsewhere); and any sheet with all of them can be.
pub proof fn lemma_submit_needs_every_required_field(form: TicketForm, windows: bool)
    ensures
        submittable(form, windows) ==> form.service_number@.len() > 0,
        submittable(form, windows) ==> form.customer_name@.len() > 0,
        submittable(form, windows) ==> form.phone_number@.len() > 0,
        submittable(form, windows) ==> form.salesman@.len() > 0,
        submittable(form, windows) ==> form.tech@.len() > 0,
        submittable(form, windows) && windows ==> form.send_specs && form.cpu@.len() > 0,
        submittable(form, windows) && !windows ==> form.cpu@.len() > 0 && form.ram@.len() > 0,
        form.service_number@.len() > 0 && form.customer_name@.len() > 0 && form.phone_number@.len() > 0
            && form.salesman@.len() > 0 && form.tech@.len() > 0 && (if windows {
                form.send_specs && form.cpu@.len() > 0
            } else {
                form.cpu@.len() > 0 && form.ram@.len() > 0
            }) ==> submittable(form, windows),
{
}

/// A SUPERAntiSpyware licence adds its key to the SUPERAntiSpyware keys
/// and never to the Webroot ones, and the other way round; a licence of any
/// other type adds to neither. So every slot pairs keys of the right kinds.
pub proof fn lemma_licence_keys_sorted_by_kind(licences: Seq<(Seq<char>, Seq<char>)>, key: Seq<char>,
    other: Seq<char>)
    ensures
        keys_of(licences.push(("SAS"@, key)), "SAS"@) == keys_of(licences, "SAS"@).push(key),
        keys_of(licences.push(("SAS"@, key)), "WRAV"@) == keys_of(licences, "WRAV"@),
        keys_of(licences.push(("WRAV"@, key)), "WRAV"@) == keys_of(licences, "WRAV"@).push(key),
        keys_of(licences.push(("WRAV"@, key)), "SAS"@) == keys_of(licences, "SAS"@),
        other != "SAS"@ && other != "WRAV"@ ==> keys_of(licences.push((other, key)), "SAS"@)
            == keys_of(licences, "SAS"@) && keys_of(licences.push((other, key)), "WRAV"@)
            == keys_of(licences, "WRAV"@),
{
    reveal_strlit("SAS");
    reveal_strlit("WRAV");
    assert("SAS"@ != "WRAV"@) by {
        assert("SAS"@.len() != "WRAV"@.len());
    }
    assert(licences.push(("SAS"@, key)).drop_last() =~= licences);
    assert(licences.push(("WRAV"@, key)).drop_last() =~= licences);
    assert(licences.push((other, key)).drop_last() =~= licences);
}

} // verus!
