//! The rows of the script details card, the category cards' selection
//! controls, the Data Transfer picker and the reboot prompt.
use vstd::prelude::*;
use crate::text::{owned, push_str, push_decimal, decimal, trim, trimmed, str_eq, PanelRow, row_views, optional_row,
    push_optional};
use crate::remote::replies::join;
use crate::dates::signed_decimal;
use crate::scripts::{Requirement, RebootHint, budget_text, requirement_text, format_budget, requirements_text,
    reboot_label, elevation_label};

verus! {

/// The rows the details card shows for a script of the catalog: category,
/// time limit, elevation, then what it needs, whether it reboots and how
/// many scripts it runs, each only when there is something to say.
pub open spec fn definition_facts(category: Seq<char>, timeout_secs: nat, admin: bool, reqs: Seq<Requirement>,
    reboot: RebootHint, runs: nat) -> Seq<(Seq<char>, Seq<char>)>
{
    seq![("Category"@, category), ("Time limit"@, budget_text(timeout_secs)),
        ("Elevation"@, if admin { "Administrator"@ } else { "Not required"@ })]
    + optional_row("Needs"@, if reqs.len() > 0 {
        Some(join(reqs.map_values(|r: Requirement| requirement_text(r)), ", "@))
    } else {
        None
    })
    + optional_row("Reboot"@, match reboot {
        RebootHint::Never => None,
        RebootHint::Maybe => Some("Sometimes"@),
        RebootHint::Always => Some("Always"@),
    })
    + optional_row("Runs"@, if runs > 0 { Some(decimal(runs) + " scripts in order"@) } else { None })
}

/// The rows the details card shows for a script of the catalog.
pub fn definition_rows(category: &str, timeout_secs: u64, admin: bool, reqs: &Vec<Requirement>, reboot: RebootHint,
    runs: u64) -> (rows: Vec<PanelRow>)
    ensures
        row_views(rows@) == definition_facts(category@, timeout_secs as nat, admin, reqs@, reboot, runs as nat),
{
    let rows0 = vec![(owned("Category"), owned(category)), (owned("Time limit"), format_budget(timeout_secs)),
        (owned("Elevation"), owned(elevation_label(admin)))];
    let mut rows = rows0;
    proof {
        assert(row_views(rows@) =~= seq![("Category"@, category@), ("Time limit"@, budget_text(timeout_secs as nat)),
            ("Elevation"@, if admin { "Administrator"@ } else { "Not required"@ })]);
    }
    let needs = if reqs.len() > 0 { Some(requirements_text(reqs)) } else { None };
    push_optional(&mut rows, "Needs", needs);
    let reboot_text = match reboot_label(reboot) {
        Some(t) => Some(owned(t)),
        None => None,
    };
    push_optional(&mut rows, "Reboot", reboot_text);
    let runs_text = if runs > 0 {
        let mut s = String::new();
        push_decimal(&mut s, runs);
        push_str(&mut s, " scripts in order");
        Some(s)
    } else {
        None
    };
    push_optional(&mut rows, "Runs", runs_text);
    proof {
        assert(row_views(rows@) =~= definition_facts(category@, timeout_secs as nat, admin, reqs@, reboot, runs as nat));
    }
    rows
}

/// The text about a script: its detail, or its summary when the detail is
/// blank; nothing when that is blank too.
pub fn about_text(detail: &str, summary: &str) -> (r: Option<String>)
    ensures
        ({
            let about = if trimmed(detail@).len() == 0 { summary@ } else { detail@ };
            match r {
                Some(s) => trimmed(about).len() > 0 && s@ == about,
                None => trimmed(about).len() == 0,
            }
        }),
{
    let d = trim(detail);
    let about = if d.as_str().unicode_len() == 0 { summary } else { detail };
    let a = trim(about);
    if a.as_str().unicode_len() > 0 { Some(owned(about)) } else { None }
}

/// The pass, warn and fail criteria a script states, in that order, each
/// with its badge; those it does not state are left out.
pub open spec fn criteria_facts(pass: Option<Seq<char>>, warn: Option<Seq<char>>, fail: Option<Seq<char>>)
    -> Seq<(Seq<char>, Seq<char>)>
{
    optional_row("PASS"@, pass) + optional_row("WARN"@, warn) + optional_row("FAIL"@, fail)
}

/// The view of an optional text.
pub open spec fn opt_view(o: Option<&str>) -> Option<Seq<char>> {
    match o {
        Some(s) => Some(s@),
        None => None,
    }
}

fn owned_opt(o: Option<&str>) -> (r: Option<String>)
    ensures
        match r { Some(s) => Some(s@), None => None } == opt_view(o),
{
    match o {
        Some(s) => Some(owned(s)),
        None => None,
    }
}

/// The criteria rows of the details card.
pub fn criteria_rows(pass: Option<&str>, warn: Option<&str>, fail: Option<&str>) -> (rows: Vec<PanelRow>)
    ensures
        row_views(rows@) == criteria_facts(opt_view(pass), opt_view(warn), opt_view(fail)),
{
    let mut rows: Vec<PanelRow> = Vec::new();
    proof {
        assert(row_views(rows@) =~= Seq::<(Seq<char>, Seq<char>)>::empty());
    }
    push_optional(&mut rows, "PASS", owned_opt(pass));
    push_optional(&mut rows, "WARN", owned_opt(warn));
    push_optional(&mut rows, "FAIL", owned_opt(fail));
    proof {
        assert(row_views(rows@) =~= criteria_facts(opt_view(pass), opt_view(warn), opt_view(fail)));
    }
    rows
}

/// The rows the details card shows for a finished run, after its result and
/// duration: exit code, run id, and the reboot it recommends, when known.
pub open spec fn outcome_facts(exit_code: Option<i32>, run_id: Option<Seq<char>>, reboot: bool)
    -> Seq<(Seq<char>, Seq<char>)>
{
    optional_row("Exit code"@, match exit_code { Some(c) => Some(signed_decimal(c as int)), None => None })
    + optional_row("Run id"@, run_id)
    + optional_row("Reboot"@, if reboot { Some("Recommended"@) } else { None })
}

fn signed_text(n: i32) -> (s: String)
    ensures
        s@ == signed_decimal(n as int),
{
    let wide = n as i64;
    if wide < 0 {
        let mut s = owned("-");
        push_decimal(&mut s, (-wide) as u64);
        s
    } else {
        let mut s = String::new();
        push_decimal(&mut s, wide as u64);
        s
    }
}

/// The rows of a finished run.
pub fn outcome_rows(exit_code: Option<i32>, run_id: Option<&str>, reboot: bool) -> (rows: Vec<PanelRow>)
    ensures
        row_views(rows@) == outcome_facts(exit_code, opt_view(run_id), reboot),
{
    let mut rows: Vec<PanelRow> = Vec::new();
    proof {
        assert(row_views(rows@) =~= Seq::<(Seq<char>, Seq<char>)>::empty());
    }
    let code = match exit_code {
        Some(c) => Some(signed_text(c)),
        None => None,
    };
    push_optional(&mut rows, "Exit code", code);
    push_optional(&mut rows, "Run id", owned_opt(run_id));
    push_optional(&mut rows, "Reboot", if reboot { Some(owned("Recommended")) } else { None });
    proof {
        assert(row_views(rows@) =~= outcome_facts(exit_code, opt_view(run_id), reboot));
    }
    rows
}

/// The button of a category card: "None" clears the category's selection
/// when some of it is picked, "All" selects it all otherwise.
pub fn category_toggle(picked: u64) -> (r: (&'static str, bool))
    ensures
        r.0@ == (if picked > 0 { "None"@ } else { "All"@ }),
        r.1 == (picked == 0),
{
    if picked > 0 { ("None", false) } else { ("All", true) }
}

/// How many of a category's scripts are picked, as its card shows it.
pub fn picked_label(picked: u64, total: u64) -> (s: String)
    ensures
        s@ == decimal(picked as nat) + "/"@ + decimal(total as nat),
{
    let mut s = String::new();
    push_decimal(&mut s, picked);
    push_str(&mut s, "/");
    push_decimal(&mut s, total);
    s
}

/// A profile offered in the Data Transfer picker: its path and its size.
pub fn source_label(path: &str, size: &str) -> (s: String)
    ensures
        s@ == path@ + " ("@ + size@ + ")"@,
{
    let mut s = owned(path);
    push_str(&mut s, " (");
    push_str(&mut s, size);
    push_str(&mut s, ")");
    s
}

/// The picker's sources after the box of `path` changed to `checked`:
/// checked adds it at the end, unchecked removes every mention of it.
pub fn toggle_source(selected: &mut Vec<String>, path: &str, checked: bool)
    ensures
        final(selected)@.map_values(|p: String| p@) == if checked {
            old(selected)@.map_values(|p: String| p@).push(path@)
        } else {
            old(selected)@.map_values(|p: String| p@).filter(|p: Seq<char>| p != path@)
        },
{
    let ghost before = selected@.map_values(|p: String| p@);
    if checked {
        selected.push(owned(path));
        assert(selected@.map_values(|p: String| p@) =~= before.push(path@));
        return;
    }
    let mut kept: Vec<String> = Vec::new();
    let mut i: usize = 0;
    while i < selected.len()
        invariant
            i <= selected@.len(),
            before == selected@.map_values(|p: String| p@),
            kept@.map_values(|p: String| p@) == before.subrange(0, i as int).filter(|p: Seq<char>| p != path@),
        decreases selected@.len() - i,
    {
        let ghost k0 = kept@.map_values(|p: String| p@);
        proof {
            assert(before.subrange(0, i + 1) =~= before.subrange(0, i as int).push(before[i as int]));
            before.subrange(0, i as int).lemma_filter_push(before[i as int], |p: Seq<char>| p != path@);
        }
        if !str_eq(selected[i].as_str(), path) {
            kept.push(selected[i].clone());
            assert(kept@.map_values(|p: String| p@) =~= k0.push(before[i as int]));
        }
        i = i + 1;
    }
    proof {
        assert(before.subrange(0, i as int) =~= before);
    }
    *selected = kept;
}

/// Whether the transfer may start: some source is picked and a destination chosen.
pub fn transfer_ready(sources: usize, destination: Option<&str>) -> (b: bool)
    ensures
        b == (sources > 0 && destination is Some),
{
    sources > 0 && destination.is_some()
}

/// What the reboot prompt does when answered.
#[derive(PartialEq, Eq, Structural, Clone, Copy, Debug)]
pub enum RebootAnswer {
    /// Reboot now (relaunching the console after logon) and close the prompt.
    RebootNow,
    /// Close the prompt.
    Close,
    /// Keep showing it.
    Keep,
}

/// The reboot prompt's answer: "Reboot now" wins; "Later" or a click
/// outside closes it; else it stays.
pub fn reboot_answer(reboot: bool, later: bool, dismissed: bool) -> (a: RebootAnswer)
    ensures
        a == if reboot { RebootAnswer::RebootNow } else if later || dismissed { RebootAnswer::Close } else { RebootAnswer::Keep },
{
    if reboot { RebootAnswer::RebootNow } else if later || dismissed { RebootAnswer::Close } else { RebootAnswer::Keep }
}

} // verus!
