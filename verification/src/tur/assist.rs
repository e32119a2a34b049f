//! The AI-assist prompt offered after an order is pulled, and the live view
//! of the diagnostic the technician asked for.
use vstd::prelude::*;
use crate::text::{owned, push_str, trim, trimmed, chars_of, str_eq};

verus! {

/// What the last poll found of the diagnostic run for this machine.
pub struct Snapshot {
    pub request_status: Option<String>,
    pub request_error: Option<String>,
    pub session_key: Option<String>,
    pub session_status: Option<String>,
    pub diagnosed: bool,
    pub summary: Option<String>,
    /// `(category, title)`, oldest first.
    pub entries: Vec<(String, String)>,
}

impl Snapshot {
    /// Nothing found yet.
    pub fn default() -> (s: Snapshot)
        ensures
            s.request_status is None && s.request_error is None && s.session_key is None
                && s.session_status is None && !s.diagnosed && s.summary is None && s.entries@.len() == 0,
    {
        Snapshot {
            request_status: None,
            request_error: None,
            session_key: None,
            session_status: None,
            diagnosed: false,
            summary: None,
            entries: Vec::new(),
        }
    }
}

/// How a stage of the run reads.
#[derive(PartialEq, Eq, Structural, Clone, Copy, Debug)]
pub enum StageKind {
    Live,
    Done,
    Bad,
}

/// Where the run has got to, and how it reads: a diagnosis ends it; a
/// session decides next (closed when resolved or escalated, else working);
/// without one, the request's status says what happened.
pub open spec fn stage_of(diagnosed: bool, session: Option<Seq<char>>, request: Option<Seq<char>>) -> (Seq<char>, StageKind) {
    if diagnosed {
        ("Root cause identified"@, StageKind::Done)
    } else {
        match session {
            Some(s) => if s == "resolved"@ || s == "escalated"@ {
                ("Diagnostic closed"@, StageKind::Done)
            } else {
                ("Agent working on this machine"@, StageKind::Live)
            },
            None => match request {
                Some(r) => if r == "failed"@ {
                    ("Could not reach the agent"@, StageKind::Bad)
                } else if r == "completed"@ {
                    ("Agent finished without opening a session"@, StageKind::Bad)
                } else if r == "dispatched"@ {
                    ("Handed to the agent \u{2014} starting up"@, StageKind::Live)
                } else if r == "pending"@ {
                    ("Queued"@, StageKind::Live)
                } else {
                    ("Requesting\u{2026}"@, StageKind::Live)
                },
                None => ("Requesting\u{2026}"@, StageKind::Live),
            },
        }
    }
}

/// The view of an optional string.
pub open spec fn opt(o: Option<String>) -> Option<Seq<char>> {
    match o { Some(s) => Some(s@), None => None }
}

/// One line naming where the run has got to, plus how it reads.
pub fn stage(s: &Snapshot) -> (r: (&'static str, StageKind))
    ensures
        (r.0@, r.1) == stage_of(s.diagnosed, opt(s.session_status), opt(s.request_status)),
{
    if s.diagnosed {
        return ("Root cause identified", StageKind::Done);
    }
    match &s.session_status {
        Some(st) => if str_eq(st.as_str(), "resolved") || str_eq(st.as_str(), "escalated") {
            ("Diagnostic closed", StageKind::Done)
        } else {
            ("Agent working on this machine", StageKind::Live)
        },
        None => match &s.request_status {
            Some(r) => if str_eq(r.as_str(), "failed") {
                ("Could not reach the agent", StageKind::Bad)
            } else if str_eq(r.as_str(), "completed") {
                ("Agent finished without opening a session", StageKind::Bad)
            } else if str_eq(r.as_str(), "dispatched") {
                ("Handed to the agent \u{2014} starting up", StageKind::Live)
            } else if str_eq(r.as_str(), "pending") {
                ("Queued", StageKind::Live)
            } else {
                ("Requesting\u{2026}", StageKind::Live)
            },
            None => ("Requesting\u{2026}", StageKind::Live),
        },
    }
}

/// A run whose root cause is identified reads as done, whatever else the
/// poll found.
pub proof fn lemma_diagnosis_ends_run(session: Option<Seq<char>>, request: Option<Seq<char>>)
    ensures
        stage_of(true, session, request).1 == StageKind::Done,
{
}

/// How an entry of the run's log is coloured.
#[derive(PartialEq, Eq, Structural, Clone, Copy, Debug)]
pub enum CategoryTone {
    Error,
    Info,
    Success,
    Weak,
}

/// How an entry of `category` is coloured.
pub fn category_tone(category: &str) -> (t: CategoryTone)
    ensures
        t == if category@ == "error"@ || category@ == "security_alert"@ {
            CategoryTone::Error
        } else if category@ == "finding"@ || category@ == "recommendation"@ {
            CategoryTone::Info
        } else if category@ == "action"@ {
            CategoryTone::Success
        } else {
            CategoryTone::Weak
        },
{
    if str_eq(category, "error") || str_eq(category, "security_alert") {
        CategoryTone::Error
    } else if str_eq(category, "finding") || str_eq(category, "recommendation") {
        CategoryTone::Info
    } else if str_eq(category, "action") {
        CategoryTone::Success
    } else {
        CategoryTone::Weak
    }
}

/// Milliseconds between polls of a run.
pub const POLL_MS: u64 = 3000;

/// Whether a poll is due: none was made yet, or the last one is old enough.
pub fn poll_due(since_last_ms: Option<u64>, every_ms: u64) -> (b: bool)
    ensures
        b == match since_last_ms { None => true, Some(e) => e >= every_ms },
{
    match since_last_ms {
        None => true,
        Some(e) => e >= every_ms,
    }
}

/// The first `n` characters of `s`.
pub fn first_chars(s: &str, n: usize) -> (r: String)
    ensures
        r@ == if s@.len() <= n { s@ } else { s@.subrange(0, n as int) },
{
    let len = s.unicode_len();
    if len <= n {
        owned(s)
    } else {
        s.substring_char(0, n).to_owned()
    }
}

/// The run's log entries from the rows polled, each (category, title): a
/// row without a title is left out, one without a category is a note.
pub open spec fn entries_of(rows: Seq<(Option<Seq<char>>, Option<Seq<char>>)>) -> Seq<(Seq<char>, Seq<char>)>
    decreases rows.len(),
{
    if rows.len() == 0 {
        Seq::empty()
    } else {
        let rest = entries_of(rows.drop_last());
        let (c, t) = rows.last();
        match t {
            Some(title) => rest.push((match c { Some(c) => c, None => "note"@ }, title)),
            None => rest,
        }
    }
}

/// The run's log entries from the rows polled.
pub fn snapshot_entries(rows: &Vec<(Option<String>, Option<String>)>) -> (entries: Vec<(String, String)>)
    ensures
        entries@.map_values(|e: (String, String)| (e.0@, e.1@))
            == entries_of(rows@.map_values(|r: (Option<String>, Option<String>)| (opt(r.0), opt(r.1)))),
{
    let ghost rv = rows@.map_values(|r: (Option<String>, Option<String>)| (opt(r.0), opt(r.1)));
    let mut entries: Vec<(String, String)> = Vec::new();
    let mut i: usize = 0;
    while i < rows.len()
        invariant
            i <= rows@.len(),
            rv == rows@.map_values(|r: (Option<String>, Option<String>)| (opt(r.0), opt(r.1))),
            entries@.map_values(|e: (String, String)| (e.0@, e.1@)) == entries_of(rv.subrange(0, i as int)),
        decreases rows@.len() - i,
    {
        proof {
            assert(rv.subrange(0, i + 1).drop_last() =~= rv.subrange(0, i as int));
        }
        match &rows[i].1 {
            Some(title) => {
                let c = match &rows[i].0 {
                    Some(c) => owned(c.as_str()),
                    None => owned("note"),
                };
                entries.push((c, owned(title.as_str())));
            },
            None => {},
        }
        i = i + 1;
        proof {
            assert(entries@.map_values(|e: (String, String)| (e.0@, e.1@)) =~= entries_of(rv.subrange(0, i as int)));
        }
    }
    proof {
        assert(rv.subrange(0, i as int) =~= rv);
    }
    entries
}

/// Order and machine identity captured at pull time, pending the tech's answer.
pub struct PendingAssist {
    pub service_number: String,
    pub order_device: String,
    pub order_serial: String,
    pub customer_name: String,
    /// Check-in notes, shown when the agent resolved the match itself.
    pub checkin_notes: String,
    /// Set when the agent resolved this machine itself.
    pub offer_id: Option<String>,
}

/// The first device of a pulled order: maker, model, serial, check-in notes.
pub struct OrderDevice {
    pub device_mfg: String,
    pub device_model: String,
    pub device_serial: String,
    pub check_in_notes: String,
}

/// Arms the prompt from a fresh pull: nothing for a blank service number;
/// else the order's first device, its maker and model trimmed together.
pub fn arm_assist_prompt(service_number: String, customer_name: String, device: Option<&OrderDevice>)
    -> (p: Option<PendingAssist>)
    ensures
        trimmed(service_number@).len() == 0 ==> p is None,
        trimmed(service_number@).len() > 0 ==> p is Some && {
            let a = p.unwrap();
            &&& a.service_number@ == service_number@
            &&& a.customer_name@ == customer_name@
            &&& a.offer_id is None
            &&& match device {
                Some(d) => {
                    &&& a.order_device@ == trimmed(d.device_mfg@ + " "@ + d.device_model@)
                    &&& a.order_serial@ == d.device_serial@
                    &&& a.checkin_notes@ == d.check_in_notes@
                },
                None => a.order_device@.len() == 0 && a.order_serial@.len() == 0 && a.checkin_notes@.len() == 0,
            }
        },
{
    let t = trim(service_number.as_str());
    if t.as_str().unicode_len() == 0 {
        return None;
    }
    let (order_device, order_serial, checkin_notes) = match device {
        Some(d) => {
            let mut both = owned(d.device_mfg.as_str());
            push_str(&mut both, " ");
            push_str(&mut both, d.device_model.as_str());
            (trim(both.as_str()), owned(d.device_serial.as_str()), owned(d.check_in_notes.as_str()))
        },
        None => (String::new(), String::new(), String::new()),
    };
    Some(PendingAssist { service_number, order_device, order_serial, customer_name, checkin_notes, offer_id: None })
}

/// The question the prompt asks.
pub fn prompt_title(p: &PendingAssist) -> (s: String)
    ensures
        s@ == if p.offer_id is Some {
            "Found service #"@ + p.service_number@ + " for this computer - want AI help?"@
        } else {
            "Is service #"@ + p.service_number@ + " for THIS computer?"@
        },
{
    match &p.offer_id {
        Some(_) => {
            let mut s = owned("Found service #");
            push_str(&mut s, p.service_number.as_str());
            push_str(&mut s, " for this computer - want AI help?");
            s
        },
        None => {
            let mut s = owned("Is service #");
            push_str(&mut s, p.service_number.as_str());
            push_str(&mut s, " for THIS computer?");
            s
        },
    }
}

/// What the technician did with the prompt showing.
#[derive(PartialEq, Eq, Structural, Clone, Copy, Debug)]
pub enum PromptAnswer {
    /// Nothing yet.
    Nothing,
    /// "Yes, get AI help".
    Confirm,
    /// "Not this one".
    Dismiss,
}

/// What answering the prompt leads to.
pub enum AssistPromptAction {
    /// Nothing to do.
    Nothing,
    /// Record the offer as declined by the technician `by`.
    Declined { offer_id: Option<String>, by: String },
    /// Record the offer as accepted by `by`, link the machine to the order,
    /// show the diagnostic's progress for `service_number` and ask the agent
    /// to start.
    Accepted { offer_id: Option<String>, by: String, service_number: String },
}

/// The prompt after the technician's answer: with nobody signed in the prompt
/// goes away unanswered; "Not this one" declines the offer, "Yes" accepts it,
/// and either way the prompt goes away; no answer leaves it showing.
pub fn answer_assist_prompt(pending: &mut Option<PendingAssist>, signed_in: Option<&str>, answer: PromptAnswer)
    -> (action: AssistPromptAction)
    ensures
        match *old(pending) {
            None => *final(pending) is None && action is Nothing,
            Some(p) => match signed_in {
                None => *final(pending) is None && action is Nothing,
                Some(user) => match answer {
                    PromptAnswer::Nothing => *final(pending) == *old(pending) && action is Nothing,
                    PromptAnswer::Dismiss => *final(pending) is None && (action matches
                        AssistPromptAction::Declined { offer_id, by } && by@ == user@ && offer_id == p.offer_id),
                    PromptAnswer::Confirm => *final(pending) is None && (action matches
                        AssistPromptAction::Accepted { offer_id, by, service_number } && by@ == user@
                        && offer_id == p.offer_id && service_number@ == p.service_number@),
                },
            },
        },
{
    if pending.is_none() {
        return AssistPromptAction::Nothing;
    }
    let user = match signed_in {
        None => {
            *pending = None;
            return AssistPromptAction::Nothing;
        },
        Some(u) => u,
    };
    match answer {
        PromptAnswer::Nothing => AssistPromptAction::Nothing,
        PromptAnswer::Dismiss => {
            let p = pending.take();
            match p {
                Some(p) => AssistPromptAction::Declined { offer_id: p.offer_id, by: owned(user) },
                None => AssistPromptAction::Nothing,
            }
        },
        PromptAnswer::Confirm => {
            let p = pending.take();
            match p {
                Some(p) => AssistPromptAction::Accepted {
                    offer_id: p.offer_id,
                    by: owned(user),
                    service_number: p.service_number,
                },
                None => AssistPromptAction::Nothing,
            }
        },
    }
}

/// The check-in notes line, at most 120 characters of them.
pub fn checkin_line(notes: &str) -> (s: String)
    ensures
        s@ == "Checked in for: "@ + if notes@.len() <= 120 { notes@ } else { notes@.subrange(0, 120) },
{
    let mut s = owned("Checked in for: ");
    let n = first_chars(notes, 120);
    push_str(&mut s, n.as_str());
    s
}

/// The key of an offer's record id: its table prefix, however often
/// repeated, and surrounding backticks dropped.
pub open spec fn offer_key_of(id: Seq<char>) -> Seq<char>
    decreases id.len(),
{
    let prefix = "assist_offer:"@;
    if prefix.len() > 0 && id.len() >= prefix.len() && id.subrange(0, prefix.len() as int) == prefix {
        offer_key_of(id.skip(prefix.len() as int))
    } else {
        strip_ticks(id)
    }
}

/// `s` without backticks at either end.
pub open spec fn strip_ticks(s: Seq<char>) -> Seq<char>
    decreases s.len(),
{
    if s.len() > 0 && s[0] == '`' {
        strip_ticks(s.skip(1))
    } else if s.len() > 0 && s.last() == '`' {
        strip_ticks(s.drop_last())
    } else {
        s
    }
}

/// The key of an offer's record id, as the prompt stores it.
pub fn offer_key(id: &str) -> (k: String)
    ensures
        k@ == offer_key_of(id@),
{
    proof {
        reveal_strlit("assist_offer:");
    }
    let v = chars_of(id);
    let p = chars_of("assist_offer:");
    let mut a: usize = 0;
    proof {
        assert(id@.skip(0) =~= id@);
    }
    while p.len() <= v.len() - a && crate::text::contains_at(&v, &p, a)
        invariant
            v@ == id@,
            p@ == "assist_offer:"@,
            p@.len() > 0,
            a <= v@.len(),
            offer_key_of(id@) == offer_key_of(id@.skip(a as int)),
        decreases v@.len() - a,
    {
        proof {
            let rest = id@.skip(a as int);
            assert(rest.subrange(0, p@.len() as int) =~= v@.subrange(a as int, a + p@.len()));
            assert(rest.skip(p@.len() as int) =~= id@.skip(a + p@.len()));
        }
        a = a + p.len();
    }
    proof {
        let rest = id@.skip(a as int);
        if p@.len() <= rest.len() {
            assert(rest.subrange(0, p@.len() as int) =~= v@.subrange(a as int, a + p@.len()));
        }
        assert(offer_key_of(id@) == strip_ticks(rest));
    }
    let mut lo: usize = a;
    let mut hi: usize = v.len();
    proof {
        assert(id@.subrange(a as int, v@.len() as int) =~= id@.skip(a as int));
    }
    while lo < hi && (v[lo] == '`' || v[hi - 1] == '`')
        invariant
            v@ == id@,
            a <= lo <= hi <= v@.len(),
            offer_key_of(id@) == strip_ticks(id@.subrange(lo as int, hi as int)),
        decreases hi - lo,
    {
        let ghost cur = id@.subrange(lo as int, hi as int);
        if v[lo] == '`' {
            proof {
                assert(cur.skip(1) =~= id@.subrange(lo + 1, hi as int));
            }
            lo = lo + 1;
        } else {
            proof {
                assert(cur.drop_last() =~= id@.subrange(lo as int, hi - 1));
            }
            hi = hi - 1;
        }
    }
    id.substring_char(lo, hi).to_owned()
}

/// Seconds between polls for an offer.
pub const OFFER_POLL_SECS: u64 = 20;

/// Whether to poll for an offer now: nothing is pending, someone is signed
/// in, and no poll was made in the last twenty seconds.
pub fn offer_poll_due(has_pending: bool, signed_in: bool, since_last_secs: Option<u64>) -> (b: bool)
    ensures
        b == (!has_pending && signed_in && match since_last_secs { None => true, Some(e) => e >= OFFER_POLL_SECS }),
{
    !has_pending && signed_in && match since_last_secs {
        None => true,
        Some(e) => e >= OFFER_POLL_SECS,
    }
}

} // verus!
