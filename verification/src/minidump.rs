//! The minidump tab: the arguments it is started with, and for a kernel
//! crash the signature it is filed under, the excerpt and offsets recorded
//! with a sighting, the fleet's answer as the view shows it, and the state
//! of the lookups and recordings in flight. Reading dumps and the fleet
//! database stay with the caller.
use vstd::prelude::*;
use crate::text::{owned, push_str, push_char, push_decimal, decimal, chars_of, str_eq, str_contains, seq_contains,
    trim};
use crate::remote::replies::join;

pub mod modules;
pub mod memory;

verus! {

/// Minidump tab inputs parsed by the top-level command line.
pub struct MinidumpArgs {
    pub minidumps: Vec<String>,
    pub symbols_path: Vec<String>,
    pub symbols_url: Vec<String>,
}

impl MinidumpArgs {
    /// No dump, no symbol path, no symbol server.
    pub fn default() -> (a: MinidumpArgs)
        ensures
            a.minidumps@.len() == 0 && a.symbols_path@.len() == 0 && a.symbols_url@.len() == 0,
    {
        MinidumpArgs { minidumps: Vec::new(), symbols_path: Vec::new(), symbols_url: Vec::new() }
    }
}

/// The module a crash is filed under: the blamed one, else the one holding
/// the instruction pointer, else "unknown".
pub fn signature_module(blamed_module: Option<&str>, rip_module: Option<&str>) -> (s: String)
    ensures
        s@ == match blamed_module {
            Some(b) => b@,
            None => match rip_module { Some(r) => r@, None => "unknown"@ },
        },
{
    match blamed_module {
        Some(b) => owned(b),
        None => match rip_module {
            Some(r) => owned(r),
            None => owned("unknown"),
        },
    }
}

/// What follows the last `/` or `\` of `path`.
pub open spec fn base_name(path: Seq<char>) -> Seq<char>
    decreases path.len(),
{
    if path.len() == 0 {
        path
    } else if path.last() == '/' || path.last() == '\\' {
        Seq::empty()
    } else {
        base_name(path.drop_last()).push(path.last())
    }
}

/// The name the dump is shown and recorded under: its file name.
pub fn dump_name(picked_path: &str) -> (s: String)
    ensures
        s@ == base_name(picked_path@),
{
    let v = chars_of(picked_path);
    let mut start: usize = v.len();
    proof {
        assert(picked_path@.subrange(0, start as int) =~= picked_path@);
        assert(picked_path@.subrange(start as int, picked_path@.len() as int) =~= Seq::<char>::empty());
        assert(base_name(picked_path@) =~= base_name(picked_path@) + Seq::<char>::empty());
    }
    while start > 0 && v[start - 1] != '/' && v[start - 1] != '\\'
        invariant
            v@ == picked_path@,
            start <= v@.len(),
            base_name(picked_path@) == base_name(picked_path@.subrange(0, start as int))
                + picked_path@.subrange(start as int, picked_path@.len() as int),
        decreases start,
    {
        proof {
            let pre = picked_path@.subrange(0, start as int);
            assert(pre.drop_last() =~= picked_path@.subrange(0, start - 1));
            assert(picked_path@.subrange(start - 1, picked_path@.len() as int) =~= seq![pre.last()]
                + picked_path@.subrange(start as int, picked_path@.len() as int));
        }
        start = start - 1;
    }
    proof {
        let pre = picked_path@.subrange(0, start as int);
        assert(base_name(pre) =~= Seq::<char>::empty());
        assert(base_name(picked_path@) =~= picked_path@.subrange(start as int, picked_path@.len() as int));
    }
    picked_path.substring_char(start, v.len()).to_owned()
}

/// The value of a hexadecimal digit.
pub open spec fn hex_value(c: char) -> Option<nat> {
    if '0' <= c && c <= '9' {
        Some((c as nat - '0' as nat) as nat)
    } else if 'a' <= c && c <= 'f' {
        Some((c as nat - 'a' as nat + 10) as nat)
    } else if 'A' <= c && c <= 'F' {
        Some((c as nat - 'A' as nat + 10) as nat)
    } else {
        None
    }
}

/// The number `digits` writes in base sixteen, when each is a hex digit.
pub open spec fn hex_number(digits: Seq<char>) -> Option<nat>
    decreases digits.len(),
{
    if digits.len() == 0 {
        Some(0)
    } else {
        match (hex_number(digits.drop_last()), hex_value(digits.last())) {
            (Some(n), Some(d)) => Some(n * 16 + d),
            _ => None,
        }
    }
}

/// What `u64::from_str_radix(s, 16)` reads: an optional `+`, then at least
/// one hex digit, for a value that fits in 64 bits.
pub open spec fn parse_hex_u64(s: Seq<char>) -> Option<u64> {
    let digits = if s.len() > 0 && s[0] == '+' { s.skip(1) } else { s };
    if digits.len() == 0 {
        None
    } else {
        match hex_number(digits) {
            Some(n) => if n < 0x1_0000_0000_0000_0000 { Some(n as u64) } else { None },
            None => None,
        }
    }
}

/// `s` without the `0x` prefixes it starts with, however many.
pub open spec fn strip_0x(s: Seq<char>) -> Seq<char>
    decreases s.len(),
{
    if s.len() >= 2 && s[0] == '0' && s[1] == 'x' { strip_0x(s.skip(2)) } else { s }
}

fn hex_digit_value(c: char) -> (r: Option<u64>)
    ensures
        match hex_value(c) { Some(v) => r == Some(v as u64), None => r is None },
{
    if '0' <= c && c <= '9' {
        Some(c as u64 - '0' as u64)
    } else if 'a' <= c && c <= 'f' {
        Some(c as u64 - 'a' as u64 + 10)
    } else if 'A' <= c && c <= 'F' {
        Some(c as u64 - 'A' as u64 + 10)
    } else {
        None
    }
}

/// Reads a register value the dump wrote in hex, `0x` prefixes dropped; a
/// value that cannot be read counts as zero.
pub fn parse_register(text: &str) -> (v: u64)
    ensures
        v == match parse_hex_u64(strip_0x(text@)) { Some(n) => n, None => 0 },
{
    let c = chars_of(text);
    let mut i: usize = 0;
    proof {
        assert(text@.skip(0) =~= text@);
    }
    while c.len() - i >= 2 && c[i] == '0' && c[i + 1] == 'x'
        invariant
            c@ == text@,
            i <= c@.len(),
            strip_0x(text@) == strip_0x(text@.skip(i as int)),
        decreases c@.len() - i,
    {
        proof {
            let rest = text@.skip(i as int);
            assert(rest[0] == c@[i as int] && rest[1] == c@[i + 1]);
            assert(rest.skip(2) =~= text@.skip(i + 2));
        }
        i = i + 2;
    }
    let ghost s = text@.skip(i as int);
    proof {
        if s.len() >= 2 {
            assert(s[0] == c@[i as int] && s[1] == c@[i + 1]);
        }
        assert(strip_0x(text@) == s);
    }
    if i < c.len() && c[i] == '+' {
        i = i + 1;
    }
    let ghost digits = text@.skip(i as int);
    proof {
        if s.len() > 0 && s[0] == '+' {
            assert(digits =~= s.skip(1));
        } else {
            assert(digits =~= s);
        }
    }
    if i == c.len() {
        return 0;
    }
    let start = i;
    let mut value: u64 = 0;
    proof {
        assert(digits.subrange(0, 0) =~= Seq::<char>::empty());
        assert(parse_hex_u64(strip_0x(text@)) == match hex_number(digits) {
            Some(n) => if n < 0x1_0000_0000_0000_0000 { Some(n as u64) } else { None },
            None => None,
        });
    }
    while i < c.len()
        invariant
            parse_hex_u64(strip_0x(text@)) == match hex_number(digits) {
                Some(n) => if n < 0x1_0000_0000_0000_0000 { Some(n as u64) } else { None },
                None => None,
            },
            c@ == text@,
            start < c@.len(),
            start <= i <= c@.len(),
            digits == text@.skip(start as int),
            hex_number(digits.subrange(0, i - start)) == Some(value as nat),
        decreases c@.len() - i,
    {
        let ghost pre = digits.subrange(0, i - start + 1);
        proof {
            assert(pre.drop_last() =~= digits.subrange(0, i - start));
            assert(pre.last() == c@[i as int]);
        }
        match hex_digit_value(c[i]) {
            None => {
                proof {
                    lemma_hex_prefix_fails(digits, (i - start + 1) as nat);
                }
                return 0;
            },
            Some(d) => {
                if value > (u64::MAX - d) / 16 {
                    proof {
                        assert(hex_number(pre) == Some((value * 16 + d) as nat));
                        lemma_hex_grows(digits, (i - start + 1) as nat);
                        assert(value * 16 + d > u64::MAX) by (nonlinear_arith)
                            requires value > (u64::MAX - d) / 16, d < 16;
                    }
                    return 0;
                }
                proof {
                    assert(value * 16 + d <= u64::MAX) by (nonlinear_arith)
                        requires value <= (u64::MAX - d) / 16, d < 16;
                }
                value = value * 16 + d;
            },
        }
        i = i + 1;
    }
    proof {
        assert(digits.subrange(0, i - start) =~= digits);
    }
    value
}

proof fn lemma_hex_prefix_fails(digits: Seq<char>, k: nat)
    requires
        k <= digits.len(),
        hex_number(digits.subrange(0, k as int)) is None,
    ensures
        hex_number(digits) is None,
    decreases digits.len() - k,
{
    if k < digits.len() {
        assert(digits.subrange(0, (k + 1) as int).drop_last() =~= digits.subrange(0, k as int));
        lemma_hex_prefix_fails(digits, k + 1);
    } else {
        assert(digits.subrange(0, k as int) =~= digits);
    }
}

proof fn lemma_hex_grows(digits: Seq<char>, k: nat)
    requires
        k <= digits.len(),
    ensures
        match (hex_number(digits.subrange(0, k as int)), hex_number(digits)) {
            (Some(a), Some(b)) => a <= b,
            _ => true,
        },
    decreases digits.len() - k,
{
    if k < digits.len() {
        let p = digits.subrange(0, (k + 1) as int);
        assert(p.drop_last() =~= digits.subrange(0, k as int));
        lemma_hex_grows(digits, k + 1);
        if hex_number(p) is None {
            lemma_hex_prefix_fails(digits, k + 1);
        }
    } else {
        assert(digits.subrange(0, k as int) =~= digits);
    }
}

/// A number in lower-case hex digits, without leading zeros.
pub open spec fn hex_digits(n: nat) -> Seq<char>
    decreases n,
{
    if n < 16 {
        seq![hex_char(n)]
    } else {
        hex_digits(n / 16).push(hex_char(n % 16))
    }
}

/// The lower-case hex digit of `d` (taken modulo sixteen).
pub open spec fn hex_char(d: nat) -> char {
    let r = d % 16;
    if r < 10 { (('0' as nat) + r) as char } else { (('a' as nat) + (r - 10)) as char }
}

fn hex_digit(d: u64) -> (c: char)
    requires
        d < 16,
    ensures
        c == hex_char(d as nat),
{
    let digits: [char; 16] = ['0', '1', '2', '3', '4', '5', '6', '7', '8', '9', 'a', 'b', 'c', 'd', 'e', 'f'];
    let c = digits[d as usize];
    assert(c == hex_char(d as nat)) by {
        assert(digits@[d as int] == c);
    }
    c
}

pub(crate) fn push_hex(s: &mut String, n: u64)
    ensures
        final(s)@ == old(s)@ + hex_digits(n as nat),
    decreases n,
{
    if n >= 16 {
        push_hex(s, n / 16);
    }
    push_char(s, hex_digit(n % 16));
    assert(s@ =~= old(s)@ + hex_digits(n as nat));
}

/// The last `k` hex digits of `n`, zeros in front as needed.
pub open spec fn fixed_hex(n: nat, k: nat) -> Seq<char>
    decreases k,
{
    if k == 0 { Seq::empty() } else { fixed_hex(n / 16, (k - 1) as nat).push(hex_char(n % 16)) }
}

/// Appends the last `k` hex digits of `n`.
pub(crate) fn push_fixed_hex(s: &mut String, n: u64, k: u32)
    ensures
        final(s)@ == old(s)@ + fixed_hex(n as nat, k as nat),
    decreases k,
{
    if k > 0 {
        push_fixed_hex(s, n / 16, k - 1);
        push_char(s, hex_digit(n % 16));
        assert(s@ =~= old(s)@ + fixed_hex(n as nat, k as nat));
    } else {
        assert(s@ =~= old(s)@ + fixed_hex(n as nat, k as nat));
    }
}

/// The offset of the instruction pointer into the module that holds it, as
/// recorded with a sighting: `+0x…` from the module's base (zero when the
/// pointer lies below it); none when the module is not among the drivers.
pub fn rip_offset(rip: &str, module: &str, drivers: &Vec<(String, u64)>) -> (r: Option<String>)
    ensures
        match r {
            Some(s) => exists|k: int| 0 <= k < drivers@.len() && drivers@[k].0@ == module@
                && (forall|j: int| 0 <= j < k ==> #[trigger] drivers@[j].0@ != module@)
                && s@ == "+0x"@ + hex_digits({
                    let v = match parse_hex_u64(strip_0x(rip@)) { Some(n) => n, None => 0 };
                    if v >= drivers@[k].1 { (v - drivers@[k].1) as nat } else { 0 }
                }),
            None => forall|j: int| 0 <= j < drivers@.len() ==> #[trigger] drivers@[j].0@ != module@,
        },
{
    let v = parse_register(rip);
    let mut k: usize = 0;
    while k < drivers.len()
        invariant
            v == match parse_hex_u64(strip_0x(rip@)) { Some(n) => n, None => 0 },
            k <= drivers@.len(),
            forall|j: int| 0 <= j < k ==> #[trigger] drivers@[j].0@ != module@,
        decreases drivers@.len() - k,
    {
        if str_eq(drivers[k].0.as_str(), module) {
            let base = drivers[k].1;
            let off = if v >= base { v - base } else { 0 };
            let mut s = owned("+0x");
            push_hex(&mut s, off);
            proof {
                let kk = k as int;
                assert(drivers@[kk].0@ == module@);
                assert(off as nat == (if v >= drivers@[kk].1 { (v - drivers@[kk].1) as nat } else { 0 }));
            }
            return Some(s);
        }
        k = k + 1;
    }
    None
}

/// The excerpt recorded with a sighting.
pub open spec fn excerpt_text(name: Seq<char>, code: Seq<char>, params: Seq<Seq<char>>, rip: Option<Seq<char>>,
    blamed: Option<Seq<char>>) -> Seq<char>
{
    name + " ("@ + code + ") params: "@ + join(params, ", "@) + " | rip: "@
        + (match rip { Some(r) => r, None => "-"@ }) + " | blame: "@ + (match blamed { Some(b) => b, None => "-"@ })
        + " [dump-triage local parse]"@
}

/// The excerpt recorded with a sighting: bugcheck, parameters, instruction
/// pointer and blamed module, a dash for what is unknown.
pub fn raw_excerpt(name: &str, code: &str, params: &Vec<String>, rip: Option<&str>, blamed: Option<&str>) -> (s: String)
    ensures
        s@ == excerpt_text(name@, code@, params@.map_values(|p: String| p@),
            match rip { Some(r) => Some(r@), None => None }, match blamed { Some(b) => Some(b@), None => None }),
{
    let ghost parts = params@.map_values(|p: String| p@);
    let mut joined = String::new();
    let mut k: usize = 0;
    while k < params.len()
        invariant
            k <= params@.len(),
            parts == params@.map_values(|p: String| p@),
            joined@ == join(parts.subrange(0, k as int), ", "@),
        decreases params@.len() - k,
    {
        if k > 0 {
            push_str(&mut joined, ", ");
        }
        push_str(&mut joined, params[k].as_str());
        k = k + 1;
        proof {
            assert(parts.subrange(0, k as int).drop_last() =~= parts.subrange(0, k - 1));
            if k == 1 {
                assert(joined@ =~= parts.subrange(0, 1)[0]);
            }
        }
    }
    proof {
        assert(parts.subrange(0, k as int) =~= parts);
    }
    let mut s = owned(name);
    push_str(&mut s, " (");
    push_str(&mut s, code);
    push_str(&mut s, ") params: ");
    push_str(&mut s, joined.as_str());
    push_str(&mut s, " | rip: ");
    push_str(&mut s, match rip { Some(r) => r, None => "-" });
    push_str(&mut s, " | blame: ");
    push_str(&mut s, match blamed { Some(b) => b, None => "-" });
    push_str(&mut s, " [dump-triage local parse]");
    s
}

/// How long the machine had been up, in hours and minutes.
pub fn uptime_text(secs: u64) -> (s: String)
    ensures
        s@ == decimal((secs / 3600) as nat) + "h "@ + decimal(((secs % 3600) / 60) as nat) + "m"@,
{
    let mut s = String::new();
    push_decimal(&mut s, secs / 3600);
    push_str(&mut s, "h ");
    push_decimal(&mut s, (secs % 3600) / 60);
    push_str(&mut s, "m");
    s
}

/// A driver the fleet knows to cause crashes.
pub struct KnownBadDriver {
    pub module: String,
    pub symptom: String,
    pub fix: String,
}

/// The known-bad drivers among the loaded ones, each as the driver's name
/// and the row it matched: every (driver, row) pair whose module is the
/// driver's stem, drivers in load order, rows in the fleet's order.
pub open spec fn known_bad_hits(drivers: Seq<(Seq<char>, Seq<char>)>, rows: Seq<Seq<char>>) -> Seq<(Seq<char>, int)>
    decreases drivers.len(),
{
    if drivers.len() == 0 {
        Seq::empty()
    } else {
        known_bad_hits(drivers.drop_last(), rows) + hits_of(drivers.last(), rows, rows.len() as int)
    }
}

/// The rows among the first `n` that one driver (name, stem) matches.
pub open spec fn hits_of(driver: (Seq<char>, Seq<char>), rows: Seq<Seq<char>>, n: int) -> Seq<(Seq<char>, int)>
    decreases n,
{
    if n <= 0 {
        Seq::empty()
    } else {
        let rest = hits_of(driver, rows, n - 1);
        if rows[n - 1] == driver.1 { rest.push((driver.0, n - 1)) } else { rest }
    }
}

/// Matches the loaded drivers, each given as (name, stem), against the
/// fleet's known-bad rows; returns (driver name, row index) pairs.
pub fn match_known_bad(drivers: &Vec<(String, String)>, rows: &Vec<KnownBadDriver>) -> (hits: Vec<(String, usize)>)
    ensures
        hits@.map_values(|h: (String, usize)| (h.0@, h.1 as int))
            == known_bad_hits(drivers@.map_values(|d: (String, String)| (d.0@, d.1@)),
                rows@.map_values(|r: KnownBadDriver| r.module@)),
{
    let ghost dv = drivers@.map_values(|d: (String, String)| (d.0@, d.1@));
    let ghost rv = rows@.map_values(|r: KnownBadDriver| r.module@);
    let mut hits: Vec<(String, usize)> = Vec::new();
    let mut i: usize = 0;
    while i < drivers.len()
        invariant
            i <= drivers@.len(),
            dv == drivers@.map_values(|d: (String, String)| (d.0@, d.1@)),
            rv == rows@.map_values(|r: KnownBadDriver| r.module@),
            hits@.map_values(|h: (String, usize)| (h.0@, h.1 as int)) == known_bad_hits(dv.subrange(0, i as int), rv),
        decreases drivers@.len() - i,
    {
        let ghost before = hits@.map_values(|h: (String, usize)| (h.0@, h.1 as int));
        let mut j: usize = 0;
        while j < rows.len()
            invariant
                j <= rows@.len(),
                i < drivers@.len(),
                dv == drivers@.map_values(|d: (String, String)| (d.0@, d.1@)),
                rv == rows@.map_values(|r: KnownBadDriver| r.module@),
                hits@.map_values(|h: (String, usize)| (h.0@, h.1 as int)) == before + hits_of(dv[i as int], rv, j as int),
            decreases rows@.len() - j,
        {
            let ghost prev = hits@.map_values(|h: (String, usize)| (h.0@, h.1 as int));
            if str_eq(rows[j].module.as_str(), drivers[i].1.as_str()) {
                hits.push((owned(drivers[i].0.as_str()), j));
                proof {
                    assert(hits@.map_values(|h: (String, usize)| (h.0@, h.1 as int)) =~= prev.push((dv[i as int].0, j as int)));
                }
            }
            j = j + 1;
            proof {
                assert(hits@.map_values(|h: (String, usize)| (h.0@, h.1 as int)) =~= before + hits_of(dv[i as int], rv, j as int));
            }
        }
        proof {
            assert(dv.subrange(0, i + 1).drop_last() =~= dv.subrange(0, i as int));
            assert(dv.subrange(0, i + 1).last() == dv[i as int]);
        }
        i = i + 1;
    }
    proof {
        assert(dv.subrange(0, i as int) =~= dv);
    }
    hits
}

/// The warning for a known-bad driver that is loaded.
pub fn known_bad_line(driver: &str, row: &KnownBadDriver) -> (s: String)
    ensures
        s@ == "\u{26a0} Known-bad driver loaded: "@ + driver@ + " \u{2014} "@
            + (if row.symptom@.len() == 0 { "see fleet notes"@ } else { row.symptom@ })
            + " (fix: "@ + (if row.fix@.len() == 0 { "n/a"@ } else { row.fix@ }) + ")"@,
{
    let mut s = owned("\u{26a0} Known-bad driver loaded: ");
    push_str(&mut s, driver);
    push_str(&mut s, " \u{2014} ");
    push_str(&mut s, if row.symptom.as_str().unicode_len() == 0 { "see fleet notes" } else { row.symptom.as_str() });
    push_str(&mut s, " (fix: ");
    push_str(&mut s, if row.fix.as_str().unicode_len() == 0 { "n/a" } else { row.fix.as_str() });
    push_str(&mut s, ")");
    s
}

/// The line summing up a known signature.
pub fn sightings_line(count: u64, machines: u64, last_seen: &str) -> (s: String)
    ensures
        s@ == "Seen "@ + decimal(count as nat) + " time(s) on "@ + decimal(machines as nat) + " machine(s), last "@
            + last_seen@,
{
    let mut s = owned("Seen ");
    push_decimal(&mut s, count);
    push_str(&mut s, " time(s) on ");
    push_decimal(&mut s, machines);
    push_str(&mut s, " machine(s), last ");
    push_str(&mut s, last_seen);
    s
}

/// The errors of a fleet lookup, one after the other.
pub fn merge_lookup_error(prev: Option<String>, msg: String) -> (s: String)
    ensures
        s@ == match prev { Some(p) => p@ + "; "@ + msg@, None => msg@ },
{
    match prev {
        Some(p) => {
            let mut s = p;
            push_str(&mut s, "; ");
            push_str(&mut s, msg.as_str());
            s
        },
        None => msg,
    }
}

/// The fix line of a verdict, when it names a fix.
pub fn verdict_fix_line(fix: &str) -> (r: Option<String>)
    ensures
        crate::text::trimmed(fix@).len() == 0 ==> r is None,
        crate::text::trimmed(fix@).len() > 0 ==> r is Some && r.unwrap()@ == "Fix: "@ + fix@,
{
    let t = trim(fix);
    if t.as_str().unicode_len() == 0 {
        None
    } else {
        let mut s = owned("Fix: ");
        push_str(&mut s, fix);
        Some(s)
    }
}

/// The state of the fleet lookups and recordings for the loaded dump; what a
/// lookup found is held by the caller.
pub struct KernelIntelState {
    pub lookup_started: bool,
    pub has_lookup: bool,
    pub ingest_running: bool,
    pub ingest_status: Option<Result<String, String>>,
    pub verdict_text: String,
    pub fix_text: String,
    pub confidence: String,
    pub verdict_running: bool,
    pub verdict_status: Option<Result<String, String>>,
}

impl KernelIntelState {
    /// Nothing looked up or recorded yet; verdicts default to medium confidence.
    pub fn default() -> (s: KernelIntelState)
        ensures
            !s.lookup_started && !s.has_lookup && !s.ingest_running && s.ingest_status is None
                && s.verdict_text@.len() == 0 && s.fix_text@.len() == 0 && s.confidence@ == "medium"@
                && !s.verdict_running && s.verdict_status is None,
    {
        KernelIntelState {
            lookup_started: false,
            has_lookup: false,
            ingest_running: false,
            ingest_status: None,
            verdict_text: String::new(),
            fix_text: String::new(),
            confidence: owned("medium"),
            verdict_running: false,
            verdict_status: None,
        }
    }

    /// Takes in what arrived: a lookup, the result of recording a sighting
    /// (the signature's new count, or the error), the result of recording a
    /// verdict. A recording ends its run, shows its outcome, and has the
    /// lookup made again, since the counts changed.
    pub fn kernel_intel_receive(&mut self, lookup_arrived: bool, ingest: Option<Result<u64, String>>,
        verdict: Option<Result<String, String>>)
        ensures
            final(self).has_lookup == (old(self).has_lookup || lookup_arrived),
            final(self).ingest_running == (old(self).ingest_running && ingest is None),
            final(self).verdict_running == (old(self).verdict_running && verdict is None),
            final(self).lookup_started == (old(self).lookup_started && ingest is None && verdict is None),
            match ingest {
                Some(Ok(n)) => final(self).ingest_status is Some && final(self).ingest_status.unwrap() is Ok
                    && final(self).ingest_status.unwrap()->Ok_0@ == "Recorded. Fleet has now seen this signature "@
                        + decimal(n as nat) + " time(s)."@,
                Some(Err(e)) => final(self).ingest_status is Some && final(self).ingest_status.unwrap() is Err
                    && final(self).ingest_status.unwrap()->Err_0@ == e@,
                None => final(self).ingest_status == old(self).ingest_status,
            },
            match verdict {
                Some(v) => final(self).verdict_status == Some(v),
                None => final(self).verdict_status == old(self).verdict_status,
            },
            final(self).verdict_text == old(self).verdict_text,
            final(self).fix_text == old(self).fix_text,
            final(self).confidence == old(self).confidence,
    {
        if lookup_arrived {
            self.has_lookup = true;
        }
        match ingest {
            Some(result) => {
                self.ingest_running = false;
                self.ingest_status = Some(match result {
                    Ok(n) => {
                        let mut m = owned("Recorded. Fleet has now seen this signature ");
                        push_decimal(&mut m, n);
                        push_str(&mut m, " time(s).");
                        Ok(m)
                    },
                    Err(e) => Err(e),
                });
                self.lookup_started = false;
            },
            None => {},
        }
        match verdict {
            Some(result) => {
                self.verdict_running = false;
                self.verdict_status = Some(result);
                self.lookup_started = false;
            },
            None => {},
        }
    }

    /// Whether the sighting may be recorded: not while a recording runs, nor
    /// once one succeeded.
    pub fn can_ingest(&self) -> (b: bool)
        ensures
            b == (!self.ingest_running && !(self.ingest_status is Some && self.ingest_status.unwrap() is Ok)),
    {
        !self.ingest_running && !matches!(self.ingest_status, Some(Ok(_)))
    }

    /// Whether a verdict may be recorded: none is being recorded, and one is written.
    pub fn can_record_verdict(&self) -> (b: bool)
        ensures
            b == (!self.verdict_running && crate::text::trimmed(self.verdict_text@).len() > 0),
    {
        let t = trim(self.verdict_text.as_str());
        !self.verdict_running && t.as_str().unicode_len() > 0
    }

    /// Whether to start a fleet lookup now; it is started once until a
    /// recording asks for it again.
    pub fn kickoff_intel_lookup(&mut self) -> (start: bool)
        ensures
            start == !old(self).lookup_started,
            final(self).lookup_started,
            final(self).has_lookup == old(self).has_lookup,
            final(self).ingest_running == old(self).ingest_running,
            final(self).verdict_running == old(self).verdict_running,
    {
        if self.lookup_started {
            return false;
        }
        self.lookup_started = true;
        true
    }
}

/// What the module table is sorted by.
#[derive(PartialEq, Eq, Structural, Clone, Copy, Debug)]
pub enum ModuleSort {
    Base,
    Name,
    Size,
}

/// A click on a column header: the sorted column flips its direction, any
/// other column becomes the sorted one, ascending.
pub fn click_sort_header(current: ModuleSort, descending: bool, clicked: ModuleSort) -> (r: (ModuleSort, bool))
    ensures
        r == if current == clicked { (current, !descending) } else { (clicked, false) },
{
    if current == clicked { (current, !descending) } else { (clicked, false) }
}

/// The arrow after a column header: down or up for the sorted column.
pub fn sort_arrow(current: ModuleSort, descending: bool, column: ModuleSort) -> (s: &'static str)
    ensures
        s@ == if current == column { if descending { " \u{25bc}"@ } else { " \u{25b2}"@ } } else { ""@ },
{
    if current == column { if descending { " \u{25bc}" } else { " \u{25b2}" } } else { "" }
}

/// Whether a driver is listed under the filter: the filter, in ASCII lower
/// case, occurs in its name; an empty filter lists all.
pub fn driver_listed(name: &str, filter: &str) -> (b: bool)
    ensures
        b == (crate::github::ascii_lowercase(filter@).len() == 0
            || seq_contains(name@, crate::github::ascii_lowercase(filter@))),
{
    let f = crate::github::to_ascii_lowercase(filter);
    f.as_str().unicode_len() == 0 || str_contains(name, f.as_str())
}

} // verus!
