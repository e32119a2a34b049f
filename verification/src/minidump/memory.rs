//! The crash panels as text: the bugcheck's facts, its parameters, the
//! frames of the scanned stack, and hex dumps of the memory around the
//! instruction and stack pointers.
use vstd::prelude::*;
use crate::text::{owned, push_str, push_char, push_decimal, decimal, PanelRow, row_views, optional_row, push_optional};
use crate::remote::replies::join;
use crate::dates::{utc_text_of_unix, signed_decimal, unix_to_string};
use crate::minidump::{fixed_hex, push_fixed_hex, hex_digits, push_hex, uptime_text};

verus! {

/// The facts of the bugcheck panel, in order: crash time, uptime, processor
/// count, instruction and stack pointers, exception code; unknown ones left out.
pub open spec fn bugcheck_facts(system_time: Option<i64>, uptime_secs: Option<u64>, processors: u32,
    rip: Option<Seq<char>>, rsp: Option<Seq<char>>, exception: Option<Seq<char>>) -> Seq<(Seq<char>, Seq<char>)>
{
    optional_row("Crash time"@, match system_time {
        Some(t) => Some(match utc_text_of_unix(t) { Some(x) => x, None => signed_decimal(t as int) }),
        None => None,
    })
    + optional_row("Uptime"@, match uptime_secs {
        Some(u) => Some(decimal((u / 3600) as nat) + "h "@ + decimal(((u % 3600) / 60) as nat) + "m"@),
        None => None,
    })
    + seq![("Processors"@, decimal(processors as nat))]
    + optional_row("RIP"@, rip)
    + optional_row("RSP"@, rsp)
    + optional_row("Exception"@, exception)
}

/// The view of an optional text.
pub open spec fn opt_text(o: Option<&str>) -> Option<Seq<char>> {
    match o {
        Some(s) => Some(s@),
        None => None,
    }
}

fn owned_opt(o: Option<&str>) -> (r: Option<String>)
    ensures
        match r { Some(s) => Some(s@), None => None } == opt_text(o),
{
    match o {
        Some(s) => Some(owned(s)),
        None => None,
    }
}

/// The facts of the bugcheck panel.
pub fn bugcheck_rows(system_time: Option<i64>, uptime_secs: Option<u64>, processors: u32, rip: Option<&str>,
    rsp: Option<&str>, exception: Option<&str>) -> (rows: Vec<PanelRow>)
    ensures
        row_views(rows@) == bugcheck_facts(system_time, uptime_secs, processors, opt_text(rip), opt_text(rsp),
            opt_text(exception)),
{
    let mut rows: Vec<PanelRow> = Vec::new();
    proof {
        assert(row_views(rows@) =~= Seq::<(Seq<char>, Seq<char>)>::empty());
    }
    let time = match system_time {
        Some(t) => Some(unix_to_string(t)),
        None => None,
    };
    push_optional(&mut rows, "Crash time", time);
    let up = match uptime_secs {
        Some(u) => Some(uptime_text(u)),
        None => None,
    };
    push_optional(&mut rows, "Uptime", up);
    let mut count = String::new();
    push_decimal(&mut count, processors as u64);
    let ghost before = row_views(rows@);
    rows.push((owned("Processors"), count));
    proof {
        assert(row_views(rows@) =~= before + seq![("Processors"@, decimal(processors as nat))]);
    }
    push_optional(&mut rows, "RIP", owned_opt(rip));
    push_optional(&mut rows, "RSP", owned_opt(rsp));
    push_optional(&mut rows, "Exception", owned_opt(exception));
    proof {
        assert(row_views(rows@) =~= bugcheck_facts(system_time, uptime_secs, processors, opt_text(rip),
            opt_text(rsp), opt_text(exception)));
    }
    rows
}

/// The rows of the bugcheck parameters: `P1`, `P2`, ... and each parameter.
pub open spec fn parameter_facts(params: Seq<Seq<char>>) -> Seq<(Seq<char>, Seq<char>)> {
    Seq::new(params.len(), |i: int| ("P"@ + decimal((i + 1) as nat), params[i]))
}

/// The rows of the bugcheck parameters.
pub fn parameter_rows(params: &Vec<String>) -> (rows: Vec<PanelRow>)
    requires
        params@.len() < u64::MAX,
    ensures
        row_views(rows@) == parameter_facts(params@.map_values(|p: String| p@)),
{
    let ghost pv = params@.map_values(|p: String| p@);
    let mut rows: Vec<PanelRow> = Vec::new();
    let mut i: usize = 0;
    while i < params.len()
        invariant
            i <= params@.len() < u64::MAX,
            pv == params@.map_values(|p: String| p@),
            rows@.len() == i,
            forall|k: int| 0 <= k < i ==> #[trigger] row_views(rows@)[k] == parameter_facts(pv)[k],
        decreases params@.len() - i,
    {
        let mut label = owned("P");
        push_decimal(&mut label, (i + 1) as u64);
        let ghost before = rows@;
        let p = params[i].clone();
        proof {
            assert(label@ == parameter_facts(pv)[i as int].0);
            assert(p@ == parameter_facts(pv)[i as int].1);
        }
        rows.push((label, p));
        proof {
            assert(row_views(rows@)[i as int] == (rows@[i as int].0@, rows@[i as int].1@));
            assert forall|k: int| 0 <= k < i + 1 implies #[trigger] row_views(rows@)[k] == parameter_facts(pv)[k] by {
                if k < i {
                    assert(rows@[k] == before[k]);
                    assert(row_views(before)[k] == parameter_facts(pv)[k]);
                    assert(row_views(rows@)[k] == (rows@[k].0@, rows@[k].1@));
                    assert(row_views(before)[k] == (before[k].0@, before[k].1@));
                }
            }
        }
        i = i + 1;
    }
    proof {
        assert(row_views(rows@) =~= parameter_facts(pv));
    }
    rows
}

/// A scanned stack frame as the table writes it: the module, `+0x` and the
/// offset in hex.
pub fn frame_text(module: &str, offset: u64) -> (s: String)
    ensures
        s@ == module@ + "+0x"@ + hex_digits(offset as nat),
{
    let mut s = owned(module);
    push_str(&mut s, "+0x");
    push_hex(&mut s, offset);
    s
}

/// How a byte shows in the text column of a hex dump: itself when it is a
/// visible ASCII character, else a dot.
pub open spec fn shown_byte(b: u8) -> char {
    if 0x21 <= b && b <= 0x7e { b as char } else { '.' }
}

/// `s` filled with spaces on the right up to `w` characters.
pub open spec fn pad_right(s: Seq<char>, w: nat) -> Seq<char> {
    if s.len() < w { s + Seq::new((w - s.len()) as nat, |i: int| ' ') } else { s }
}

/// One line of a hex dump: the address in sixteen hex digits, the bytes in
/// hex with a space between each two, padded to a full line of sixteen, and
/// the bytes as text.
pub open spec fn dump_line(addr: nat, chunk: Seq<u8>) -> Seq<char> {
    fixed_hex(addr, 16) + "  "@ + pad_right(join(chunk.map_values(|b: u8| fixed_hex(b as nat, 2)), " "@), 47)
        + "  "@ + chunk.map_values(|b: u8| shown_byte(b)) + "\n"@
}

/// The `i`-th line's bytes: sixteen of them, fewer on the last line.
pub open spec fn dump_chunk(bytes: Seq<u8>, i: nat) -> Seq<u8> {
    let lo: int = 16 * i as int;
    let hi: int = if 16 * i + 16 < bytes.len() { 16 * i as int + 16 } else { bytes.len() as int };
    bytes.subrange(lo, hi)
}

/// The first `k` lines of the dump of `bytes` read at `base`.
pub open spec fn dump_lines(base: nat, bytes: Seq<u8>, k: nat) -> Seq<char>
    decreases k,
{
    if k == 0 {
        Seq::empty()
    } else {
        dump_lines(base, bytes, (k - 1) as nat) + dump_line((base + 16 * (k - 1)) as nat, dump_chunk(bytes, (k - 1) as nat))
    }
}

/// The hex dump of `bytes` read at address `base`: one line per sixteen bytes.
pub open spec fn hex_dump(base: nat, bytes: Seq<u8>) -> Seq<char> {
    dump_lines(base, bytes, ((bytes.len() + 15) / 16) as nat)
}

fn shown_char(b: u8) -> (c: char)
    ensures
        c == shown_byte(b),
{
    if 0x21 <= b && b <= 0x7e { b as char } else { '.' }
}

fn push_dump_line(out: &mut String, addr: u64, bytes: &[u8], lo: usize, hi: usize)
    requires
        lo < hi <= bytes@.len(),
        hi - lo <= 16,
    ensures
        final(out)@ == old(out)@ + dump_line(addr as nat, bytes@.subrange(lo as int, hi as int)),
{
    proof {
        reveal_strlit(" ");
    }
    let ghost chunk = bytes@.subrange(lo as int, hi as int);
    let ghost parts = chunk.map_values(|b: u8| fixed_hex(b as nat, 2));
    let mut hex = String::new();
    let mut text = String::new();
    let mut k: usize = lo;
    proof {
        assert(parts.subrange(0, 0) =~= Seq::<Seq<char>>::empty());
        assert(chunk.subrange(0, 0).map_values(|b: u8| shown_byte(b)) =~= Seq::<char>::empty());
    }
    while k < hi
        invariant
            lo <= k <= hi <= bytes@.len(),
            hi - lo <= 16,
            chunk == bytes@.subrange(lo as int, hi as int),
            parts == chunk.map_values(|b: u8| fixed_hex(b as nat, 2)),
            hex@ == join(parts.subrange(0, k - lo), " "@),
            hex@.len() == if k == lo { 0 } else { 3 * (k - lo) - 1 },
            text@ == chunk.subrange(0, k - lo).map_values(|b: u8| shown_byte(b)),
        decreases hi - k,
    {
        let ghost before = hex@;
        if k > lo {
            push_str(&mut hex, " ");
        }
        push_fixed_hex(&mut hex, bytes[k] as u64, 2);
        push_char(&mut text, shown_char(bytes[k]));
        proof {
            let j = k - lo;
            assert(parts.subrange(0, j + 1).drop_last() =~= parts.subrange(0, j as int));
            assert(parts[j as int] == fixed_hex(bytes@[k as int] as nat, 2));
            reveal_strlit(" ");
            assert(fixed_hex(bytes@[k as int] as nat, 2).len() == 2) by {
                reveal_with_fuel(fixed_hex, 3);
            }
            assert(hex@ == before + (if j > 0 { " "@ } else { Seq::<char>::empty() }) + fixed_hex(bytes@[k as int] as nat, 2));
            assert(hex@.len() == before.len() + (if j > 0 { 1int } else { 0int }) + 2);
            assert(chunk.subrange(0, j + 1).map_values(|b: u8| shown_byte(b))
                =~= chunk.subrange(0, j as int).map_values(|b: u8| shown_byte(b)).push(shown_byte(bytes@[k as int])));
            if j == 0 {
                assert(hex@ =~= join(parts.subrange(0, 1), " "@));
            } else {
                assert(hex@ =~= join(parts.subrange(0, j + 1), " "@));
            }
        }
        k = k + 1;
    }
    proof {
        assert(parts.subrange(0, k - lo) =~= parts);
        assert(chunk.subrange(0, k - lo) =~= chunk);
    }
    let ghost joined = hex@;
    let mut w: usize = 3 * (hi - lo) - 1;
    while w < 47
        invariant
            3 * (hi - lo) - 1 <= w <= 47,
            hi - lo <= 16,
            hex@ == joined + Seq::new((w - (3 * (hi - lo) - 1)) as nat, |i: int| ' '),
        decreases 47 - w,
    {
        let ghost before = hex@;
        push_char(&mut hex, ' ');
        w = w + 1;
        proof {
            assert(hex@ =~= joined + Seq::new((w - (3 * (hi - lo) - 1)) as nat, |i: int| ' '));
        }
    }
    proof {
        assert(hex@ =~= pad_right(joined, 47));
    }
    push_fixed_hex(out, addr, 16);
    push_str(out, "  ");
    push_str(out, hex.as_str());
    push_str(out, "  ");
    push_str(out, text.as_str());
    push_str(out, "\n");
    proof {
        assert(out@ =~= old(out)@ + dump_line(addr as nat, chunk));
    }
}

proof fn lemma_chunk_start(i: int, n: int)
    requires
        0 <= i,
        16 * i < n,
    ensures
        16 * i <= 16 * ((n - 1) / 16),
{
    assert(i <= (n - 1) / 16) by (nonlinear_arith)
        requires 16 * i < n, 0 <= i;
}

/// The hex dump of `bytes` read at address `base`, as the memory panel
/// shows it; every line's address must fit in 64 bits.
pub fn hex_dump_text(base: u64, bytes: &[u8]) -> (s: String)
    requires
        bytes@.len() == 0 || base + 16 * ((bytes@.len() - 1) / 16) <= u64::MAX,
    ensures
        s@ == hex_dump(base as nat, bytes@),
{
    let n = bytes.len();
    let mut out = String::new();
    let mut start: usize = 0;
    let ghost mut i: nat = 0;
    while start < n
        invariant
            n == bytes@.len(),
            start == if 16 * i < n { 16 * i as int } else { n as int },
            i == 0 || 16 * (i - 1) < n,
            bytes@.len() == 0 || base + 16 * ((bytes@.len() - 1) / 16) <= u64::MAX,
            out@ == dump_lines(base as nat, bytes@, i),
        decreases n - start,
    {
        proof {
            lemma_chunk_start(i as int, n as int);
        }
        let end = if n - start > 16 { start + 16 } else { n };
        let addr = base + start as u64;
        push_dump_line(&mut out, addr, bytes, start, end);
        proof {
            assert(bytes@.subrange(start as int, end as int) == dump_chunk(bytes@, i));
            assert(dump_lines(base as nat, bytes@, i + 1)
                == dump_lines(base as nat, bytes@, i) + dump_line((base + 16 * i) as nat, dump_chunk(bytes@, i)));
        }
        start = end;
        proof {
            i = i + 1;
        }
    }
    proof {
        assert(i == (n + 15) / 16) by (nonlinear_arith)
            requires 16 * i >= n, i == 0 || 16 * (i - 1) < n;
    }
    out
}

} // verus!
