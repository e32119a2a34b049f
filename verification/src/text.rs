//! Text building blocks shared by the tabs: decimal rendering, searching and
//! rewriting character sequences, and the wrappers around std's string calls.
use vstd::prelude::*;

verus! {

/// The ASCII digit for `d` (taken modulo ten).
pub open spec fn digit_char(d: nat) -> char {
    let r = d % 10;
    if r == 0 { '0' }
    else if r == 1 { '1' }
    else if r == 2 { '2' }
    else if r == 3 { '3' }
    else if r == 4 { '4' }
    else if r == 5 { '5' }
    else if r == 6 { '6' }
    else if r == 7 { '7' }
    else if r == 8 { '8' }
    else { '9' }
}

/// Decimal rendering of a natural number, most significant digit first, no padding.
pub open spec fn decimal(n: nat) -> Seq<char>
    decreases n,
{
    if n < 10 {
        seq![digit_char(n)]
    } else {
        decimal(n / 10).push(digit_char(n % 10))
    }
}

/// Appends one character to a string.
#[verifier::external_body]
pub(crate) fn push_char(s: &mut String, c: char)
    ensures
        final(s)@ == old(s)@.push(c),
{
    s.push(c)
}

/// Appends a string slice to a string.
pub(crate) fn push_str(s: &mut String, t: &str)
    ensures
        final(s)@ == old(s)@ + t@,
{
    s.append(t)
}

/// A new string holding the characters of `t`.
pub fn owned(t: &str) -> (s: String)
    ensures
        s@ == t@,
{
    t.to_owned()
}

/// `a` followed by `b`, as a new string.
pub fn concat(a: &str, b: &str) -> (s: String)
    ensures
        s@ == a@ + b@,
{
    let mut s = a.to_owned();
    push_str(&mut s, b);
    s
}

fn digit(d: u64) -> (c: char)
    requires
        d < 10,
    ensures
        c == digit_char(d as nat),
{
    if d == 0 { '0' }
    else if d == 1 { '1' }
    else if d == 2 { '2' }
    else if d == 3 { '3' }
    else if d == 4 { '4' }
    else if d == 5 { '5' }
    else if d == 6 { '6' }
    else if d == 7 { '7' }
    else if d == 8 { '8' }
    else { '9' }
}

/// Appends the decimal rendering of `n`.
pub fn push_decimal(s: &mut String, n: u64)
    ensures
        final(s)@ == old(s)@ + decimal(n as nat),
    decreases n,
{
    if n >= 10 {
        push_decimal(s, n / 10);
    }
    let c = digit(n % 10);
    push_char(s, c);
    assert(s@ =~= old(s)@ + decimal(n as nat));
}

/// `needle` occurs in `hay` as a contiguous run.
pub open spec fn seq_contains(hay: Seq<char>, needle: Seq<char>) -> bool {
    exists|i: int| 0 <= i <= hay.len() - needle.len() && #[trigger] hay.subrange(i, i + needle.len()) == needle
}

/// The characters of `s`, in order.
pub fn chars_of(s: &str) -> (v: Vec<char>)
    ensures
        v@ == s@,
{
    let n = s.unicode_len();
    let mut v: Vec<char> = Vec::new();
    let mut i: usize = 0;
    while i < n
        invariant
            n == s@.len(),
            i <= n,
            v@ == s@.subrange(0, i as int),
        decreases n - i,
    {
        let c = s.get_char(i);
        v.push(c);
        i = i + 1;
        assert(v@ =~= s@.subrange(0, i as int));
    }
    assert(v@ =~= s@);
    v
}

/// Whether `needle` matches `hay` at position `at`.
fn matches_at(hay: &Vec<char>, needle: &Vec<char>, at: usize) -> (b: bool)
    requires
        at + needle@.len() <= hay@.len(),
    ensures
        b == (hay@.subrange(at as int, at + needle@.len()) == needle@),
{
    let hl = hay.len();
    let mut j: usize = 0;
    while j < needle.len()
        invariant
            hl == hay@.len(),
            at + needle@.len() <= hay@.len(),
            j <= needle@.len(),
            forall|k: int| 0 <= k < j ==> hay@[at + k] == needle@[k],
        decreases needle@.len() - j,
    {
        if hay[at + j] != needle[j] {
            assert(hay@.subrange(at as int, at + needle@.len())[j as int] != needle@[j as int]);
            return false;
        }
        j = j + 1;
    }
    assert(hay@.subrange(at as int, at + needle@.len()) =~= needle@);
    true
}

/// Whether `needle` occurs in `hay` at position `at`.
pub fn contains_at(hay: &Vec<char>, needle: &Vec<char>, at: usize) -> (b: bool)
    requires
        at + needle@.len() <= hay@.len(),
    ensures
        b == (hay@.subrange(at as int, at + needle@.len()) == needle@),
{
    matches_at(hay, needle, at)
}

/// Whether `needle` occurs in `hay`.
pub fn contains_chars(hay: &Vec<char>, needle: &Vec<char>) -> (b: bool)
    ensures
        b == seq_contains(hay@, needle@),
{
    if needle.len() > hay.len() {
        return false;
    }
    let last = hay.len() - needle.len();
    let mut i: usize = 0;
    loop
        invariant
            last == hay@.len() - needle@.len(),
            i <= last,
            forall|k: int| 0 <= k < i ==> #[trigger] hay@.subrange(k, k + needle@.len()) != needle@,
        decreases last - i,
    {
        if matches_at(hay, needle, i) {
            return true;
        }
        if i == last {
            return false;
        }
        i = i + 1;
    }
}

/// Whether `needle` occurs in `hay`, as `str::contains` answers it.
pub fn str_contains(hay: &str, needle: &str) -> (b: bool)
    ensures
        b == seq_contains(hay@, needle@),
{
    let h = chars_of(hay);
    let n = chars_of(needle);
    contains_chars(&h, &n)
}

/// What `str::to_lowercase` gives for `s`: its characters mapped to lower case
/// by the Unicode rules.
pub uninterp spec fn lowercase(s: Seq<char>) -> Seq<char>;

/// `s` in lower case, as `str::to_lowercase` maps it.
#[verifier::external_body]
pub(crate) fn to_lowercase(s: &str) -> (r: String)
    ensures
        r@ == lowercase(s@),
{
    s.to_lowercase()
}

/// What the `Debug` rendering of a string gives: the string in double
/// quotes, with quotes, backslashes and control characters escaped.
pub uninterp spec fn debug_quoted(s: Seq<char>) -> Seq<char>;

/// The `Debug` rendering of `s`, as `format!("{:?}", s)` writes it.
#[verifier::external_body]
pub(crate) fn debug_str(s: &str) -> (r: String)
    ensures
        r@ == debug_quoted(s@),
{
    format!("{:?}", s)
}

/// Whether two strings hold the same characters.
pub fn str_eq(a: &str, b: &str) -> (r: bool)
    ensures
        r == (a@ == b@),
{
    let av = chars_of(a);
    let bv = chars_of(b);
    if av.len() != bv.len() {
        return false;
    }
    let r = matches_at(&av, &bv, 0);
    proof {
        assert(av@.subrange(0, bv@.len() as int) =~= av@);
    }
    r
}

/// `s` begins with `p`.
pub open spec fn has_prefix(s: Seq<char>, p: Seq<char>) -> bool {
    p.len() <= s.len() && s.subrange(0, p.len() as int) == p
}

/// `s` ends with `p`.
pub open spec fn has_suffix(s: Seq<char>, p: Seq<char>) -> bool {
    p.len() <= s.len() && s.subrange(s.len() - p.len(), s.len() as int) == p
}

/// Whether `s` begins with `p`.
pub fn starts_with(s: &str, p: &str) -> (r: bool)
    ensures
        r == has_prefix(s@, p@),
{
    let sv = chars_of(s);
    let pv = chars_of(p);
    if pv.len() > sv.len() {
        return false;
    }
    matches_at(&sv, &pv, 0)
}

/// Whether `s` ends with `p`.
pub fn ends_with(s: &str, p: &str) -> (r: bool)
    ensures
        r == has_suffix(s@, p@),
{
    let sv = chars_of(s);
    let pv = chars_of(p);
    if pv.len() > sv.len() {
        return false;
    }
    matches_at(&sv, &pv, sv.len() - pv.len())
}

/// Every non-overlapping occurrence of `from` in `s`, scanned left to right,
/// replaced by `to`.
pub open spec fn replace_all(s: Seq<char>, from: Seq<char>, to: Seq<char>) -> Seq<char>
    recommends
        from.len() > 0,
    decreases s.len(),
{
    if from.len() == 0 || s.len() < from.len() {
        s
    } else if s.subrange(0, from.len() as int) == from {
        to + replace_all(s.skip(from.len() as int), from, to)
    } else {
        seq![s[0]] + replace_all(s.skip(1), from, to)
    }
}

/// `s` with every occurrence of `from` replaced by `to`, as `str::replace` does
/// for a non-empty pattern.
pub fn replace(s: &str, from: &str, to: &str) -> (r: String)
    requires
        from@.len() > 0,
    ensures
        r@ == replace_all(s@, from@, to@),
{
    let sv = chars_of(s);
    let fv = chars_of(from);
    let mut out = String::new();
    let mut i: usize = 0;
    proof {
        assert(sv@.skip(0) =~= sv@);
        assert(out@ + replace_all(sv@, fv@, to@) =~= replace_all(sv@, fv@, to@));
    }
    while i < sv.len()
        invariant
            sv@ == s@,
            fv@ == from@,
            fv@.len() > 0,
            i <= sv@.len(),
            out@ + replace_all(sv@.skip(i as int), fv@, to@) == replace_all(s@, from@, to@),
        decreases sv@.len() - i,
    {
        let ghost rest = sv@.skip(i as int);
        if fv.len() <= sv.len() - i && matches_at(&sv, &fv, i) {
            proof {
                assert(rest.subrange(0, fv@.len() as int) =~= sv@.subrange(i as int, i + fv@.len()));
                assert(rest.skip(fv@.len() as int) =~= sv@.skip(i + fv@.len()));
            }
            push_str(&mut out, to);
            i = i + fv.len();
            proof {
                assert(out@ + replace_all(sv@.skip(i as int), fv@, to@) =~= replace_all(s@, from@, to@));
            }
        } else {
            proof {
                if fv@.len() <= rest.len() {
                    assert(rest.subrange(0, fv@.len() as int) =~= sv@.subrange(i as int, i + fv@.len()));
                }
                assert(rest.skip(1) =~= sv@.skip(i + 1));
            }
            push_char(&mut out, sv[i]);
            i = i + 1;
            proof {
                assert(out@ + replace_all(sv@.skip(i as int), fv@, to@) =~= replace_all(s@, from@, to@));
            }
        }
    }
    proof {
        assert(sv@.skip(i as int) =~= Seq::<char>::empty());
        assert(out@ =~= out@ + replace_all(sv@.skip(i as int), fv@, to@));
    }
    out
}

/// Whether `c` is white space as `char::is_whitespace` reads it: the
/// characters with the Unicode `White_Space` property.
pub open spec fn is_space(c: char) -> bool {
    ('\u{9}' <= c && c <= '\u{d}') || c == ' ' || c == '\u{85}' || c == '\u{a0}' || c == '\u{1680}'
        || ('\u{2000}' <= c && c <= '\u{200a}') || c == '\u{2028}' || c == '\u{2029}' || c == '\u{202f}'
        || c == '\u{205f}' || c == '\u{3000}'
}

/// Whether `c` is white space.
pub fn char_is_space(c: char) -> (b: bool)
    ensures
        b == is_space(c),
{
    ('\u{9}' <= c && c <= '\u{d}') || c == ' ' || c == '\u{85}' || c == '\u{a0}' || c == '\u{1680}'
        || ('\u{2000}' <= c && c <= '\u{200a}') || c == '\u{2028}' || c == '\u{2029}' || c == '\u{202f}'
        || c == '\u{205f}' || c == '\u{3000}'
}

/// The number of white-space characters `s` starts with.
pub open spec fn leading_space(s: Seq<char>) -> nat
    decreases s.len(),
{
    if s.len() > 0 && is_space(s[0]) { 1 + leading_space(s.skip(1)) } else { 0 }
}

/// The number of white-space characters `s` ends with.
pub open spec fn trailing_space(s: Seq<char>) -> nat
    decreases s.len(),
{
    if s.len() > 0 && is_space(s.last()) { 1 + trailing_space(s.drop_last()) } else { 0 }
}

/// `s` without the white space at its start and end, as `str::trim` gives it.
pub open spec fn trimmed(s: Seq<char>) -> Seq<char> {
    let t = s.skip(leading_space(s) as int);
    t.subrange(0, t.len() - trailing_space(t))
}

proof fn lemma_leading_space_bound(s: Seq<char>)
    ensures
        leading_space(s) <= s.len(),
    decreases s.len(),
{
    if s.len() > 0 && is_space(s[0]) {
        lemma_leading_space_bound(s.skip(1));
    }
}

proof fn lemma_trailing_space_bound(s: Seq<char>)
    ensures
        trailing_space(s) <= s.len(),
    decreases s.len(),
{
    if s.len() > 0 && is_space(s.last()) {
        lemma_trailing_space_bound(s.drop_last());
    }
}

/// `s` without white space at either end.
pub fn trim(s: &str) -> (r: String)
    ensures
        r@ == trimmed(s@),
{
    let v = chars_of(s);
    let n = v.len();
    let mut a: usize = 0;
    proof {
        assert(s@.skip(0) =~= s@);
        lemma_leading_space_bound(s@);
    }
    while a < n && char_is_space(v[a])
        invariant
            v@ == s@,
            n == s@.len(),
            a <= n,
            a + leading_space(s@.skip(a as int)) == leading_space(s@),
        decreases n - a,
    {
        proof {
            assert(s@.skip(a as int).skip(1) =~= s@.skip(a + 1));
        }
        a = a + 1;
    }
    let ghost t = s@.skip(a as int);
    proof {
        assert(leading_space(t) == 0);
        assert(a == leading_space(s@));
        lemma_trailing_space_bound(t);
    }
    let mut b: usize = n;
    proof {
        assert(t.subrange(0, t.len() as int) =~= t);
    }
    while b > a && char_is_space(v[b - 1])
        invariant
            v@ == s@,
            n == s@.len(),
            a <= b <= n,
            t == s@.skip(a as int),
            (b - a) - trailing_space(t.subrange(0, b - a)) == t.len() - trailing_space(t),
        decreases b,
    {
        proof {
            let u = t.subrange(0, b - a);
            assert(u.last() == v@[b - 1]);
            assert(u.drop_last() =~= t.subrange(0, b - 1 - a));
        }
        b = b - 1;
    }
    proof {
        let u = t.subrange(0, b - a);
        assert(trailing_space(u) == 0);
        assert(t.subrange(0, t.len() - trailing_space(t)) =~= s@.subrange(a as int, b as int));
    }
    s.substring_char(a, b).to_owned()
}

/// What `str::to_uppercase` gives for `s`: its characters mapped to upper
/// case by the Unicode rules.
pub uninterp spec fn uppercase(s: Seq<char>) -> Seq<char>;

/// `s` in upper case, as `str::to_uppercase` maps it.
#[verifier::external_body]
pub(crate) fn to_uppercase(s: &str) -> (r: String)
    ensures
        r@ == uppercase(s@),
{
    s.to_uppercase()
}

/// How two texts compare.
#[derive(PartialEq, Eq, Structural, Clone, Copy, Debug)]
pub enum TextOrder {
    Less,
    Equal,
    Greater,
}

/// How `a` compares with `b` in the order strings sort in: character by
/// character by code point, a text before any longer one it begins.
pub open spec fn text_order(a: Seq<char>, b: Seq<char>) -> TextOrder
    decreases a.len(),
{
    if a.len() == 0 && b.len() == 0 {
        TextOrder::Equal
    } else if a.len() == 0 {
        TextOrder::Less
    } else if b.len() == 0 {
        TextOrder::Greater
    } else if (a[0] as u32) < (b[0] as u32) {
        TextOrder::Less
    } else if (a[0] as u32) > (b[0] as u32) {
        TextOrder::Greater
    } else {
        text_order(a.skip(1), b.skip(1))
    }
}

/// Texts that compare equal are the same text.
pub proof fn lemma_text_order_equal(a: Seq<char>, b: Seq<char>)
    ensures
        text_order(a, b) == TextOrder::Equal ==> a == b,
    decreases a.len(),
{
    if a.len() > 0 && b.len() > 0 && (a[0] as u32) == (b[0] as u32) {
        vstd::utf8::char_u32_cast(a[0], a[0] as u32);
        vstd::utf8::char_u32_cast(b[0], b[0] as u32);
        lemma_text_order_equal(a.skip(1), b.skip(1));
        if text_order(a, b) == TextOrder::Equal {
            assert(a =~= seq![a[0]] + a.skip(1));
            assert(b =~= seq![b[0]] + b.skip(1));
        }
    }
}

/// Swapping the texts swaps "before" and "after".
pub proof fn lemma_text_order_flip(a: Seq<char>, b: Seq<char>)
    ensures
        text_order(a, b) == TextOrder::Greater <==> text_order(b, a) == TextOrder::Less,
        text_order(a, b) == TextOrder::Less <==> text_order(b, a) == TextOrder::Greater,
    decreases a.len(),
{
    if a.len() > 0 && b.len() > 0 && (a[0] as u32) == (b[0] as u32) {
        lemma_text_order_flip(a.skip(1), b.skip(1));
    }
}

/// How `a` compares with `b` in the order strings sort in.
pub fn compare_text(a: &str, b: &str) -> (o: TextOrder)
    ensures
        o == text_order(a@, b@),
{
    let av = chars_of(a);
    let bv = chars_of(b);
    let mut i: usize = 0;
    proof {
        assert(a@.skip(0) =~= a@);
        assert(b@.skip(0) =~= b@);
    }
    while i < av.len() && i < bv.len()
        invariant
            av@ == a@,
            bv@ == b@,
            i <= a@.len(),
            i <= b@.len(),
            text_order(a@, b@) == text_order(a@.skip(i as int), b@.skip(i as int)),
        decreases a@.len() - i,
    {
        let x = av[i] as u32;
        let y = bv[i] as u32;
        proof {
            assert(a@.skip(i as int)[0] == av@[i as int]);
            assert(b@.skip(i as int)[0] == bv@[i as int]);
        }
        if x < y {
            return TextOrder::Less;
        }
        if x > y {
            return TextOrder::Greater;
        }
        proof {
            assert(a@.skip(i as int).skip(1) =~= a@.skip(i + 1));
            assert(b@.skip(i as int).skip(1) =~= b@.skip(i + 1));
        }
        i = i + 1;
    }
    if i < av.len() {
        TextOrder::Greater
    } else if i < bv.len() {
        TextOrder::Less
    } else {
        TextOrder::Equal
    }
}

/// `a` comes strictly before `b` in text order.
#[verifier::opaque]
pub open spec fn text_before(a: Seq<char>, b: Seq<char>) -> bool {
    text_order(a, b) == TextOrder::Less
}

/// Each text comes strictly before the next in text order.
pub open spec fn strictly_ascending(s: Seq<Seq<char>>) -> bool {
    forall|i: int| 0 <= i < s.len() - 1 ==> text_before(#[trigger] s[i], s[i + 1])
}

proof fn lemma_push_to_set<T>(a: Seq<T>, x: T)
    ensures
        a.push(x).to_set() == a.to_set().insert(x),
{
    assert forall|y: T| #[trigger] a.push(x).to_set().contains(y) <==> a.to_set().insert(x).contains(y) by {
        if a.contains(y) {
            let k = choose|k: int| 0 <= k < a.len() && a[k] == y;
            assert(a.push(x)[k] == y);
        }
        if a.push(x).contains(y) && y != x {
            let k = choose|k: int| 0 <= k < a.push(x).len() && a.push(x)[k] == y;
            assert(a[k] == y);
        }
        if y == x {
            assert(a.push(x)[a.len() as int] == y);
        }
    }
    assert(a.push(x).to_set() =~= a.to_set().insert(x));
}

proof fn lemma_insert_to_set<T>(a: Seq<T>, p: int, x: T)
    requires
        0 <= p <= a.len(),
    ensures
        a.insert(p, x).to_set() == a.to_set().insert(x),
{
    let b = a.insert(p, x);
    assert forall|y: T| #[trigger] b.to_set().contains(y) <==> a.to_set().insert(x).contains(y) by {
        if a.contains(y) {
            let k = choose|k: int| 0 <= k < a.len() && a[k] == y;
            if k < p {
                assert(b[k] == y);
            } else {
                assert(b[k + 1] == y);
            }
        }
        if b.contains(y) && y != x {
            let k = choose|k: int| 0 <= k < b.len() && b[k] == y;
            if k < p {
                assert(a[k] == y);
            } else {
                assert(a[k - 1] == y);
            }
        }
        if y == x {
            assert(b[p] == y);
        }
    }
    assert(b.to_set() =~= a.to_set().insert(x));
}

proof fn lemma_present_to_set<T>(a: Seq<T>, k: int, x: T)
    requires
        0 <= k < a.len(),
        a[k] == x,
    ensures
        a.to_set() == a.to_set().insert(x),
{
    assert(a.to_set().contains(x));
    assert(a.to_set() =~= a.to_set().insert(x));
}

proof fn lemma_insert_ascending(a: Seq<Seq<char>>, p: int, x: Seq<char>)
    requires
        strictly_ascending(a),
        0 <= p <= a.len(),
        p > 0 ==> text_before(a[p - 1], x),
        p < a.len() ==> text_before(x, a[p]),
    ensures
        strictly_ascending(a.insert(p, x)),
{
    let b = a.insert(p, x);
    assert forall|j: int| 0 <= j < b.len() - 1 implies text_before(#[trigger] b[j], b[j + 1]) by {
        if j < p - 1 {
            assert(b[j] == a[j] && b[j + 1] == a[j + 1]);
        } else if j == p - 1 {
            assert(b[j] == a[j] && b[j + 1] == x);
        } else if j == p {
            assert(b[j] == x && b[j + 1] == a[j]);
        } else {
            assert(b[j] == a[j - 1] && b[j + 1] == a[j]);
        }
    }
}

proof fn lemma_insertion_point(a: Seq<Seq<char>>, p: int, x: Seq<char>)
    requires
        0 <= p <= a.len(),
        p > 0 ==> text_order(a[p - 1], x) != TextOrder::Greater && text_order(a[p - 1], x) != TextOrder::Equal,
        p < a.len() ==> text_order(a[p], x) == TextOrder::Greater,
    ensures
        p > 0 ==> text_before(a[p - 1], x),
        p < a.len() ==> text_before(x, a[p]),
{
    reveal(text_before);
    if p < a.len() {
        lemma_text_order_flip(a[p], x);
    }
}

/// The texts of `stems`, each once, in text order.
pub fn sorted_unique(stems: &Vec<String>) -> (names: Vec<String>)
    ensures
        strictly_ascending(names@.map_values(|n: String| n@)),
        names@.map_values(|n: String| n@).to_set() == stems@.map_values(|n: String| n@).to_set(),
{
    let ghost sv = stems@.map_values(|n: String| n@);
    let mut names: Vec<String> = Vec::new();
    let mut i: usize = 0;
    proof {
        assert(names@.map_values(|n: String| n@).to_set() =~= sv.subrange(0, 0).to_set());
    }
    while i < stems.len()
        invariant
            i <= stems@.len(),
            sv == stems@.map_values(|n: String| n@),
            strictly_ascending(names@.map_values(|n: String| n@)),
            names@.map_values(|n: String| n@).to_set() == sv.subrange(0, i as int).to_set(),
        decreases stems@.len() - i,
    {
        let ghost nv = names@.map_values(|n: String| n@);
        let ghost s = stems@[i as int]@;
        let mut p: usize = names.len();
        while p > 0 && compare_text(names[p - 1].as_str(), stems[i].as_str()) == TextOrder::Greater
            invariant
                p <= names@.len(),
                i < stems@.len(),
                s == stems@[i as int]@,
                nv == names@.map_values(|n: String| n@),
                forall|j: int| p <= j < nv.len() ==> text_order(#[trigger] nv[j], s) == TextOrder::Greater,
            decreases p,
        {
            p = p - 1;
        }
        proof {
            assert(sv.subrange(0, i + 1) =~= sv.subrange(0, i as int).push(s));
            lemma_push_to_set(sv.subrange(0, i as int), s);
        }
        if p > 0 && compare_text(names[p - 1].as_str(), stems[i].as_str()) == TextOrder::Equal {
            proof {
                lemma_text_order_equal(nv[p - 1], s);
                lemma_present_to_set(nv, p - 1, s);
            }
        } else {
            let name = stems[i].clone();
            names.insert(p, name);
            proof {
                assert(names@.map_values(|n: String| n@) =~= nv.insert(p as int, s));
                lemma_insertion_point(nv, p as int, s);
                lemma_insert_ascending(nv, p as int, s);
                lemma_insert_to_set(nv, p as int, s);
            }
        }
        i = i + 1;
    }
    proof {
        assert(sv.subrange(0, i as int) =~= sv);
    }
    names
}

/// One row of a panel: its label and its text.
pub type PanelRow = (String, String);

/// The views of some panel rows.
pub open spec fn row_views(rows: Seq<PanelRow>) -> Seq<(Seq<char>, Seq<char>)> {
    rows.map_values(|r: PanelRow| (r.0@, r.1@))
}

/// The row for an optional fact: none when it is unknown.
pub open spec fn optional_row(label: Seq<char>, value: Option<Seq<char>>) -> Seq<(Seq<char>, Seq<char>)> {
    match value {
        Some(v) => seq![(label, v)],
        None => Seq::empty(),
    }
}

/// Appends the row for an optional fact.
pub(crate) fn push_optional(rows: &mut Vec<PanelRow>, label: &str, value: Option<String>)
    ensures
        row_views(final(rows)@) == row_views(old(rows)@) + optional_row(label@, match value {
            Some(v) => Some(v@),
            None => None,
        }),
{
    match value {
        Some(v) => {
            rows.push((owned(label), v));
            assert(row_views(rows@) =~= row_views(old(rows)@) + seq![(label@, v@)]);
        },
        None => {
            assert(row_views(rows@) =~= row_views(old(rows)@) + Seq::<(Seq<char>, Seq<char>)>::empty());
        },
    }
}

} // verus!
