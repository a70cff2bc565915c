//! Text handling on `&str` and `String`, with each operation stated over the
//! character sequence that vstd gives a string as its view.
use vstd::prelude::*;
use vstd::string::*;
use vstd::utf8::*;

verus! {

// ---------------------------------------------------------------------------
// Specifications
// ---------------------------------------------------------------------------

/// The characters that carry the Unicode `White_Space` property
/// (those for which `char::is_whitespace` holds).
pub open spec fn is_white_space(c: char) -> bool {
    let u = c as u32;
    ||| 0x9 <= u <= 0xd
    ||| u == 0x20
    ||| u == 0x85
    ||| u == 0xa0
    ||| u == 0x1680
    ||| 0x2000 <= u <= 0x200a
    ||| u == 0x2028
    ||| u == 0x2029
    ||| u == 0x202f
    ||| u == 0x205f
    ||| u == 0x3000
}

/// `s` without its leading white space.
pub open spec fn trim_start(s: Seq<char>) -> Seq<char>
    decreases s.len(),
{
    if s.len() > 0 && is_white_space(s[0]) {
        trim_start(s.drop_first())
    } else {
        s
    }
}

/// `s` without its trailing white space.
pub open spec fn trim_end(s: Seq<char>) -> Seq<char>
    decreases s.len(),
{
    if s.len() > 0 && is_white_space(s.last()) {
        trim_end(s.drop_last())
    } else {
        s
    }
}

/// `s` without leading and trailing white space.
pub open spec fn trim(s: Seq<char>) -> Seq<char> {
    trim_end(trim_start(s))
}

/// The pieces of `s` between occurrences of `sep`: one more piece than
/// there are separators, empty pieces included.
pub open spec fn split_on(s: Seq<char>, sep: char) -> Seq<Seq<char>>
    decreases s.len(),
{
    if s.len() == 0 {
        seq![Seq::<char>::empty()]
    } else {
        let init = split_on(s.drop_last(), sep);
        if s.last() == sep {
            init.push(Seq::<char>::empty())
        } else {
            init.update(init.len() - 1, init.last().push(s.last()))
        }
    }
}

/// A line without the carriage return that preceded its line feed.
pub open spec fn strip_cr(l: Seq<char>) -> Seq<char> {
    if l.len() > 0 && l.last() == '\r' {
        l.drop_last()
    } else {
        l
    }
}

/// The lines of `s`: the text between line feeds, each without a carriage
/// return just before its line feed; a final line feed ends the last line
/// and starts no new one.
pub open spec fn lines(s: Seq<char>) -> Seq<Seq<char>> {
    let parts = split_on(s, '\n');
    let ended = parts.drop_last().map_values(|l: Seq<char>| strip_cr(l));
    if parts.last().len() == 0 {
        ended
    } else {
        ended.push(parts.last())
    }
}

/// `s` with each occurrence of `from`, found left to right without overlap,
/// replaced by `to`.
pub open spec fn replace(s: Seq<char>, from: Seq<char>, to: Seq<char>) -> Seq<char>
    recommends
        from.len() > 0,
    decreases s.len(),
{
    if from.len() == 0 || s.len() < from.len() {
        s
    } else if s.take(from.len() as int) == from {
        to + replace(s.skip(from.len() as int), from, to)
    } else {
        seq![s[0]] + replace(s.drop_first(), from, to)
    }
}

/// `needle` occurs in `hay` at position `i`.
pub open spec fn occurs_at(hay: Seq<char>, needle: Seq<char>, i: int) -> bool {
    0 <= i && i + needle.len() <= hay.len() && hay.subrange(i, i + needle.len()) == needle
}

/// `needle` occurs somewhere in `hay`.
pub open spec fn contains(hay: Seq<char>, needle: Seq<char>) -> bool {
    exists|i: int| occurs_at(hay, needle, i)
}

/// `s` begins with `prefix`.
pub open spec fn starts_with(s: Seq<char>, prefix: Seq<char>) -> bool {
    occurs_at(s, prefix, 0)
}

pub open spec fn is_digit(c: char) -> bool {
    48 <= c as u32 <= 57
}

pub open spec fn digit_value(c: char) -> nat {
    (c as u32 - 48) as nat
}

/// The number that a sequence of decimal digits denotes.
pub open spec fn digits_value(d: Seq<char>) -> nat
    decreases d.len(),
{
    if d.len() == 0 {
        0
    } else {
        digits_value(d.drop_last()) * 10 + digit_value(d.last())
    }
}

pub open spec fn all_digits(d: Seq<char>) -> bool {
    forall|i: int| 0 <= i < d.len() ==> is_digit(#[trigger] d[i])
}

/// The digits of an unsigned number: the text after one optional `+`.
pub open spec fn unsigned_digits(s: Seq<char>) -> Seq<char> {
    if s.len() > 0 && s[0] == '+' {
        s.drop_first()
    } else {
        s
    }
}

/// What `str::parse::<u64>` gives: an optional `+`, then at least one
/// decimal digit and nothing else, denoting a number that fits in 64 bits.
pub open spec fn parse_u64(s: Seq<char>) -> Option<u64> {
    let d = unsigned_digits(s);
    if d.len() > 0 && all_digits(d) && digits_value(d) <= u64::MAX {
        Some(digits_value(d) as u64)
    } else {
        None
    }
}

pub open spec fn digit_char(d: nat) -> char {
    seq!['0', '1', '2', '3', '4', '5', '6', '7', '8', '9'][d as int]
}

/// The decimal notation of `n`, without leading zeros.
pub open spec fn decimal(n: nat) -> Seq<char>
    decreases n,
{
    if n < 10 {
        seq![digit_char(n)]
    } else {
        decimal(n / 10).push(digit_char(n % 10))
    }
}

/// The decimal notation of a signed number: a minus sign before the
/// digits of a negative one.
pub open spec fn signed_decimal(n: int) -> Seq<char> {
    if n < 0 {
        "-"@ + decimal((-n) as nat)
    } else {
        decimal(n as nat)
    }
}

/// `s` without any leading `c`.
pub open spec fn strip_leading(s: Seq<char>, c: char) -> Seq<char>
    decreases s.len(),
{
    if s.len() > 0 && s[0] == c {
        strip_leading(s.drop_first(), c)
    } else {
        s
    }
}

/// How a command line shows a process's exit code: the number, or
/// "unknown" where the process ended without one.
pub open spec fn exit_code_text(code: Option<i32>) -> Seq<char> {
    match code {
        Some(c) => signed_decimal(c as int),
        None => "unknown"@,
    }
}

/// The view of an optional string.
pub open spec fn opt_view(o: Option<String>) -> Option<Seq<char>> {
    match o {
        Some(s) => Some(s@),
        None => None,
    }
}

/// The views of a sequence of strings.
pub open spec fn string_views(v: Seq<String>) -> Seq<Seq<char>> {
    v.map_values(|s: String| s@)
}

/// The views of a sequence of string slices.
pub open spec fn views(v: Seq<&str>) -> Seq<Seq<char>> {
    v.map_values(|p: &str| p@)
}

// ---------------------------------------------------------------------------
// Lemmas
// ---------------------------------------------------------------------------

proof fn lemma_trim_start_is_skip(s: Seq<char>, a: int)
    requires
        0 <= a <= s.len(),
        forall|i: int| 0 <= i < a ==> is_white_space(#[trigger] s[i]),
        a == s.len() || !is_white_space(s[a]),
    ensures
        trim_start(s) == s.skip(a),
    decreases a,
{
    if a == 0 {
        assert(s.skip(0) =~= s);
    } else {
        assert(is_white_space(s[0]));
        let t = s.drop_first();
        assert forall|i: int| 0 <= i < a - 1 implies is_white_space(#[trigger] t[i]) by {
            assert(t[i] == s[i + 1]);
        }
        lemma_trim_start_is_skip(t, a - 1);
        assert(t.skip(a - 1) =~= s.skip(a));
    }
}

proof fn lemma_trim_end_is_take(t: Seq<char>, b: int)
    requires
        0 <= b <= t.len(),
        forall|i: int| b <= i < t.len() ==> is_white_space(#[trigger] t[i]),
        b == 0 || !is_white_space(t[b - 1]),
    ensures
        trim_end(t) == t.take(b),
    decreases t.len() - b,
{
    if b == t.len() {
        assert(t.take(b) =~= t);
    } else {
        assert(is_white_space(t.last()));
        let u = t.drop_last();
        assert forall|i: int| b <= i < u.len() implies is_white_space(#[trigger] u[i]) by {
            assert(u[i] == t[i]);
        }
        lemma_trim_end_is_take(u, b);
        assert(u.take(b) =~= t.take(b));
    }
}

pub proof fn lemma_split_on_nonempty(s: Seq<char>, sep: char)
    ensures
        split_on(s, sep).len() >= 1,
    decreases s.len(),
{
    if s.len() > 0 {
        lemma_split_on_nonempty(s.drop_last(), sep);
    }
}

proof fn lemma_digits_value_prefix(d: Seq<char>, k: int)
    requires
        0 <= k <= d.len(),
    ensures
        digits_value(d.take(k)) <= digits_value(d),
    decreases d.len(),
{
    if k < d.len() {
        lemma_digits_value_prefix(d.drop_last(), k);
        assert(d.drop_last().take(k) =~= d.take(k));
    } else {
        assert(d.take(k) =~= d);
    }
}

proof fn lemma_decimal_nonempty(n: nat)
    ensures
        decimal(n).len() >= 1,
    decreases n,
{
    if n >= 10 {
        lemma_decimal_nonempty(n / 10);
    }
}

// ---------------------------------------------------------------------------
// Decoding bytes
// ---------------------------------------------------------------------------

/// What `String::from_utf8_lossy` makes of `bytes`.
pub uninterp spec fn utf8_lossy(bytes: Seq<u8>) -> Seq<char>;

/// What the error of `String::from_utf8` on `bytes` reads when printed.
pub uninterp spec fn utf8_error_text(bytes: Seq<u8>) -> Seq<char>;

/// `String::from_utf8`. Its documentation promises an error exactly when the
/// bytes are not valid UTF-8, and otherwise the text they encode; this
/// contract says so over vstd's `valid_utf8` and `decode_utf8`. The error is
/// handed on as the text it prints (which says where the bytes go wrong, a
/// function of the bytes alone), named `utf8_error_text`, not restated.
#[verifier::external_body]
pub(crate) fn decode_utf8_bytes(bytes: Vec<u8>) -> (r: Result<String, String>)
    ensures
        r is Ok <==> valid_utf8(bytes@),
        r matches Ok(s) ==> s@ == decode_utf8(bytes@),
        r matches Err(e) ==> e@ == utf8_error_text(bytes@),
{
    match String::from_utf8(bytes) {
        Ok(text) => Ok(text),
        Err(e) => Err(e.to_string()),
    }
}

/// `String::from_utf8_lossy`, made owned. The result is named
/// `utf8_lossy(bytes)`; where the bytes are valid UTF-8 its documentation
/// promises the text they encode, as the second clause says. Which
/// replacement characters stand for invalid sequences is not stated.
#[verifier::external_body]
pub(crate) fn decode_utf8_lossy(bytes: &[u8]) -> (r: String)
    ensures
        r@ == utf8_lossy(bytes@),
        valid_utf8(bytes@) ==> r@ == decode_utf8(bytes@),
{
    String::from_utf8_lossy(bytes).into_owned()
}

// ---------------------------------------------------------------------------
// Executable operations
// ---------------------------------------------------------------------------

/// The characters of `s`, in order.
pub fn char_vec(s: &str) -> (v: Vec<char>)
    ensures
        v@ == s@,
{
    let mut v: Vec<char> = Vec::new();
    for c in it: s.chars()
        invariant
            v@ == it.seq().take(it.index()),
    {
        v.push(c);
    }
    v
}

/// A copy of `s` as an owned string.
pub fn owned(s: &str) -> (r: String)
    ensures
        r@ == s@,
{
    String::from_str(s)
}

/// Whether `c` is white space.
pub fn is_ws(c: char) -> (b: bool)
    ensures
        b == is_white_space(c),
{
    let u = c as u32;
    (0x9 <= u && u <= 0xd) || u == 0x20 || u == 0x85 || u == 0xa0 || u == 0x1680 || (0x2000 <= u
        && u <= 0x200a) || u == 0x2028 || u == 0x2029 || u == 0x202f || u == 0x205f || u == 0x3000
}

/// Whether the two strings hold the same characters.
pub fn str_eq(a: &str, b: &str) -> (r: bool)
    ensures
        r == (a@ == b@),
{
    let va = char_vec(a);
    let vb = char_vec(b);
    if va.len() != vb.len() {
        return false;
    }
    let mut i: usize = 0;
    while i < va.len()
        invariant
            va@ == a@,
            vb@ == b@,
            va.len() == vb.len(),
            i <= va.len(),
            forall|j: int| 0 <= j < i ==> va@[j] == vb@[j],
        decreases va.len() - i,
    {
        if va[i] != vb[i] {
            return false;
        }
        i += 1;
    }
    assert(va@ =~= vb@);
    true
}

/// `s` without leading and trailing white space.
pub fn trim_str(s: &str) -> (r: &str)
    ensures
        r@ == trim(s@),
{
    let v = char_vec(s);
    let n = v.len();
    let mut a: usize = 0;
    while a < n && is_ws(v[a])
        invariant
            v@ == s@,
            n == v@.len(),
            a <= n,
            forall|i: int| 0 <= i < a ==> is_white_space(#[trigger] v@[i]),
        decreases n - a,
    {
        a += 1;
    }
    let mut b: usize = n;
    while b > a && is_ws(v[b - 1])
        invariant
            v@ == s@,
            n == v@.len(),
            a <= b <= n,
            forall|i: int| b <= i < n ==> is_white_space(#[trigger] v@[i]),
        decreases b,
    {
        b -= 1;
    }
    proof {
        lemma_trim_start_is_skip(s@, a as int);
        let t = s@.skip(a as int);
        assert forall|i: int| (b - a) <= i < t.len() implies is_white_space(#[trigger] t[i]) by {
            assert(t[i] == v@[i + a]);
        }
        if b > a {
            assert(t[b - a - 1] == v@[b - 1]);
        }
        lemma_trim_end_is_take(t, (b - a) as int);
        assert(t.take((b - a) as int) =~= s@.subrange(a as int, b as int));
    }
    s.substring_char(a, b)
}

/// Whether `p` occurs in `v` at position `i`.
fn matches_at(v: &Vec<char>, p: &Vec<char>, i: usize) -> (b: bool)
    requires
        i + p.len() <= v.len(),
    ensures
        b == (v@.subrange(i as int, i + p.len()) == p@),
{
    let m = p.len();
    let mut k: usize = 0;
    while k < m
        invariant
            m == p.len(),
            i + m <= v.len(),
            k <= m,
            forall|j: int| 0 <= j < k ==> v@[i + j] == p@[j],
        decreases m - k,
    {
        if v[i + k] != p[k] {
            assert(v@.subrange(i as int, i + m)[k as int] != p@[k as int]);
            return false;
        }
        k += 1;
    }
    assert(v@.subrange(i as int, i + m) =~= p@);
    true
}

/// Whether `needle` occurs in `hay`.
pub fn contains_str(hay: &str, needle: &str) -> (b: bool)
    ensures
        b == contains(hay@, needle@),
{
    let v = char_vec(hay);
    let p = char_vec(needle);
    let n = v.len();
    let m = p.len();
    if m > n {
        assert forall|i: int| !occurs_at(hay@, needle@, i) by {}
        return false;
    }
    if m == 0 {
        assert(hay@.subrange(0, 0) =~= needle@);
        assert(occurs_at(hay@, needle@, 0));
        return true;
    }
    let mut i: usize = 0;
    while i <= n - m
        invariant
            v@ == hay@,
            p@ == needle@,
            n == v.len(),
            m == p.len(),
            m <= n,
            m > 0,
            i <= n - m + 1,
            forall|j: int| 0 <= j < i ==> !occurs_at(hay@, needle@, j),
        decreases n - m + 1 - i,
    {
        if matches_at(&v, &p, i) {
            assert(occurs_at(hay@, needle@, i as int));
            return true;
        }
        i += 1;
    }
    assert forall|j: int| !occurs_at(hay@, needle@, j) by {
        if 0 <= j < i {
        }
    }
    false
}

/// Whether `s` begins with `prefix`.
pub fn starts_with_str(s: &str, prefix: &str) -> (b: bool)
    ensures
        b == starts_with(s@, prefix@),
{
    let v = char_vec(s);
    let p = char_vec(prefix);
    if p.len() > v.len() {
        false
    } else {
        matches_at(&v, &p, 0)
    }
}

/// The pieces of `s` between occurrences of `sep`.
pub fn split_str<'a>(s: &'a str, sep: char) -> (parts: Vec<&'a str>)
    ensures
        views(parts@) == split_on(s@, sep),
{
    let v = char_vec(s);
    let n = v.len();
    let mut parts: Vec<&'a str> = Vec::new();
    let mut start: usize = 0;
    let mut i: usize = 0;
    assert(s@.take(0) =~= Seq::<char>::empty());
    assert(views(parts@).push(s@.subrange(0, 0)) =~= seq![Seq::<char>::empty()]);
    while i < n
        invariant
            v@ == s@,
            n == v@.len(),
            start <= i <= n,
            split_on(s@.take(i as int), sep) == views(parts@).push(s@.subrange(start as int, i as int)),
        decreases n - i,
    {
        let ghost pre = s@.take(i + 1);
        assert(pre.drop_last() =~= s@.take(i as int));
        assert(pre.last() == v@[i as int]);
        if v[i] == sep {
            let piece = s.substring_char(start, i);
            let ghost old_parts = parts@;
            parts.push(piece);
            assert(views(parts@) =~= views(old_parts).push(piece@));
            start = i + 1;
            assert(s@.subrange(start as int, i + 1) =~= Seq::<char>::empty());
        } else {
            assert(s@.subrange(start as int, i + 1) =~= s@.subrange(start as int, i as int).push(
                v@[i as int],
            ));
        }
        i += 1;
    }
    assert(s@.take(n as int) =~= s@);
    let last = s.substring_char(start, n);
    let ghost before = parts@;
    parts.push(last);
    assert(views(parts@) =~= views(before).push(last@));
    parts
}

/// `l` without a final carriage return.
fn strip_cr_str<'a>(l: &'a str) -> (r: &'a str)
    ensures
        r@ == strip_cr(l@),
{
    let n = l.unicode_len();
    if n > 0 && l.get_char(n - 1) == '\r' {
        let r = l.substring_char(0, n - 1);
        assert(r@ =~= l@.drop_last());
        r
    } else {
        l
    }
}

/// The lines of `s`, as `str::lines` gives them.
pub fn lines_str<'a>(s: &'a str) -> (out: Vec<&'a str>)
    ensures
        views(out@) == lines(s@),
{
    let parts = split_str(s, '\n');
    proof {
        lemma_split_on_nonempty(s@, '\n');
    }
    let k = parts.len() - 1;
    let mut out: Vec<&'a str> = Vec::new();
    let mut i: usize = 0;
    let ghost all = split_on(s@, '\n');
    while i < k
        invariant
            views(parts@) == all,
            k + 1 == parts.len(),
            i <= k,
            views(out@) == all.drop_last().take(i as int).map_values(|l: Seq<char>| strip_cr(l)),
        decreases k - i,
    {
        let line = strip_cr_str(parts[i]);
        let ghost before = out@;
        out.push(line);
        proof {
            assert(parts@[i as int]@ == all[i as int]);
            assert(views(out@) =~= views(before).push(line@));
            assert(all.drop_last().take(i + 1) =~= all.drop_last().take(i as int).push(
                all[i as int],
            ));
            assert(all.drop_last().take(i + 1).map_values(|l: Seq<char>| strip_cr(l))
                =~= all.drop_last().take(i as int).map_values(|l: Seq<char>| strip_cr(l)).push(
                strip_cr(all[i as int]),
            ));
        }
        i += 1;
    }
    assert(all.drop_last().take(k as int) =~= all.drop_last());
    let last = parts[k];
    assert(last@ == all.last());
    if last.unicode_len() == 0 {
        out
    } else {
        let ghost before = out@;
        out.push(last);
        assert(views(out@) =~= views(before).push(last@));
        out
    }
}

/// `s` with each occurrence of `from` replaced by `to`, as `str::replace`
/// does it for a non-empty pattern.
pub fn replace_str(s: &str, from: &str, to: &str) -> (r: String)
    requires
        from@.len() > 0,
    ensures
        r@ == replace(s@, from@, to@),
{
    let v = char_vec(s);
    let p = char_vec(from);
    let n = v.len();
    let m = p.len();
    let mut out = String::new();
    let mut seg: usize = 0;
    let mut i: usize = 0;
    assert(s@.skip(0) =~= s@);
    assert(out@ + s@.subrange(0, 0) =~= Seq::<char>::empty());
    while n - i >= m
        invariant
            v@ == s@,
            p@ == from@,
            n == v.len(),
            m == p.len(),
            m > 0,
            seg <= i <= n,
            replace(s@, from@, to@) == out@ + s@.subrange(seg as int, i as int) + replace(
                s@.skip(i as int),
                from@,
                to@,
            ),
        decreases n - i,
    {
        let ghost rest = s@.skip(i as int);
        assert(rest.take(m as int) =~= v@.subrange(i as int, i + m));
        if matches_at(&v, &p, i) {
            assert(rest.skip(m as int) =~= s@.skip(i + m));
            let piece = s.substring_char(seg, i);
            out.append(piece);
            out.append(to);
            i = i + m;
            seg = i;
            assert(s@.subrange(seg as int, i as int) =~= Seq::<char>::empty());
        } else {
            assert(rest.drop_first() =~= s@.skip(i + 1));
            assert(rest[0] == v@[i as int]);
            assert(s@.subrange(seg as int, i + 1) =~= s@.subrange(seg as int, i as int) + seq![
                v@[i as int],
            ]);
            i += 1;
        }
    }
    assert(replace(s@.skip(i as int), from@, to@) == s@.skip(i as int));
    assert(s@.subrange(seg as int, i as int) + s@.skip(i as int) =~= s@.subrange(
        seg as int,
        n as int,
    ));
    let tail = s.substring_char(seg, n);
    out.append(tail);
    out
}

/// The number that `s` denotes, as `str::parse::<u64>` reads it.
pub fn parse_u64_str(s: &str) -> (r: Option<u64>)
    ensures
        r == parse_u64(s@),
{
    let v = char_vec(s);
    let n = v.len();
    let start: usize = if n > 0 && v[0] == '+' {
        1
    } else {
        0
    };
    let ghost d = unsigned_digits(s@);
    assert(d =~= s@.skip(start as int));
    if start == n {
        return None;
    }
    let mut val: u64 = 0;
    let mut i: usize = start;
    assert(d.take(0) =~= Seq::<char>::empty());
    while i < n
        invariant
            v@ == s@,
            n == v.len(),
            start <= i <= n,
            d == s@.skip(start as int),
            d == unsigned_digits(s@),
            forall|j: int| 0 <= j < i - start ==> is_digit(#[trigger] d[j]),
            val as nat == digits_value(d.take(i - start)),
        decreases n - i,
    {
        let c = v[i];
        assert(c == d[i - start]);
        let cu = c as u32;
        if cu < 48 || cu > 57 {
            assert(!is_digit(d[i - start]));
            assert(!all_digits(d));
            return None;
        }
        let dv = (cu - 48) as u64;
        assert(d.take(i - start + 1).drop_last() =~= d.take(i - start));
        if val > (u64::MAX - dv) / 10 {
            proof {
                assert(val * 10 + dv > u64::MAX) by (nonlinear_arith)
                    requires
                        val > (u64::MAX - dv) / 10,
                        dv <= 9,
                ;
                assert(digits_value(d.take(i - start + 1)) == val * 10 + dv);
                lemma_digits_value_prefix(d, i - start + 1);
            }
            return None;
        }
        val = val * 10 + dv;
        i += 1;
    }
    assert(d.take(n - start) =~= d);
    Some(val)
}

/// The one-character text of decimal digit `d`.
fn digit_str(d: u64) -> (s: &'static str)
    requires
        d < 10,
    ensures
        s@ == seq![digit_char(d as nat)],
{
    proof {
        reveal_strlit("0");
        reveal_strlit("1");
        reveal_strlit("2");
        reveal_strlit("3");
        reveal_strlit("4");
        reveal_strlit("5");
        reveal_strlit("6");
        reveal_strlit("7");
        reveal_strlit("8");
        reveal_strlit("9");
    }
    let s = if d == 0 {
        "0"
    } else if d == 1 {
        "1"
    } else if d == 2 {
        "2"
    } else if d == 3 {
        "3"
    } else if d == 4 {
        "4"
    } else if d == 5 {
        "5"
    } else if d == 6 {
        "6"
    } else if d == 7 {
        "7"
    } else if d == 8 {
        "8"
    } else {
        "9"
    };
    assert(s@ =~= seq![digit_char(d as nat)]);
    s
}

/// The decimal notation of `n`, as `u64::to_string` writes it.
pub fn decimal_string(n: u64) -> (s: String)
    ensures
        s@ == decimal(n as nat),
    decreases n,
{
    if n < 10 {
        String::from_str(digit_str(n))
    } else {
        let mut s = decimal_string(n / 10);
        s.append(digit_str(n % 10));
        s
    }
}

/// The decimal notation of `n`, as `i32::to_string` writes it.
pub fn signed_decimal_string(n: i32) -> (s: String)
    ensures
        s@ == signed_decimal(n as int),
{
    if n < 0 {
        let magnitude = (-(n as i64)) as u64;
        let digits = decimal_string(magnitude);
        let mut s = owned("-");
        s.append(digits.as_str());
        s
    } else {
        decimal_string(n as u64)
    }
}

proof fn lemma_strip_leading_is_skip(s: Seq<char>, c: char, a: int)
    requires
        0 <= a <= s.len(),
        forall|i: int| 0 <= i < a ==> #[trigger] s[i] == c,
        a == s.len() || s[a] != c,
    ensures
        strip_leading(s, c) == s.skip(a),
    decreases a,
{
    if a == 0 {
        assert(s.skip(0) =~= s);
    } else {
        let t = s.drop_first();
        assert forall|i: int| 0 <= i < a - 1 implies #[trigger] t[i] == c by {
            assert(t[i] == s[i + 1]);
        }
        lemma_strip_leading_is_skip(t, c, a - 1);
        assert(t.skip(a - 1) =~= s.skip(a));
    }
}

/// `s` without any leading `c`, as `str::trim_start_matches` gives it.
pub fn strip_leading_str(s: &str, c: char) -> (r: &str)
    ensures
        r@ == strip_leading(s@, c),
{
    let v = char_vec(s);
    let n = v.len();
    let mut a: usize = 0;
    while a < n && v[a] == c
        invariant
            v@ == s@,
            n == v@.len(),
            a <= n,
            forall|i: int| 0 <= i < a ==> #[trigger] v@[i] == c,
        decreases n - a,
    {
        a += 1;
    }
    proof {
        lemma_strip_leading_is_skip(s@, c, a as int);
        assert(s@.skip(a as int) =~= s@.subrange(a as int, n as int));
    }
    s.substring_char(a, n)
}

/// `a` followed by `b`.
pub fn concat_str(a: &str, b: &str) -> (r: String)
    ensures
        r@ == a@ + b@,
{
    let mut r = owned(a);
    r.append(b);
    r
}

/// How a command line shows a process's exit code.
pub fn exit_code_string(code: Option<i32>) -> (s: String)
    ensures
        s@ == exit_code_text(code),
{
    match code {
        Some(c) => signed_decimal_string(c),
        None => owned("unknown"),
    }
}

// ---------------------------------------------------------------------------
// Facts about the specifications
// ---------------------------------------------------------------------------

/// Text without the separator is a single piece.
pub proof fn lemma_split_on_without_sep(s: Seq<char>, sep: char)
    requires
        !s.contains(sep),
    ensures
        split_on(s, sep) == seq![s],
    decreases s.len(),
{
    if s.len() > 0 {
        let init = s.drop_last();
        assert(!init.contains(sep)) by {
            if init.contains(sep) {
                let k = choose|k: int| 0 <= k < init.len() && init[k] == sep;
                assert(s[k] == sep);
            }
        }
        lemma_split_on_without_sep(init, sep);
        assert(s[s.len() - 1] == s.last());
        assert(init.push(s.last()) =~= s);
    } else {
        assert(s =~= Seq::<char>::empty());
    }
}

/// Two pieces without the separator, joined by it, split into those pieces.
pub proof fn lemma_split_on_two(a: Seq<char>, b: Seq<char>, sep: char)
    requires
        !a.contains(sep),
        !b.contains(sep),
    ensures
        split_on(a + seq![sep] + b, sep) == seq![a, b],
    decreases b.len(),
{
    if b.len() == 0 {
        lemma_split_on_without_sep(a, sep);
        let s = a + seq![sep];
        assert(s + b =~= s);
        assert(s.drop_last() =~= a);
        assert(s.last() == sep);
        assert(split_on(s, sep) == split_on(a, sep).push(Seq::<char>::empty()));
        assert(b =~= Seq::<char>::empty());
        assert(seq![a].push(Seq::<char>::empty()) =~= seq![a, b]);
    } else {
        let init = b.drop_last();
        assert(!init.contains(sep)) by {
            if init.contains(sep) {
                let k = choose|k: int| 0 <= k < init.len() && init[k] == sep;
                assert(b[k] == sep);
            }
        }
        lemma_split_on_two(a, init, sep);
        let s = a + seq![sep] + b;
        assert(s.drop_last() =~= a + seq![sep] + init);
        assert(s.last() == b.last());
        assert(b[b.len() - 1] == b.last());
        assert(b.last() != sep);
        assert(init.push(b.last()) =~= b);
        let prev = split_on(s.drop_last(), sep);
        assert(prev == seq![a, init]);
        assert(split_on(s, sep) == prev.update(prev.len() - 1, prev.last().push(s.last())));
        assert(prev.update(1, init.push(b.last())) =~= seq![a, b]);
    }
}

/// A decimal digit stands for the number it names.
pub proof fn lemma_digit_char(d: nat)
    requires
        d < 10,
    ensures
        is_digit(digit_char(d)),
        digit_value(digit_char(d)) == d,
        !is_white_space(digit_char(d)),
        digit_char(d) != '+',
        digit_char(d) != ',',
        digit_char(d) != ' ',
{
    let digits = seq!['0', '1', '2', '3', '4', '5', '6', '7', '8', '9'];
    assert(digit_char(d) == digits[d as int]);
}

/// The decimal notation of a number is made of digits and denotes it.
pub proof fn lemma_decimal_digits(n: nat)
    ensures
        decimal(n).len() > 0,
        all_digits(decimal(n)),
        digits_value(decimal(n)) == n,
    decreases n,
{
    if n < 10 {
        lemma_digit_char(n);
        assert(decimal(n) == seq![digit_char(n)]);
        assert(decimal(n).drop_last() =~= Seq::<char>::empty());
        assert(digits_value(Seq::<char>::empty()) == 0);
        assert(decimal(n).last() == digit_char(n));
    } else {
        lemma_decimal_digits(n / 10);
        lemma_digit_char(n % 10);
        let d = decimal(n);
        assert(d.drop_last() =~= decimal(n / 10));
        assert forall|i: int| 0 <= i < d.len() implies is_digit(#[trigger] d[i]) by {
            if i < d.len() - 1 {
                assert(d[i] == decimal(n / 10)[i]);
            }
        }
        assert(d.last() == digit_char(n % 10));
        assert((n / 10) * 10 + n % 10 == n) by (nonlinear_arith);
    }
}

/// Reading the decimal notation of a number gives the number back.
pub proof fn law_parse_decimal(n: u64)
    ensures
        parse_u64(decimal(n as nat)) == Some(n),
{
    lemma_decimal_digits(n as nat);
    let d = decimal(n as nat);
    assert(is_digit(d[0]));
    assert(d[0] != '+') by {
        if d[0] == '+' {
            assert(('+' as u32) == 43);
        }
    }
    assert(unsigned_digits(d) == d);
}

/// Lines, each followed by a line feed.
pub open spec fn terminated_lines(ls: Seq<Seq<char>>) -> Seq<char>
    decreases ls.len(),
{
    if ls.len() == 0 {
        Seq::empty()
    } else {
        terminated_lines(ls.drop_last()) + ls.last() + seq!['\n']
    }
}

/// A piece without the separator extends the last piece.
pub proof fn lemma_split_on_append_piece(x: Seq<char>, y: Seq<char>, sep: char)
    requires
        !y.contains(sep),
    ensures
        split_on(x + y, sep) == split_on(x, sep).update(
            split_on(x, sep).len() - 1,
            split_on(x, sep).last() + y,
        ),
    decreases y.len(),
{
    lemma_split_on_nonempty(x, sep);
    let p = split_on(x, sep);
    if y.len() == 0 {
        assert(x + y =~= x);
        assert(p.last() + y =~= p.last());
        assert(p.update(p.len() - 1, p.last() + y) =~= p);
    } else {
        let init = y.drop_last();
        assert(!init.contains(sep)) by {
            if init.contains(sep) {
                let k = choose|k: int| 0 <= k < init.len() && init[k] == sep;
                assert(y[k] == sep);
            }
        }
        lemma_split_on_append_piece(x, init, sep);
        let s = x + y;
        assert(s.drop_last() =~= x + init);
        assert(s.last() == y.last());
        assert(y[y.len() - 1] == y.last());
        let prev = split_on(x + init, sep);
        assert(prev.len() == p.len());
        assert(prev.last() == p.last() + init);
        assert((p.last() + init).push(y.last()) =~= p.last() + y);
        assert(prev.update(prev.len() - 1, prev.last().push(s.last())) =~= p.update(
            p.len() - 1,
            p.last() + y,
        ));
    }
}

/// Lines without line feeds, each followed by one, split into those lines
/// and an empty piece after the last line feed.
proof fn lemma_split_terminated_lines(ls: Seq<Seq<char>>)
    requires
        forall|i: int| 0 <= i < ls.len() ==> !(#[trigger] ls[i]).contains('\n'),
    ensures
        split_on(terminated_lines(ls), '\n') == ls.push(Seq::<char>::empty()),
    decreases ls.len(),
{
    if ls.len() == 0 {
        assert(terminated_lines(ls) =~= Seq::<char>::empty());
        assert(ls.push(Seq::<char>::empty()) =~= seq![Seq::<char>::empty()]);
    } else {
        let init = ls.drop_last();
        let l = ls.last();
        assert forall|i: int| 0 <= i < init.len() implies !(#[trigger] init[i]).contains('\n') by {
            assert(init[i] == ls[i]);
        }
        lemma_split_terminated_lines(init);
        assert(ls[ls.len() - 1] == l);
        let t = terminated_lines(init);
        lemma_split_on_append_piece(t, l, '\n');
        let body = t + l;
        let s = body + seq!['\n'];
        assert(s.drop_last() =~= body);
        assert(s.last() == '\n');
        let p = init.push(Seq::<char>::empty());
        assert(p.update(p.len() - 1, p.last() + l) =~= init.push(l));
        assert(init.push(l) =~= ls);
    }
}

/// Lines without line feeds, none ending in a carriage return, each
/// followed by a line feed, read back as those lines.
pub proof fn lemma_lines_of_terminated(ls: Seq<Seq<char>>)
    requires
        forall|i: int|
            0 <= i < ls.len() ==> !(#[trigger] ls[i]).contains('\n') && (ls[i].len() == 0
                || ls[i].last() != '\r'),
    ensures
        lines(terminated_lines(ls)) == ls,
{
    lemma_split_terminated_lines(ls);
    let parts = ls.push(Seq::<char>::empty());
    assert(parts.drop_last() =~= ls);
    assert(ls.map_values(|l: Seq<char>| strip_cr(l)) =~= ls) by {
        assert forall|i: int| 0 <= i < ls.len() implies strip_cr(ls[i]) == ls[i] by {}
    }
}

/// Trimming the front removes exactly the leading white space.
proof fn lemma_trim_start_shape(s: Seq<char>)
    ensures
        exists|a: int|
            0 <= a <= s.len() && trim_start(s) == s.skip(a) && (forall|i: int|
                0 <= i < a ==> is_white_space(#[trigger] s[i])) && (a == s.len()
                || !is_white_space(s[a])),
    decreases s.len(),
{
    if s.len() > 0 && is_white_space(s[0]) {
        let t = s.drop_first();
        lemma_trim_start_shape(t);
        let a = choose|a: int|
            0 <= a <= t.len() && trim_start(t) == t.skip(a) && (forall|i: int|
                0 <= i < a ==> is_white_space(#[trigger] t[i])) && (a == t.len()
                || !is_white_space(t[a]));
        assert(t.skip(a) =~= s.skip(a + 1));
        assert forall|i: int| 0 <= i < a + 1 implies is_white_space(#[trigger] s[i]) by {
            if i > 0 {
                assert(s[i] == t[i - 1]);
            }
        }
        if a < t.len() {
            assert(s[a + 1] == t[a]);
        }
    } else {
        assert(s.skip(0) =~= s);
    }
}

/// Trimming the back removes exactly the trailing white space.
proof fn lemma_trim_end_shape(s: Seq<char>)
    ensures
        exists|b: int|
            0 <= b <= s.len() && trim_end(s) == s.take(b) && (forall|i: int|
                b <= i < s.len() ==> is_white_space(#[trigger] s[i])) && (b == 0 || !is_white_space(
                s[b - 1],
            )),
    decreases s.len(),
{
    if s.len() > 0 && is_white_space(s.last()) {
        let t = s.drop_last();
        lemma_trim_end_shape(t);
        let b = choose|b: int|
            0 <= b <= t.len() && trim_end(t) == t.take(b) && (forall|i: int|
                b <= i < t.len() ==> is_white_space(#[trigger] t[i])) && (b == 0
                || !is_white_space(t[b - 1]));
        assert(t.take(b) =~= s.take(b));
        assert forall|i: int| b <= i < s.len() implies is_white_space(#[trigger] s[i]) by {
            if i < t.len() {
                assert(s[i] == t[i]);
            }
        }
        if b > 0 {
            assert(s[b - 1] == t[b - 1]);
        }
    } else {
        assert(s.take(s.len() as int) =~= s);
    }
}

/// Trimming removes white space from both ends and nothing else: the
/// result is a stretch of the text, everything before and after it is
/// white space, and it neither begins nor ends with white space.
pub proof fn law_trim(s: Seq<char>)
    ensures
        exists|a: int, b: int|
            0 <= a <= b <= s.len() && #[trigger] s.subrange(a, b) == trim(s) && (forall|i: int|
                0 <= i < a ==> is_white_space(#[trigger] s[i])) && (forall|i: int|
                b <= i < s.len() ==> is_white_space(#[trigger] s[i])),
        trim(s).len() > 0 ==> !is_white_space(trim(s)[0]) && !is_white_space(trim(s).last()),
        (forall|i: int| 0 <= i < s.len() ==> !is_white_space(#[trigger] s[i])) ==> trim(s) == s,
{
    lemma_trim_start_shape(s);
    let a = choose|a: int|
        0 <= a <= s.len() && trim_start(s) == s.skip(a) && (forall|i: int|
            0 <= i < a ==> is_white_space(#[trigger] s[i])) && (a == s.len() || !is_white_space(
            s[a],
        ));
    let t = s.skip(a);
    lemma_trim_end_shape(t);
    let b = choose|b: int|
        0 <= b <= t.len() && trim_end(t) == t.take(b) && (forall|i: int|
            b <= i < t.len() ==> is_white_space(#[trigger] t[i])) && (b == 0 || !is_white_space(
            t[b - 1],
        ));
    assert(t.take(b) =~= s.subrange(a, a + b));
    assert forall|i: int| a + b <= i < s.len() implies is_white_space(#[trigger] s[i]) by {
        assert(s[i] == t[i - a]);
    }
    if b > 0 {
        assert(trim(s)[0] == s[a]);
        assert(trim(s).last() == t[b - 1]);
    }
    if forall|i: int| 0 <= i < s.len() ==> !is_white_space(#[trigger] s[i]) {
        if a > 0 {
            assert(is_white_space(s[0]));
        }
        if a + b < s.len() {
            assert(is_white_space(s[a + b]));
        }
        assert(s.subrange(0, s.len() as int) =~= s);
    }
}

/// Splitting cuts at every separator and nowhere else: no piece holds the
/// separator, and the pieces joined with it give the text back.
pub proof fn law_split_on_rejoins(s: Seq<char>, sep: char)
    ensures
        forall|i: int| 0 <= i < split_on(s, sep).len() ==> !(#[trigger] split_on(s, sep)[i]).contains(sep),
        joined_with(split_on(s, sep), sep) == s,
    decreases s.len(),
{
    lemma_split_on_nonempty(s, sep);
    if s.len() == 0 {
        assert(joined_with(seq![Seq::<char>::empty()], sep) == Seq::<char>::empty());
    } else {
        let init = s.drop_last();
        let c = s.last();
        law_split_on_rejoins(init, sep);
        lemma_split_on_nonempty(init, sep);
        let p = split_on(init, sep);
        if c == sep {
            let q = p.push(Seq::<char>::empty());
            assert(q.drop_last() =~= p);
            assert forall|i: int| 0 <= i < q.len() implies !(#[trigger] q[i]).contains(sep) by {
                if i < p.len() {
                    assert(q[i] == p[i]);
                }
            }
            assert(joined_with(q, sep) == joined_with(p, sep) + seq![sep] + Seq::<char>::empty());
            assert(init.push(c) =~= s);
            assert(joined_with(p, sep) + seq![sep] + Seq::<char>::empty() =~= s);
        } else {
            let last = p.last();
            let q = p.update(p.len() - 1, last.push(c));
            assert forall|i: int| 0 <= i < q.len() implies !(#[trigger] q[i]).contains(sep) by {
                if i < p.len() - 1 {
                    assert(q[i] == p[i]);
                } else {
                    assert(!p[p.len() - 1].contains(sep));
                    if q[i].contains(sep) {
                        let k = choose|k: int| 0 <= k < q[i].len() && q[i][k] == sep;
                        if k < last.len() {
                            assert(last[k] == sep);
                        }
                    }
                }
            }
            lemma_joined_with_extend_last(p, sep, c);
            assert(init.push(c) =~= s);
        }
    }
}

/// Pieces joined with a separator between each two.
pub open spec fn joined_with(ps: Seq<Seq<char>>, sep: char) -> Seq<char>
    decreases ps.len(),
{
    if ps.len() == 0 {
        Seq::empty()
    } else if ps.len() == 1 {
        ps[0]
    } else {
        joined_with(ps.drop_last(), sep) + seq![sep] + ps.last()
    }
}

proof fn lemma_joined_with_extend_last(p: Seq<Seq<char>>, sep: char, c: char)
    requires
        p.len() >= 1,
    ensures
        joined_with(p.update(p.len() - 1, p.last().push(c)), sep) == joined_with(p, sep).push(c),
{
    let q = p.update(p.len() - 1, p.last().push(c));
    if p.len() == 1 {
        assert(q[0] == p[0].push(c));
    } else {
        assert(q.drop_last() =~= p.drop_last());
        assert(q.last() == p.last().push(c));
        assert(joined_with(p.drop_last(), sep) + seq![sep] + p.last().push(c) =~= (joined_with(
            p.drop_last(),
            sep,
        ) + seq![sep] + p.last()).push(c));
    }
}

/// Stripping a leading character removes every copy of it at the front and
/// nothing else.
pub proof fn law_strip_leading(s: Seq<char>, c: char)
    ensures
        exists|a: int|
            0 <= a <= s.len() && strip_leading(s, c) == s.skip(a) && (forall|i: int|
                0 <= i < a ==> #[trigger] s[i] == c),
        strip_leading(s, c).len() > 0 ==> strip_leading(s, c)[0] != c,
    decreases s.len(),
{
    if s.len() > 0 && s[0] == c {
        let t = s.drop_first();
        law_strip_leading(t, c);
        let a = choose|a: int|
            0 <= a <= t.len() && strip_leading(t, c) == t.skip(a) && (forall|i: int|
                0 <= i < a ==> #[trigger] t[i] == c);
        assert(t.skip(a) =~= s.skip(a + 1));
        assert forall|i: int| 0 <= i < a + 1 implies #[trigger] s[i] == c by {
            if i > 0 {
                assert(s[i] == t[i - 1]);
            }
        }
    } else {
        assert(s.skip(0) =~= s);
    }
}

/// How an exit code is shown: the number, with a minus sign where it is
/// negative, or "unknown" where the process ended without one.
pub proof fn law_exit_code_text(code: i32)
    ensures
        exit_code_text(None) == "unknown"@,
        code >= 0 ==> exit_code_text(Some(code)) == decimal(code as nat),
        code < 0 ==> exit_code_text(Some(code)) == "-"@ + decimal((-code) as nat),
{
}

/// The decimal notation of a number is its digits without leading zeros:
/// made of digits, denoting the number, and beginning with "0" only for 0
/// itself.
pub proof fn law_decimal(n: nat)
    ensures
        all_digits(decimal(n)),
        digits_value(decimal(n)) == n,
        decimal(0) == seq!['0'],
        n > 0 ==> decimal(n)[0] != '0',
    decreases n,
{
    lemma_decimal_digits(n);
    lemma_digit_char(0);
    if n >= 10 {
        law_decimal(n / 10);
        assert(decimal(n)[0] == decimal(n / 10)[0]);
    } else if n > 0 {
        lemma_digit_char(n);
        if digit_char(n) == '0' {
            assert(digit_value(digit_char(n)) == digit_value(digit_char(0)));
        }
    }
}

} // verus!
