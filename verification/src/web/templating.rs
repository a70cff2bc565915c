//! Filling in the placeholders of install Job manifests.
use vstd::prelude::*;

use k8s_openapi::api::batch::v1::Job;

use crate::text::{
    contains, decimal, decimal_string, is_digit, lemma_decimal_digits, occurs_at, replace,
    replace_str,
};
use crate::web::jobs::{job_manifest_parses, parse_job_manifest, parsed_job};

verus! {

/// The placeholders of a manifest and what replaces them.
pub const MODULE_ID_PLACEHOLDER: &'static str = "{{ module_id }}";
pub const TIMESTAMP_PLACEHOLDER: &'static str = "{{ timestamp }}";
pub const NAMESPACE_PLACEHOLDER: &'static str = "{{ namespace }}";
pub const DOMAIN_PLACEHOLDER: &'static str = "{{ domain }}";
pub const TEMPLATE_NAMESPACE: &'static str = "ferrishost";
pub const TEMPLATE_DOMAIN: &'static str = "ferrishost.homelab.local";

/// `yaml` with its placeholders filled in, in this order: the module id,
/// the time `timestamp` (seconds since the Unix epoch), the namespace
/// "ferrishost" and the domain "ferrishost.homelab.local".
pub open spec fn templated_manifest(yaml: Seq<char>, module_id: Seq<char>, timestamp: u64) -> Seq<
    char,
> {
    let a = replace(yaml, MODULE_ID_PLACEHOLDER@, module_id);
    let b = replace(a, TIMESTAMP_PLACEHOLDER@, decimal(timestamp as nat));
    let c = replace(b, NAMESPACE_PLACEHOLDER@, TEMPLATE_NAMESPACE@);
    replace(c, DOMAIN_PLACEHOLDER@, TEMPLATE_DOMAIN@)
}

proof fn lemma_placeholders_nonempty()
    ensures
        MODULE_ID_PLACEHOLDER@.len() > 0,
        TIMESTAMP_PLACEHOLDER@.len() > 0,
        NAMESPACE_PLACEHOLDER@.len() > 0,
        DOMAIN_PLACEHOLDER@.len() > 0,
{
    reveal_strlit("{{ module_id }}");
    reveal_strlit("{{ timestamp }}");
    reveal_strlit("{{ namespace }}");
    reveal_strlit("{{ domain }}");
}

/// `yaml` with its placeholders filled in for `module_id` at time
/// `timestamp`.
pub fn template_manifest_at(yaml: &str, module_id: &str, timestamp: u64) -> (r: String)
    ensures
        r@ == templated_manifest(yaml@, module_id@, timestamp),
{
    proof {
        lemma_placeholders_nonempty();
    }
    let stamp = decimal_string(timestamp);
    let a = replace_str(yaml, MODULE_ID_PLACEHOLDER, module_id);
    let b = replace_str(a.as_str(), TIMESTAMP_PLACEHOLDER, stamp.as_str());
    let c = replace_str(b.as_str(), NAMESPACE_PLACEHOLDER, TEMPLATE_NAMESPACE);
    replace_str(c.as_str(), DOMAIN_PLACEHOLDER, TEMPLATE_DOMAIN)
}

#[verifier::external_type_specification]
#[verifier::external_body]
pub struct ExSystemTime(std::time::SystemTime);

/// `SystemTime::now()`: the time the system clock shows. Nothing is stated
/// of it: it is the time.
#[verifier::external_body]
fn clock_now() -> (t: std::time::SystemTime) {
    std::time::SystemTime::now()
}

/// `SystemTime::duration_since(UNIX_EPOCH)`, in whole seconds: how long
/// after the Unix epoch `t` is; none where `t` is before the epoch. Nothing
/// is stated of the value, since a `SystemTime` is opaque here.
#[verifier::external_body]
fn secs_since_epoch(t: std::time::SystemTime) -> (r: Option<u64>) {
    match t.duration_since(std::time::UNIX_EPOCH) {
        Ok(elapsed) => Some(elapsed.as_secs()),
        Err(_) => None,
    }
}

/// The seconds since the Unix epoch now, or 0 where the clock is set before
/// the epoch.
fn unix_timestamp() -> (t: u64) {
    match secs_since_epoch(clock_now()) {
        Some(t) => t,
        None => 0,
    }
}

/// `yaml` with its placeholders filled in for `module_id` at the current
/// time.
pub fn template_manifest(yaml: &str, module_id: &str) -> (r: String)
    ensures
        exists|timestamp: u64| r@ == templated_manifest(yaml@, module_id@, timestamp),
{
    let now = unix_timestamp();
    template_manifest_at(yaml, module_id, now)
}

/// The install Job for `module_id` from its manifest, filled in for time
/// `timestamp`; none where the filled-in manifest is not a Job.
pub fn prepare_install_job_at(yaml: &str, module_id: &str, timestamp: u64) -> (r: Option<Job>)
    ensures
        r is Some <==> job_manifest_parses(templated_manifest(yaml@, module_id@, timestamp)),
        r matches Some(j) ==> j == parsed_job(templated_manifest(yaml@, module_id@, timestamp)),
{
    let templated = template_manifest_at(yaml, module_id, timestamp);
    parse_job_manifest(templated.as_str())
}

/// The install Job for `module_id` from its manifest, filled in for the
/// current time; none where the filled-in manifest is not a Job.
pub fn prepare_install_job(yaml: &str, module_id: &str) -> (r: Option<Job>)
    ensures
        exists|timestamp: u64|
            {
                &&& (r is Some <==> job_manifest_parses(
                    templated_manifest(yaml@, module_id@, timestamp),
                ))
                &&& (r matches Some(j) ==> j == parsed_job(
                    templated_manifest(yaml@, module_id@, timestamp),
                ))
            },
{
    let now = unix_timestamp();
    prepare_install_job_at(yaml, module_id, now)
}

/// Replacing a pattern that does not occur leaves the text unchanged.
pub proof fn lemma_replace_absent(s: Seq<char>, from: Seq<char>, to: Seq<char>)
    requires
        from.len() > 0,
        !contains(s, from),
    ensures
        replace(s, from, to) == s,
    decreases s.len(),
{
    if s.len() >= from.len() {
        if s.take(from.len() as int) == from {
            assert(s.subrange(0, from.len() as int) =~= s.take(from.len() as int));
            assert(occurs_at(s, from, 0));
        }
        let t = s.drop_first();
        if contains(t, from) {
            let i = choose|i: int| occurs_at(t, from, i);
            assert(s.subrange(i + 1, i + 1 + from.len()) =~= t.subrange(i, i + from.len()));
            assert(occurs_at(s, from, i + 1));
        }
        lemma_replace_absent(t, from, to);
        assert(seq![s[0]] + t =~= s);
    }
}

/// A manifest without placeholders is left as it is.
pub proof fn law_template_without_placeholders(yaml: Seq<char>, module_id: Seq<char>, timestamp: u64)
    requires
        !contains(yaml, MODULE_ID_PLACEHOLDER@),
        !contains(yaml, TIMESTAMP_PLACEHOLDER@),
        !contains(yaml, NAMESPACE_PLACEHOLDER@),
        !contains(yaml, DOMAIN_PLACEHOLDER@),
    ensures
        templated_manifest(yaml, module_id, timestamp) == yaml,
{
    lemma_placeholders_nonempty();
    lemma_replace_absent(yaml, MODULE_ID_PLACEHOLDER@, module_id);
    lemma_replace_absent(yaml, TIMESTAMP_PLACEHOLDER@, decimal(timestamp as nat));
    lemma_replace_absent(yaml, NAMESPACE_PLACEHOLDER@, TEMPLATE_NAMESPACE@);
    lemma_replace_absent(yaml, DOMAIN_PLACEHOLDER@, TEMPLATE_DOMAIN@);
}

/// `s` holds no opening brace.
pub open spec fn brace_free(s: Seq<char>) -> bool {
    !s.contains('{')
}

/// Text without braces in front of the rest is copied as it is: no
/// occurrence of a pattern that begins with a brace starts in it.
proof fn lemma_replace_after_brace_free(a: Seq<char>, b: Seq<char>, from: Seq<char>, to: Seq<char>)
    requires
        brace_free(a),
        from.len() > 0,
        from[0] == '{',
    ensures
        replace(a + b, from, to) == a + replace(b, from, to),
    decreases a.len(),
{
    let s = a + b;
    if a.len() == 0 {
        assert(s =~= b);
    } else {
        assert(s[0] == a[0]);
        if a[0] == '{' {
            assert(a.contains('{'));
        }
        if s.len() >= from.len() {
            assert(s.take(from.len() as int)[0] == s[0]);
            assert(s.take(from.len() as int) != from);
            let rest = a.drop_first();
            assert(s.drop_first() =~= rest + b);
            if rest.contains('{') {
                let k = choose|k: int| 0 <= k < rest.len() && rest[k] == '{';
                assert(a[k + 1] == '{');
            }
            lemma_replace_after_brace_free(rest, b, from, to);
            assert(seq![s[0]] + (rest + replace(b, from, to)) =~= a + replace(b, from, to));
        } else {
            assert(b.len() < from.len());
            assert(replace(b, from, to) == b);
            assert(replace(s, from, to) == s);
        }
    }
}

/// One of the four placeholders.
pub open spec fn is_placeholder(p: Seq<char>) -> bool {
    ||| p == MODULE_ID_PLACEHOLDER@
    ||| p == TIMESTAMP_PLACEHOLDER@
    ||| p == NAMESPACE_PLACEHOLDER@
    ||| p == DOMAIN_PLACEHOLDER@
}

/// The shape of a placeholder: two opening braces and a space, then text
/// without a brace; placeholders differ in their fourth character.
spec fn placeholder_shaped(p: Seq<char>, fourth: char) -> bool {
    &&& p.len() >= 4
    &&& p[0] == '{'
    &&& p[1] == '{'
    &&& p[2] == ' '
    &&& p[3] == fourth
    &&& brace_free(p.skip(2))
}

proof fn lemma_brace_free_literal(p: Seq<char>)
    requires
        forall|i: int| 0 <= i < p.len() ==> #[trigger] p[i] != '{',
    ensures
        brace_free(p),
{
}

proof fn lemma_placeholder_shapes()
    ensures
        placeholder_shaped(MODULE_ID_PLACEHOLDER@, 'm'),
        placeholder_shaped(TIMESTAMP_PLACEHOLDER@, 't'),
        placeholder_shaped(NAMESPACE_PLACEHOLDER@, 'n'),
        placeholder_shaped(DOMAIN_PLACEHOLDER@, 'd'),
{
    reveal_strlit("{{ module_id }}");
    reveal_strlit("{{ timestamp }}");
    reveal_strlit("{{ namespace }}");
    reveal_strlit("{{ domain }}");
    lemma_brace_free_literal(MODULE_ID_PLACEHOLDER@.skip(2));
    lemma_brace_free_literal(TIMESTAMP_PLACEHOLDER@.skip(2));
    lemma_brace_free_literal(NAMESPACE_PLACEHOLDER@.skip(2));
    lemma_brace_free_literal(DOMAIN_PLACEHOLDER@.skip(2));
}

/// What a placeholder piece becomes when `from` is replaced by `to`: `to`
/// where it is `from`, itself otherwise.
proof fn lemma_replace_placeholder_first(
    q: Seq<char>,
    b: Seq<char>,
    from: Seq<char>,
    to: Seq<char>,
)
    requires
        is_placeholder(q),
        is_placeholder(from),
    ensures
        replace(q + b, from, to) == (if q == from {
            to
        } else {
            q
        }) + replace(b, from, to),
{
    lemma_placeholder_shapes();
    let s = q + b;
    if q == from {
        assert(s.take(from.len() as int) =~= from);
        assert(s.skip(from.len() as int) =~= b);
        assert(replace(s, from, to) == to + replace(b, from, to));
    } else {
        // `q` and `from` differ in their fourth character, and only the first
        // two characters of `q` are braces.
        assert(q[3] != from[3]);
        if s.len() >= from.len() {
            assert(s.take(from.len() as int)[3] == q[3]);
            assert(s.take(from.len() as int) != from);
            let s1 = s.drop_first();
            assert(s1[1] == ' ');
            if s1.len() >= from.len() {
                assert(s1.take(from.len() as int)[1] == ' ');
                assert(s1.take(from.len() as int) != from);
                assert(s1.drop_first() =~= q.skip(2) + b);
                lemma_replace_after_brace_free(q.skip(2), b, from, to);
                assert(replace(s, from, to) == seq![s[0]] + replace(s1, from, to));
                assert(replace(s1, from, to) == seq![s1[0]] + replace(s1.drop_first(), from, to));
                assert(seq![s[0]] + (seq![s1[0]] + (q.skip(2) + replace(b, from, to))) =~= q
                    + replace(b, from, to));
            } else {
                assert(b.len() < from.len());
                assert(replace(s1, from, to) == s1);
                assert(replace(s, from, to) == seq![s[0]] + replace(s1, from, to));
                assert(seq![s[0]] + s1 =~= s);
                assert(replace(b, from, to) == b);
            }
        } else {
            assert(b.len() < from.len());
            assert(replace(b, from, to) == b);
            assert(replace(s, from, to) == s);
        }
    }
}

/// A manifest cut into pieces, each of them a placeholder or text without
/// braces: all its braces belong to its placeholders.
pub open spec fn braces_only_in_placeholders(ps: Seq<Seq<char>>) -> bool {
    forall|i: int| 0 <= i < ps.len() ==> is_placeholder(#[trigger] ps[i]) || brace_free(ps[i])
}

/// A piece after `from` is replaced by `to`.
spec fn replaced_piece(p: Seq<char>, from: Seq<char>, to: Seq<char>) -> Seq<char> {
    if p == from {
        to
    } else {
        p
    }
}

/// Replacing a placeholder in a manifest whose braces all belong to its
/// placeholders replaces exactly the pieces that are that placeholder.
proof fn lemma_replace_pieces(ps: Seq<Seq<char>>, from: Seq<char>, to: Seq<char>)
    requires
        braces_only_in_placeholders(ps),
        is_placeholder(from),
    ensures
        replace(ps.flatten(), from, to) == ps.map_values(
            |p: Seq<char>| replaced_piece(p, from, to),
        ).flatten(),
    decreases ps.len(),
{
    let f = |p: Seq<char>| replaced_piece(p, from, to);
    if ps.len() == 0 {
        assert(ps.map_values(f) =~= Seq::<Seq<char>>::empty());
    } else {
        let rest = ps.drop_first();
        assert forall|i: int| 0 <= i < rest.len() implies is_placeholder(#[trigger] rest[i])
            || brace_free(rest[i]) by {
            assert(rest[i] == ps[i + 1]);
        }
        lemma_replace_pieces(rest, from, to);
        assert(ps.map_values(f).drop_first() =~= rest.map_values(f));
        assert(ps.map_values(f).first() == f(ps[0]));
        if is_placeholder(ps[0]) {
            lemma_replace_placeholder_first(ps[0], rest.flatten(), from, to);
        } else {
            lemma_placeholder_shapes();
            assert(ps[0] != from) by {
                if ps[0] == from {
                    assert(ps[0][0] == '{');
                    assert(ps[0].contains('{'));
                }
            }
            lemma_replace_after_brace_free(ps[0], rest.flatten(), from, to);
        }
    }
}

/// Text made of pieces without braces has no brace.
proof fn lemma_flatten_brace_free(ps: Seq<Seq<char>>)
    requires
        forall|i: int| 0 <= i < ps.len() ==> brace_free(#[trigger] ps[i]),
    ensures
        brace_free(ps.flatten()),
    decreases ps.len(),
{
    if ps.len() > 0 {
        let rest = ps.drop_first();
        assert forall|i: int| 0 <= i < rest.len() implies brace_free(#[trigger] rest[i]) by {
            assert(rest[i] == ps[i + 1]);
        }
        lemma_flatten_brace_free(rest);
        let a = ps[0];
        let b = rest.flatten();
        assert(brace_free(ps[0]));
        if (a + b).contains('{') {
            let k = choose|k: int| 0 <= k < (a + b).len() && (a + b)[k] == '{';
            if k < a.len() {
                assert(a[k] == '{');
                assert(a.contains('{'));
            } else {
                assert(b[k - a.len()] == '{');
                assert(b.contains('{'));
            }
        }
    }
}

/// What templating puts in place of a piece: the value of a placeholder,
/// any other text unchanged.
pub open spec fn filled_piece(p: Seq<char>, module_id: Seq<char>, timestamp: u64) -> Seq<char> {
    if p == MODULE_ID_PLACEHOLDER@ {
        module_id
    } else if p == TIMESTAMP_PLACEHOLDER@ {
        decimal(timestamp as nat)
    } else if p == NAMESPACE_PLACEHOLDER@ {
        TEMPLATE_NAMESPACE@
    } else if p == DOMAIN_PLACEHOLDER@ {
        TEMPLATE_DOMAIN@
    } else {
        p
    }
}

/// The values that templating fills in hold no brace (the module id aside).
proof fn lemma_values_brace_free(timestamp: u64)
    ensures
        brace_free(decimal(timestamp as nat)),
        brace_free(TEMPLATE_NAMESPACE@),
        brace_free(TEMPLATE_DOMAIN@),
{
    lemma_decimal_digits(timestamp as nat);
    let d = decimal(timestamp as nat);
    if d.contains('{') {
        let k = choose|k: int| 0 <= k < d.len() && d[k] == '{';
        assert(is_digit(d[k]));
    }
    reveal_strlit("ferrishost");
    reveal_strlit("ferrishost.homelab.local");
    lemma_brace_free_literal(TEMPLATE_NAMESPACE@);
    lemma_brace_free_literal(TEMPLATE_DOMAIN@);
}

/// Text without braces is no placeholder.
proof fn lemma_brace_free_not_placeholder(t: Seq<char>)
    requires
        brace_free(t),
    ensures
        !is_placeholder(t),
{
    lemma_placeholder_shapes();
    if is_placeholder(t) {
        assert(t[0] == '{');
        assert(t.contains('{'));
    }
}

/// Templating a manifest whose braces all belong to its placeholders, for a
/// module id without braces, fills in each placeholder with its value and
/// leaves every other piece of the manifest as it is; no brace, and so no
/// placeholder, is left.
pub proof fn law_template_fills_placeholders(
    ps: Seq<Seq<char>>,
    module_id: Seq<char>,
    timestamp: u64,
)
    requires
        braces_only_in_placeholders(ps),
        brace_free(module_id),
    ensures
        templated_manifest(ps.flatten(), module_id, timestamp) == ps.map_values(
            |p: Seq<char>| filled_piece(p, module_id, timestamp),
        ).flatten(),
        brace_free(templated_manifest(ps.flatten(), module_id, timestamp)),
{
    let m = MODULE_ID_PLACEHOLDER@;
    let t = TIMESTAMP_PLACEHOLDER@;
    let n = NAMESPACE_PLACEHOLDER@;
    let d = DOMAIN_PLACEHOLDER@;
    let stamp = decimal(timestamp as nat);
    lemma_placeholder_shapes();
    lemma_values_brace_free(timestamp);
    lemma_brace_free_not_placeholder(module_id);
    lemma_brace_free_not_placeholder(stamp);
    lemma_brace_free_not_placeholder(TEMPLATE_NAMESPACE@);
    lemma_brace_free_not_placeholder(TEMPLATE_DOMAIN@);
    assert(m[3] != t[3] && m[3] != n[3] && m[3] != d[3] && t[3] != n[3] && t[3] != d[3] && n[3]
        != d[3]);

    let f1 = |p: Seq<char>| replaced_piece(p, m, module_id);
    let f2 = |p: Seq<char>| replaced_piece(p, t, stamp);
    let f3 = |p: Seq<char>| replaced_piece(p, n, TEMPLATE_NAMESPACE@);
    let f4 = |p: Seq<char>| replaced_piece(p, d, TEMPLATE_DOMAIN@);
    let ps1 = ps.map_values(f1);
    let ps2 = ps1.map_values(f2);
    let ps3 = ps2.map_values(f3);
    let ps4 = ps3.map_values(f4);

    lemma_replace_pieces(ps, m, module_id);
    assert(braces_only_in_placeholders(ps1)) by {
        assert forall|i: int| 0 <= i < ps1.len() implies is_placeholder(#[trigger] ps1[i])
            || brace_free(ps1[i]) by {
            assert(ps1[i] == f1(ps[i]));
        }
    }
    lemma_replace_pieces(ps1, t, stamp);
    assert(braces_only_in_placeholders(ps2)) by {
        assert forall|i: int| 0 <= i < ps2.len() implies is_placeholder(#[trigger] ps2[i])
            || brace_free(ps2[i]) by {
            assert(ps2[i] == f2(ps1[i]));
        }
    }
    lemma_replace_pieces(ps2, n, TEMPLATE_NAMESPACE@);
    assert(braces_only_in_placeholders(ps3)) by {
        assert forall|i: int| 0 <= i < ps3.len() implies is_placeholder(#[trigger] ps3[i])
            || brace_free(ps3[i]) by {
            assert(ps3[i] == f3(ps2[i]));
        }
    }
    lemma_replace_pieces(ps3, d, TEMPLATE_DOMAIN@);

    let filled = ps.map_values(|p: Seq<char>| filled_piece(p, module_id, timestamp));
    assert forall|i: int| 0 <= i < ps.len() implies #[trigger] ps4[i] == filled[i] && brace_free(
        filled[i],
    ) by {
        let p = ps[i];
        assert(ps1[i] == f1(p));
        assert(ps2[i] == f2(ps1[i]));
        assert(ps3[i] == f3(ps2[i]));
        assert(ps4[i] == f4(ps3[i]));
        assert(filled[i] == filled_piece(p, module_id, timestamp));
        if !is_placeholder(p) {
            assert(brace_free(p));
        }
    }
    assert(ps4 =~= filled);
    lemma_flatten_brace_free(filled);
}

} // verus!
