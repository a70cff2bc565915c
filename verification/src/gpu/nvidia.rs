//! NVIDIA GPUs, as `nvidia-smi` lists them.
use vstd::prelude::*;
use vstd::string::*;
use vstd::utf8::*;

use crate::gpu::{GpuError, GpuErrorView, GpuVendor};
use crate::manifests::NVIDIA_MANIFEST;
use crate::text::{
    all_digits, decimal, decode_utf8_bytes, is_digit, is_white_space, law_parse_decimal,
    lemma_decimal_digits, lemma_lines_of_terminated, lemma_split_on_two, lines, lines_str, owned,
    parse_u64, parse_u64_str, replace, replace_str, split_on, split_str, terminated_lines, trim,
    trim_end, trim_start, trim_str, utf8_error_text, views,
};
use crate::types::GpuInfo;

verus! {

/// The containerd runtime that lets k3s start containers on NVIDIA GPUs.
pub const NVIDIA_RUNTIME_SNIPPET: &'static str = r#"
[plugins."io.containerd.grpc.v1.cri".containerd.runtimes.nvidia]
  runtime_engine = ""
  runtime_root = ""
  runtime_type = "io.containerd.runc.v2"
  [plugins."io.containerd.grpc.v1.cri".containerd.runtimes.nvidia.options]
    BinaryName = "/usr/bin/nvidia-container-runtime"
"#;

/// The query that lists the GPUs, one per line, as `name, memory`.
pub const SMI_QUERY_COMMAND: &'static str =
    "nvidia-smi --query-gpu=name,memory.total --format=csv,noheader";

/// The lookup of the NVIDIA container toolkit.
pub const TOOLKIT_LOOKUP_COMMAND: &'static str = "which nvidia-ctk";

/// A GPU of one line of `nvidia-smi` output: exactly two comma-separated
/// fields, the name and the memory in MiB ("24576 MiB"); the name without
/// surrounding white space, the memory a number once " MiB" is removed.
pub open spec fn smi_line_record(l: Seq<char>) -> Option<(Seq<char>, u64)> {
    let parts = split_on(l, ',');
    if parts.len() == 2 {
        match parse_u64(replace(trim(parts[1]), " MiB"@, ""@)) {
            Some(memory) => Some((trim(parts[0]), memory)),
            None => None,
        }
    } else {
        None
    }
}

/// The GPUs of the lines that describe one, in order.
pub open spec fn smi_records(ls: Seq<Seq<char>>) -> Seq<(Seq<char>, u64)>
    decreases ls.len(),
{
    if ls.len() == 0 {
        Seq::empty()
    } else {
        let init = smi_records(ls.drop_last());
        match smi_line_record(ls.last()) {
            Some(r) => init.push(r),
            None => init,
        }
    }
}

/// The GPUs that an `nvidia-smi` listing describes.
pub open spec fn smi_output_records(text: Seq<char>) -> Seq<(Seq<char>, u64)> {
    smi_records(lines(text))
}

pub open spec fn record_views(v: Seq<(String, u64)>) -> Seq<(Seq<char>, u64)> {
    v.map_values(|r: (String, u64)| (r.0@, r.1))
}

/// `gpus` are the NVIDIA GPUs of `records`, numbered from 0 in order.
pub open spec fn nvidia_gpus_of(gpus: Seq<GpuInfo>, records: Seq<(Seq<char>, u64)>) -> bool {
    &&& gpus.len() == records.len()
    &&& forall|i: int|
        0 <= i < gpus.len() ==> {
            &&& (#[trigger] gpus[i]).vendor@ == "nvidia"@
            &&& gpus[i].name@ == records[i].0
            &&& gpus[i].memory_mb == records[i].1
            &&& gpus[i].index == i as u32
        }
}

/// The GPU that one line of `nvidia-smi` output describes, if any.
pub fn parse_smi_line(line: &str) -> (r: Option<(String, u64)>)
    ensures
        r is None <==> smi_line_record(line@) is None,
        r matches Some(p) ==> smi_line_record(line@) == Some((p.0@, p.1)),
{
    let parts = split_str(line, ',');
    if parts.len() != 2 {
        return None;
    }
    proof {
        reveal_strlit(" MiB");
        assert(parts@[0]@ == split_on(line@, ',')[0]);
        assert(parts@[1]@ == split_on(line@, ',')[1]);
    }
    let name = owned(trim_str(parts[0]));
    let memory_text = replace_str(trim_str(parts[1]), " MiB", "");
    match parse_u64_str(memory_text.as_str()) {
        Some(memory) => Some((name, memory)),
        None => None,
    }
}

/// The GPUs that `nvidia-smi --query-gpu=name,memory.total
/// --format=csv,noheader` listed, in order; lines that describe none are
/// passed over.
pub fn parse_smi_output(text: &str) -> (r: Vec<(String, u64)>)
    ensures
        record_views(r@) == smi_output_records(text@),
{
    let ls = lines_str(text);
    let ghost lv = views(ls@);
    let mut out: Vec<(String, u64)> = Vec::new();
    let mut i: usize = 0;
    assert(lv.take(0) =~= Seq::<Seq<char>>::empty());
    assert(record_views(out@) =~= Seq::<(Seq<char>, u64)>::empty());
    while i < ls.len()
        invariant
            lv == views(ls@),
            i <= ls@.len(),
            record_views(out@) == smi_records(lv.take(i as int)),
        decreases ls@.len() - i,
    {
        let line = ls[i];
        proof {
            assert(lv.take(i + 1).drop_last() =~= lv.take(i as int));
            assert(lv.take(i + 1).last() == line@);
        }
        match parse_smi_line(line) {
            Some(p) => {
                let ghost before = out@;
                let ghost pv = (p.0@, p.1);
                out.push(p);
                assert(record_views(out@) =~= record_views(before).push(pv));
            },
            None => {},
        }
        i += 1;
    }
    assert(lv.take(ls@.len() as int) =~= lv);
    out
}

/// Finds NVIDIA GPUs with `nvidia-smi`.
#[derive(Debug)]
pub struct NvidiaGpu;

impl NvidiaGpu {
    /// A detector, provided `nvidia-smi --version` could be run.
    pub fn new(smi_runs: bool) -> (r: Result<NvidiaGpu, GpuError>)
        ensures
            r is Ok <==> smi_runs,
            r matches Err(e) ==> e@ == GpuErrorView::NvidiaSmiNotFound,
    {
        if smi_runs {
            Ok(NvidiaGpu)
        } else {
            Err(GpuError::NvidiaSmiNotFound)
        }
    }

    /// The GPUs of `records`, numbered from 0 in order.
    pub fn gpus_from_records(records: &Vec<(String, u64)>) -> (gpus: Vec<GpuInfo>)
        ensures
            nvidia_gpus_of(gpus@, record_views(records@)),
    {
        let mut gpus: Vec<GpuInfo> = Vec::new();
        let mut i: usize = 0;
        while i < records.len()
            invariant
                i <= records@.len(),
                gpus@.len() == i,
                forall|k: int|
                    0 <= k < i ==> {
                        &&& (#[trigger] gpus@[k]).vendor@ == "nvidia"@
                        &&& gpus@[k].name@ == records@[k].0@
                        &&& gpus@[k].memory_mb == records@[k].1
                        &&& gpus@[k].index == k as u32
                    },
            decreases records@.len() - i,
        {
            let name = records[i].0.clone();
            let memory_mb = records[i].1;
            let index = #[verifier::truncate] (i as u32);
            gpus.push(GpuInfo { vendor: owned("nvidia"), name, memory_mb, index });
            i += 1;
        }
        gpus
    }

    /// The GPUs that `nvidia-smi` lists, given what the query printed, or why
    /// it could not be run.
    pub fn detect(&self, smi_output: Result<Vec<u8>, String>) -> (r: Result<Vec<GpuInfo>, GpuError>)
        ensures
            smi_output matches Err(reason) ==> (r matches Err(e) && e@
                == (GpuErrorView::CommandFailed { command: SMI_QUERY_COMMAND@, reason: reason@ })),
            smi_output matches Ok(bytes) ==> {
                &&& !valid_utf8(bytes@) ==> (r matches Err(e) && e@
                    == (GpuErrorView::InvalidOutput {
                    command: SMI_QUERY_COMMAND@,
                    detail: utf8_error_text(bytes@),
                }))
                &&& valid_utf8(bytes@) ==> (r matches Ok(gpus) && nvidia_gpus_of(
                    gpus@,
                    smi_output_records(decode_utf8(bytes@)),
                ))
            },
    {
        match smi_output {
            Err(reason) => Err(GpuError::CommandFailed { command: owned(SMI_QUERY_COMMAND), reason }),
            Ok(bytes) => match decode_utf8_bytes(bytes) {
                Err(detail) => Err(
                    GpuError::InvalidOutput { command: owned(SMI_QUERY_COMMAND), detail },
                ),
                Ok(text) => {
                    let records = parse_smi_output(text.as_str());
                    Ok(Self::gpus_from_records(&records))
                },
            },
        }
    }

    /// Host preparation: the lookup of the container toolkit must run;
    /// whether it finds the toolkit does not matter.
    pub fn prepare_host(&self, toolkit_lookup: Result<bool, String>) -> (r: Result<(), GpuError>)
        ensures
            r is Ok <==> toolkit_lookup is Ok,
            toolkit_lookup matches Err(reason) ==> (r matches Err(e) && e@
                == (GpuErrorView::CommandFailed { command: TOOLKIT_LOOKUP_COMMAND@, reason: reason@ })),
    {
        match toolkit_lookup {
            Ok(_) => Ok(()),
            Err(reason) => Err(
                GpuError::CommandFailed { command: owned(TOOLKIT_LOOKUP_COMMAND), reason },
            ),
        }
    }
}

impl GpuVendor for NvidiaGpu {
    fn containerd_runtime_snippet(&self) -> (s: Option<String>)
        ensures
            s matches Some(t) && t@ == NVIDIA_RUNTIME_SNIPPET@,
    {
        Some(owned(NVIDIA_RUNTIME_SNIPPET))
    }

    fn cluster_manifests(&self) -> (m: &'static str)
        ensures
            m@ == NVIDIA_MANIFEST@,
    {
        NVIDIA_MANIFEST
    }

    fn resource_name(&self) -> (n: &'static str)
        ensures
            n@ == "nvidia.com/gpu"@,
    {
        "nvidia.com/gpu"
    }
}

/// Removing " MiB" from digits followed by " MiB" leaves the digits.
proof fn lemma_strip_mib(d: Seq<char>)
    requires
        all_digits(d),
    ensures
        replace(d + " MiB"@, " MiB"@, ""@) == d,
    decreases d.len(),
{
    reveal_strlit(" MiB");
    reveal_strlit("");
    let p = " MiB"@;
    let s = d + p;
    if d.len() == 0 {
        assert(s =~= p);
        assert(s.take(4) =~= p);
        assert(s.skip(4) =~= Seq::<char>::empty());
        assert(replace(Seq::<char>::empty(), p, ""@) == Seq::<char>::empty());
        assert(replace(s, p, ""@) == ""@ + replace(s.skip(4), p, ""@));
        assert(d =~= Seq::<char>::empty());
        assert(""@ + Seq::<char>::empty() =~= d);
    } else {
        assert(is_digit(d[0]));
        assert(s[0] == d[0]);
        assert(s.take(4)[0] != p[0]);
        let rest = d.drop_first();
        assert forall|i: int| 0 <= i < rest.len() implies is_digit(#[trigger] rest[i]) by {
            assert(rest[i] == d[i + 1]);
        }
        lemma_strip_mib(rest);
        assert(s.drop_first() =~= rest + p);
        assert(replace(s, p, ""@) == seq![s[0]] + replace(s.drop_first(), p, ""@));
        assert(seq![s[0]] + rest =~= d);
    }
}

/// A line as `nvidia-smi` prints a GPU ("name, memory MiB") is read back as
/// that GPU, provided the name has no comma and no surrounding white space.
pub proof fn law_smi_line_roundtrip(name: Seq<char>, memory: u64)
    requires
        !name.contains(','),
        trim(name) == name,
    ensures
        smi_line_record(name + ", "@ + decimal(memory as nat) + " MiB"@) == Some((name, memory)),
{
    reveal_strlit(", ");
    reveal_strlit(" MiB");
    let d = decimal(memory as nat);
    lemma_decimal_digits(memory as nat);
    let unit = " MiB"@;
    let tail = seq![' '] + d + unit;
    let line = name + ", "@ + d + unit;
    assert(line =~= name + seq![','] + tail);
    assert forall|i: int| 0 <= i < tail.len() implies #[trigger] tail[i] != ',' by {
        if 1 <= i < 1 + d.len() {
            assert(tail[i] == d[i - 1]);
            assert(is_digit(d[i - 1]));
        }
    }
    lemma_split_on_two(name, tail, ',');
    let parts = split_on(line, ',');
    assert(parts[1] == tail);
    let body = d + unit;
    assert(tail.drop_first() =~= body);
    assert(is_digit(body[0]));
    assert(trim_start(body) == body);
    assert(trim_start(tail) == body);
    assert(body.last() == 'B');
    assert(trim_end(body) == body);
    lemma_strip_mib(d);
    law_parse_decimal(memory);
}

/// The line that `nvidia-smi` prints for a GPU: its name, a comma, and its
/// memory in MiB.
pub open spec fn smi_line(name: Seq<char>, memory: u64) -> Seq<char> {
    name + ", "@ + decimal(memory as nat) + " MiB"@
}

/// A name that `nvidia-smi` can print and that is read back as it is: no
/// comma, no line feed, no surrounding white space.
pub open spec fn printable_name(name: Seq<char>) -> bool {
    &&& !name.contains(',')
    &&& !name.contains('\n')
    &&& trim(name) == name
}

/// Text made of two parts lacks a character that neither part holds.
proof fn lemma_concat_lacks(a: Seq<char>, b: Seq<char>, c: char)
    requires
        !a.contains(c),
        !b.contains(c),
    ensures
        !(a + b).contains(c),
{
    if (a + b).contains(c) {
        let k = choose|k: int| 0 <= k < (a + b).len() && (a + b)[k] == c;
        if k < a.len() {
            assert(a[k] == c);
        } else {
            assert(b[k - a.len()] == c);
        }
    }
}

/// The line of a GPU with a printable name holds no line feed and does not
/// end in a carriage return.
proof fn lemma_smi_line_is_one_line(name: Seq<char>, memory: u64)
    requires
        printable_name(name),
    ensures
        !smi_line(name, memory).contains('\n'),
        smi_line(name, memory).last() == 'B',
{
    reveal_strlit(", ");
    reveal_strlit(" MiB");
    let d = decimal(memory as nat);
    lemma_decimal_digits(memory as nat);
    assert(!", "@.contains('\n')) by {
        if ", "@.contains('\n') {
            let k = choose|k: int| 0 <= k < ", "@.len() && ", "@[k] == '\n';
        }
    }
    assert(!" MiB"@.contains('\n')) by {
        if " MiB"@.contains('\n') {
            let k = choose|k: int| 0 <= k < " MiB"@.len() && " MiB"@[k] == '\n';
        }
    }
    assert(!d.contains('\n')) by {
        if d.contains('\n') {
            let k = choose|k: int| 0 <= k < d.len() && d[k] == '\n';
            assert(is_digit(d[k]));
        }
    }
    lemma_concat_lacks(name, ", "@, '\n');
    lemma_concat_lacks(name + ", "@, d, '\n');
    lemma_concat_lacks(name + ", "@ + d, " MiB"@, '\n');
}

/// The GPUs of lines as `nvidia-smi` prints them, for printable names, are
/// the GPUs printed.
proof fn lemma_smi_records_of_lines(gpus: Seq<(Seq<char>, u64)>)
    requires
        forall|i: int| 0 <= i < gpus.len() ==> printable_name(#[trigger] gpus[i].0),
    ensures
        smi_records(gpus.map_values(|g: (Seq<char>, u64)| smi_line(g.0, g.1))) == gpus,
    decreases gpus.len(),
{
    let f = |g: (Seq<char>, u64)| smi_line(g.0, g.1);
    let ls = gpus.map_values(f);
    if gpus.len() == 0 {
        assert(ls =~= Seq::<Seq<char>>::empty());
    } else {
        let init = gpus.drop_last();
        assert forall|i: int| 0 <= i < init.len() implies printable_name(#[trigger] init[i].0) by {
            assert(init[i] == gpus[i]);
        }
        lemma_smi_records_of_lines(init);
        assert(ls.drop_last() =~= init.map_values(f));
        let g = gpus.last();
        assert(gpus[gpus.len() - 1] == g);
        assert(ls.last() == smi_line(g.0, g.1));
        law_smi_line_roundtrip(g.0, g.1);
        assert(init.push(g) =~= gpus);
    }
}

/// A listing as `nvidia-smi` prints it, one GPU per line, each line ended
/// by a line feed, is read back as the GPUs listed, in order, provided no
/// name holds a comma, a line feed or surrounding white space.
pub proof fn law_smi_output_roundtrip(gpus: Seq<(Seq<char>, u64)>)
    requires
        forall|i: int| 0 <= i < gpus.len() ==> printable_name(#[trigger] gpus[i].0),
    ensures
        smi_output_records(
            terminated_lines(gpus.map_values(|g: (Seq<char>, u64)| smi_line(g.0, g.1))),
        ) == gpus,
{
    let ls = gpus.map_values(|g: (Seq<char>, u64)| smi_line(g.0, g.1));
    assert forall|i: int| 0 <= i < ls.len() implies !(#[trigger] ls[i]).contains('\n') && (
    ls[i].len() == 0 || ls[i].last() != '\r') by {
        assert(ls[i] == smi_line(gpus[i].0, gpus[i].1));
        lemma_smi_line_is_one_line(gpus[i].0, gpus[i].1);
    }
    lemma_lines_of_terminated(ls);
    lemma_smi_records_of_lines(gpus);
}

} // verus!
