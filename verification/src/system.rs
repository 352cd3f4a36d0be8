//! The measurement configuration and the description of the host: what the hardware and
//! toolchain are, decided from the text of `/proc` files and of command output.
use vstd::prelude::*;
use crate::text::{
    chars_of, contains_at_all, contains_seq, find_char, has_prefix, len_before, lemma_lines_step,
    line_end, lines, parse_u32, parse_u32_range, parse_u64, parse_u64_range, second_field,
    second_field_range,
    second_token_range, starts_with, string_of, strip_cr, tokens, trim, trim_char,
    trim_char_range, trim_range,
};

verus! {

/// Settings of a measurement sweep.
pub struct MeasurementConfig {
    pub concurrency: u32,
    pub requests: u32,
    pub warmup: u32,
    pub skip_standalone: bool,
    pub skip_live: bool,
    pub python_script_path: String,
}

impl Default for MeasurementConfig {
    /// Ten concurrent workers, 500 requests after 20 warmup requests, both phases on, and the
    /// Python baseline at `harness/python_baseline.py`.
    fn default() -> (c: Self)
        ensures
            c.concurrency == 10,
            c.requests == 500,
            c.warmup == 20,
            !c.skip_standalone,
            !c.skip_live,
            c.python_script_path@ == "harness/python_baseline.py"@,
    {
        MeasurementConfig {
            concurrency: 10,
            requests: 500,
            warmup: 20,
            skip_standalone: false,
            skip_live: false,
            python_script_path: String::from_str("harness/python_baseline.py"),
        }
    }
}

/// What the host machine is.
#[derive(Clone, Debug)]
pub struct HardwareInfo {
    pub system: String,
    pub processor: String,
    pub architecture: String,
    pub memory_unified_gb: u32,
    pub os: String,
}

/// The toolchain, kernel and load settings of a measurement sweep.
#[derive(Clone, Debug)]
pub struct EnvironmentInfo {
    pub rustc_version: String,
    pub python_version: String,
    pub kernel_version: String,
    pub page_size_kb: u32,
    pub concurrency_tested: u32,
    pub requests_per_endpoint: u32,
    pub warmup_requests: u32,
}

impl Default for HardwareInfo {
    fn default() -> (h: Self)
        ensures
            h.system@ == Seq::<char>::empty(),
            h.processor@ == Seq::<char>::empty(),
            h.architecture@ == Seq::<char>::empty(),
            h.memory_unified_gb == 0,
            h.os@ == Seq::<char>::empty(),
    {
        HardwareInfo {
            system: String::new(),
            processor: String::new(),
            architecture: String::new(),
            memory_unified_gb: 0,
            os: String::new(),
        }
    }
}

impl Default for EnvironmentInfo {
    fn default() -> (e: Self)
        ensures
            e.rustc_version@ == Seq::<char>::empty(),
            e.python_version@ == Seq::<char>::empty(),
            e.kernel_version@ == Seq::<char>::empty(),
            e.page_size_kb == 0,
            e.concurrency_tested == 0,
            e.requests_per_endpoint == 0,
            e.warmup_requests == 0,
    {
        EnvironmentInfo {
            rustc_version: String::new(),
            python_version: String::new(),
            kernel_version: String::new(),
            page_size_kb: 0,
            concurrency_tested: 0,
            requests_per_endpoint: 0,
            warmup_requests: 0,
        }
    }
}

/// The names that the hardware description chooses between.
pub open spec fn default_system() -> Seq<char> {
    "POSIX Compliant Workstation"@
}

pub open spec fn dgx_spark() -> Seq<char> {
    "NVIDIA DGX Spark"@
}

pub open spec fn grace_blackwell() -> Seq<char> {
    "NVIDIA Grace Blackwell (GB10, aarch64)"@
}

/// A `cpuinfo` line that can name the processor.
pub open spec fn is_processor_line(l: Seq<char>) -> bool {
    starts_with(l, "model name"@) || starts_with(l, "Processor"@) || starts_with(l, "Hardware"@)
}

/// The processor that the `cpuinfo` lines `ls` name: the trimmed text after the first `':'`
/// (up to a second one) of the first processor line that holds a `':'`, else `arch`.
pub open spec fn processor_of(ls: Seq<Seq<char>>, arch: Seq<char>) -> Seq<char>
    decreases ls.len(),
{
    if ls.len() == 0 {
        arch
    } else if is_processor_line(ls[0]) && second_field(ls[0], ':') is Some {
        trim(second_field(ls[0], ':').unwrap())
    } else {
        processor_of(ls.drop_first(), arch)
    }
}

/// The system name: the device-tree model (without NUL padding and whitespace) when it can be
/// read, kept only if not empty; else the host name, with any name holding `spark` read as
/// the DGX Spark.
pub open spec fn system_of(device_model: Option<Seq<char>>, hostname: Option<Seq<char>>) -> Seq<char> {
    match device_model {
        Some(m) => {
            let t = trim(trim_char(m, '\0'));
            if t.len() > 0 {
                t
            } else {
                default_system()
            }
        },
        None => match hostname {
            Some(h) => {
                let t = trim(h);
                if contains_seq(t, "spark"@) {
                    dgx_spark()
                } else {
                    t
                }
            },
            None => default_system(),
        },
    }
}

/// The unified memory in GiB that the `meminfo` lines `ls` give: the kilobyte count of the
/// first `MemTotal:` line divided by 2^20 (kept to 32 bits), or 16 when that line has no
/// such count or there is no such line.
pub open spec fn memory_gb_of(ls: Seq<Seq<char>>) -> u32
    decreases ls.len(),
{
    if ls.len() == 0 {
        16
    } else if starts_with(ls[0], "MemTotal:"@) {
        let t = tokens(ls[0]);
        if t.len() >= 2 && parse_u64(t[1]) is Some {
            (parse_u64(t[1]).unwrap() / 1048576) as u32
        } else {
            16
        }
    } else {
        memory_gb_of(ls.drop_first())
    }
}

/// A host that looks like a Grace Blackwell machine.
pub open spec fn looks_like_grace(system: Seq<char>, processor: Seq<char>) -> bool {
    contains_seq(processor, "Neoverse"@) || contains_seq(system, "DGX"@) || contains_seq(
        system,
        "Spark"@,
    )
}

/// The system name after the Grace Blackwell refinement.
pub open spec fn refined_system(system: Seq<char>, processor: Seq<char>) -> Seq<char> {
    if looks_like_grace(system, processor) && system == default_system() {
        dgx_spark()
    } else {
        system
    }
}

/// The processor name after the Grace Blackwell refinement.
pub open spec fn refined_processor(system: Seq<char>, processor: Seq<char>) -> Seq<char> {
    if looks_like_grace(system, processor) && (processor == "aarch64"@ || processor.len() == 0) {
        grace_blackwell()
    } else {
        processor
    }
}

/// The Grace Blackwell refinement: a host counts as Grace when its processor name holds
/// `Neoverse` or its system name holds `DGX` or `Spark`. On such a host the generic system
/// name becomes `NVIDIA DGX Spark` and a bare `aarch64` (or empty) processor becomes
/// `NVIDIA Grace Blackwell (GB10, aarch64)`; every other name is kept.
pub proof fn lemma_grace_refinement(system: Seq<char>, processor: Seq<char>)
    ensures
        ({
            let grace = contains_seq(processor, "Neoverse"@) || contains_seq(system, "DGX"@)
                || contains_seq(system, "Spark"@);
            &&& grace && (processor == "aarch64"@ || processor.len() == 0) ==> refined_processor(
                system,
                processor,
            ) == "NVIDIA Grace Blackwell (GB10, aarch64)"@
            &&& !(grace && (processor == "aarch64"@ || processor.len() == 0)) ==> refined_processor(
                system,
                processor,
            ) == processor
            &&& grace && system == "POSIX Compliant Workstation"@ ==> refined_system(system, processor)
                == "NVIDIA DGX Spark"@
            &&& !(grace && system == "POSIX Compliant Workstation"@) ==> refined_system(
                system,
                processor,
            ) == system
        }),
{
}

/// A host without a device-tree model whose host name holds `spark` is described as the
/// DGX Spark with a Grace Blackwell processor when the processor is only known as
/// `aarch64` (or not at all).
pub proof fn lemma_spark_host(hostname: Seq<char>, processor: Seq<char>)
    requires
        contains_seq(trim(hostname), "spark"@),
        processor == "aarch64"@ || processor.len() == 0,
    ensures
        refined_system(system_of(None, Some(hostname)), processor) == "NVIDIA DGX Spark"@,
        refined_processor(system_of(None, Some(hostname)), processor)
            == "NVIDIA Grace Blackwell (GB10, aarch64)"@,
{
    reveal_strlit("NVIDIA DGX Spark");
    reveal_strlit("Spark");
    reveal_strlit("POSIX Compliant Workstation");
    let sys = "NVIDIA DGX Spark"@;
    assert(system_of(None, Some(hostname)) == sys);
    assert(sys.subrange(11int, 11int + "Spark"@.len()) =~= "Spark"@);
    assert(contains_seq(sys, "Spark"@));
    assert(sys.len() != "POSIX Compliant Workstation"@.len());
}

/// The `cpuinfo` line names the processor: it starts with `model name`, `Processor` or
/// `Hardware` and holds a `':'`.
pub open spec fn names_processor(l: Seq<char>) -> bool {
    (starts_with(l, "model name"@) || starts_with(l, "Processor"@) || starts_with(l, "Hardware"@))
        && second_field(l, ':') is Some
}

/// The processor named in `cpuinfo` comes from the earliest line that names it: the text
/// after that line's `':'` (up to the next one), trimmed; with no such line it is the
/// architecture name.
pub proof fn lemma_processor_of(ls: Seq<Seq<char>>, arch: Seq<char>)
    ensures
        (forall|j: int| 0 <= j < ls.len() ==> !names_processor(#[trigger] ls[j])) ==> processor_of(
            ls,
            arch,
        ) == arch,
        forall|i: int|
            0 <= i < ls.len() && names_processor(#[trigger] ls[i]) && (forall|j: int|
                0 <= j < i ==> !names_processor(#[trigger] ls[j])) ==> processor_of(ls, arch) == trim(
                second_field(ls[i], ':').unwrap(),
            ),
    decreases ls.len(),
{
    if ls.len() > 0 {
        let rest = ls.drop_first();
        lemma_processor_of(rest, arch);
        assert(names_processor(ls[0]) == (is_processor_line(ls[0]) && second_field(ls[0], ':') is Some));
        if !names_processor(ls[0]) {
            assert forall|i: int|
                0 <= i < ls.len() && names_processor(#[trigger] ls[i]) && (forall|j: int|
                    0 <= j < i ==> !names_processor(#[trigger] ls[j])) implies processor_of(ls, arch)
                == trim(second_field(ls[i], ':').unwrap()) by {
                assert(i > 0);
                assert(ls[i] == rest[i - 1]);
                assert forall|j: int| 0 <= j < i - 1 implies !names_processor(#[trigger] rest[j]) by {
                    assert(rest[j] == ls[j + 1]);
                }
            }
            if forall|j: int| 0 <= j < ls.len() ==> !names_processor(#[trigger] ls[j]) {
                assert forall|j: int| 0 <= j < rest.len() implies !names_processor(#[trigger] rest[j]) by {
                    assert(rest[j] == ls[j + 1]);
                }
            }
        } else {
            assert forall|i: int|
                0 <= i < ls.len() && names_processor(#[trigger] ls[i]) && (forall|j: int|
                    0 <= j < i ==> !names_processor(#[trigger] ls[j])) implies processor_of(ls, arch)
                == trim(second_field(ls[i], ':').unwrap()) by {
                if i > 0 {
                    assert(!names_processor(ls[0]));
                }
            }
        }
    }
}

/// The system name: a readable device-tree model that is not empty once NUL padding and
/// whitespace are trimmed is used as it is (an empty one gives the generic workstation
/// name); without a model, a host name holding `spark` means the DGX Spark and any other
/// host name is used trimmed; with neither, the generic workstation name.
pub proof fn lemma_system_of(device_model: Option<Seq<char>>, hostname: Option<Seq<char>>)
    ensures
        device_model matches Some(m) ==> system_of(device_model, hostname) == (if trim(
            trim_char(m, '\0'),
        ).len() > 0 {
            trim(trim_char(m, '\0'))
        } else {
            "POSIX Compliant Workstation"@
        }),
        device_model is None ==> (hostname matches Some(h) ==> system_of(device_model, hostname)
            == (if contains_seq(trim(h), "spark"@) {
            "NVIDIA DGX Spark"@
        } else {
            trim(h)
        })),
        device_model is None && hostname is None ==> system_of(device_model, hostname)
            == "POSIX Compliant Workstation"@,
{
}

/// The `meminfo` line that gives the memory size.
pub open spec fn is_memtotal_line(l: Seq<char>) -> bool {
    starts_with(l, "MemTotal:"@)
}

/// The unified memory comes from the earliest `MemTotal:` line: its second token read as
/// kilobytes and divided by 2^20 (kept to 32 bits), or 16 when that token is missing or no
/// `u64`; without such a line it is 16.
pub proof fn lemma_memory_gb_of(ls: Seq<Seq<char>>)
    ensures
        (forall|j: int| 0 <= j < ls.len() ==> !is_memtotal_line(#[trigger] ls[j])) ==> memory_gb_of(ls)
            == 16,
        forall|i: int|
            0 <= i < ls.len() && is_memtotal_line(#[trigger] ls[i]) && (forall|j: int|
                0 <= j < i ==> !is_memtotal_line(#[trigger] ls[j])) ==> memory_gb_of(ls) == (if tokens(
                ls[i],
            ).len() >= 2 && parse_u64(tokens(ls[i])[1]) is Some {
                (parse_u64(tokens(ls[i])[1]).unwrap() / 1048576) as u32
            } else {
                16
            }),
    decreases ls.len(),
{
    if ls.len() > 0 {
        let rest = ls.drop_first();
        lemma_memory_gb_of(rest);
        if !is_memtotal_line(ls[0]) {
            assert forall|i: int|
                0 <= i < ls.len() && is_memtotal_line(#[trigger] ls[i]) && (forall|j: int|
                    0 <= j < i ==> !is_memtotal_line(#[trigger] ls[j])) implies memory_gb_of(ls) == (
            if tokens(ls[i]).len() >= 2 && parse_u64(tokens(ls[i])[1]) is Some {
                (parse_u64(tokens(ls[i])[1]).unwrap() / 1048576) as u32
            } else {
                16
            }) by {
                assert(i > 0);
                assert(ls[i] == rest[i - 1]);
                assert forall|j: int| 0 <= j < i - 1 implies !is_memtotal_line(#[trigger] rest[j]) by {
                    assert(rest[j] == ls[j + 1]);
                }
            }
            if forall|j: int| 0 <= j < ls.len() ==> !is_memtotal_line(#[trigger] ls[j]) {
                assert forall|j: int| 0 <= j < rest.len() implies !is_memtotal_line(#[trigger] rest[j]) by {
                    assert(rest[j] == ls[j + 1]);
                }
            }
        } else {
            assert forall|i: int|
                0 <= i < ls.len() && is_memtotal_line(#[trigger] ls[i]) && (forall|j: int|
                    0 <= j < i ==> !is_memtotal_line(#[trigger] ls[j])) implies i == 0 by {
                if i > 0 {
                    assert(!is_memtotal_line(ls[0]));
                }
            }
        }
    }
}

/// The text of a file as optional characters.
pub open spec fn opt_view(o: Option<&str>) -> Option<Seq<char>> {
    match o {
        Some(s) => Some(s@),
        None => None,
    }
}

/// Describes the host from what could be read of `/proc/cpuinfo`, `/proc/device-tree/model`,
/// `/etc/hostname` (read only when the model cannot be) and `/proc/meminfo`, and from the
/// target's architecture, OS and OS family names.
pub fn detect_hardware(
    cpuinfo: Option<&str>,
    device_model: Option<&str>,
    hostname: Option<&str>,
    meminfo: Option<&str>,
    arch: &str,
    os: &str,
    family: &str,
) -> (h: HardwareInfo)
    ensures
        ({
            let proc0 = match cpuinfo {
                Some(c) => processor_of(lines(c@), arch@),
                None => arch@,
            };
            let sys0 = system_of(opt_view(device_model), opt_view(hostname));
            &&& h.system@ == refined_system(sys0, proc0)
            &&& h.processor@ == refined_processor(sys0, proc0)
        }),
        h.architecture@ == arch@,
        h.memory_unified_gb == match meminfo {
            Some(m) => memory_gb_of(lines(m@)),
            None => 16,
        },
        h.os@ == os@ + " "@ + family@,
{
    let ghost proc0 = match cpuinfo {
        Some(c) => processor_of(lines(c@), arch@),
        None => arch@,
    };
    let ghost sys0 = system_of(opt_view(device_model), opt_view(hostname));
    let processor = match cpuinfo {
        Some(c) => processor_from_cpuinfo(c, arch),
        None => String::from_str(arch),
    };
    let system = system_name(device_model, hostname);
    let memory_unified_gb = match meminfo {
        Some(m) => memory_gb_from_meminfo(m),
        None => 16,
    };
    let mut os_text = String::from_str(os);
    os_text.append(" ");
    os_text.append(family);
    let (system, processor) = refine(system, processor);
    HardwareInfo {
        system,
        processor,
        architecture: String::from_str(arch),
        memory_unified_gb,
        os: os_text,
    }
}

fn refine(system: String, processor: String) -> (r: (String, String))
    ensures
        r.0@ == refined_system(system@, processor@),
        r.1@ == refined_processor(system@, processor@),
{
    let pv = chars_of(processor.as_str());
    let sv = chars_of(system.as_str());
    let neoverse = chars_of("Neoverse");
    let dgx = chars_of("DGX");
    let spark = chars_of("Spark");
    assert(pv@.subrange(0, pv@.len() as int) =~= processor@);
    assert(sv@.subrange(0, sv@.len() as int) =~= system@);
    let grace = contains_at_all(&pv, 0, pv.len(), &neoverse) || contains_at_all(
        &sv,
        0,
        sv.len(),
        &dgx,
    ) || contains_at_all(&sv, 0, sv.len(), &spark);
    if grace {
        let default_sys = String::from_str("POSIX Compliant Workstation");
        let aarch = String::from_str("aarch64");
        let new_system = if system == default_sys {
            String::from_str("NVIDIA DGX Spark")
        } else {
            system
        };
        let new_processor = if processor == aarch || pv.len() == 0 {
            String::from_str("NVIDIA Grace Blackwell (GB10, aarch64)")
        } else {
            processor
        };
        (new_system, new_processor)
    } else {
        (system, processor)
    }
}

fn processor_from_cpuinfo(cpuinfo: &str, arch: &str) -> (p: String)
    ensures
        p@ == processor_of(lines(cpuinfo@), arch@),
{
    let model = chars_of("model name");
    let processor = chars_of("Processor");
    let hardware = chars_of("Hardware");
    let v = chars_of(cpuinfo);
    let n = v.len();
    let mut p: usize = 0;
    assert(v@.subrange(0, n as int) =~= cpuinfo@);
    while p < n
        invariant
            p <= n == v.len(),
            v@ == cpuinfo@,
            model@ == "model name"@,
            processor@ == "Processor"@,
            hardware@ == "Hardware"@,
            processor_of(lines(v@.subrange(p as int, n as int)), arch@) == processor_of(
                lines(cpuinfo@),
                arch@,
            ),
        decreases n - p,
    {
        let k = line_end(&v, p, n);
        proof {
            lemma_lines_step(v@, p as int, k as int, n as int);
        }
        let mut hi = k;
        if k < n && k > p && v[k - 1] == '\r' {
            hi = k - 1;
        }
        let ghost ls = lines(v@.subrange(p as int, n as int));
        proof {
            if k < n {
                assert(strip_cr(v@.subrange(p as int, k as int)) =~= v@.subrange(p as int, hi as int));
                assert(ls.drop_first() =~= lines(v@.subrange(k + 1, n as int)));
            } else {
                assert(v@.subrange(n as int, n as int) =~= Seq::<char>::empty());
                assert(ls.drop_first() =~= lines(v@.subrange(n as int, n as int)));
            }
        }
        if has_prefix(&v, p, hi, &model) || has_prefix(&v, p, hi, &processor) || has_prefix(
            &v,
            p,
            hi,
            &hardware,
        ) {
            match second_field_range(&v, p, hi, ':') {
                Some((a, b)) => {
                    let (c, d) = trim_range(&v, a, b);
                    return string_of(&v, c, d);
                },
                None => {},
            }
        }
        p = if k < n {
            k + 1
        } else {
            n
        };
    }
    proof {
        assert(v@.subrange(n as int, n as int) =~= Seq::<char>::empty());
        assert(lines(Seq::<char>::empty()).len() == 0);
    }
    String::from_str(arch)
}

fn system_name(device_model: Option<&str>, hostname: Option<&str>) -> (s: String)
    ensures
        s@ == system_of(opt_view(device_model), opt_view(hostname)),
{
    match device_model {
        Some(m) => {
            let v = chars_of(m);
            assert(v@.subrange(0, v@.len() as int) =~= m@);
            let (a, b) = trim_char_range(&v, 0, v.len(), '\0');
            let (c, d) = trim_range(&v, a, b);
            if c < d {
                string_of(&v, c, d)
            } else {
                String::from_str("POSIX Compliant Workstation")
            }
        },
        None => match hostname {
            Some(h) => {
                let v = chars_of(h);
                assert(v@.subrange(0, v@.len() as int) =~= h@);
                let (a, b) = trim_range(&v, 0, v.len());
                let spark = chars_of("spark");
                if contains_at_all(&v, a, b, &spark) {
                    String::from_str("NVIDIA DGX Spark")
                } else {
                    string_of(&v, a, b)
                }
            },
            None => String::from_str("POSIX Compliant Workstation"),
        },
    }
}

fn memory_gb_from_meminfo(meminfo: &str) -> (gb: u32)
    ensures
        gb == memory_gb_of(lines(meminfo@)),
{
    let key = chars_of("MemTotal:");
    let v = chars_of(meminfo);
    let n = v.len();
    let mut p: usize = 0;
    assert(v@.subrange(0, n as int) =~= meminfo@);
    while p < n
        invariant
            p <= n == v.len(),
            v@ == meminfo@,
            key@ == "MemTotal:"@,
            memory_gb_of(lines(v@.subrange(p as int, n as int))) == memory_gb_of(lines(meminfo@)),
        decreases n - p,
    {
        let k = line_end(&v, p, n);
        proof {
            lemma_lines_step(v@, p as int, k as int, n as int);
        }
        let mut hi = k;
        if k < n && k > p && v[k - 1] == '\r' {
            hi = k - 1;
        }
        let ghost ls = lines(v@.subrange(p as int, n as int));
        proof {
            if k < n {
                assert(strip_cr(v@.subrange(p as int, k as int)) =~= v@.subrange(p as int, hi as int));
                assert(ls.drop_first() =~= lines(v@.subrange(k + 1, n as int)));
            } else {
                assert(v@.subrange(n as int, n as int) =~= Seq::<char>::empty());
                assert(ls.drop_first() =~= lines(v@.subrange(n as int, n as int)));
            }
        }
        if has_prefix(&v, p, hi, &key) {
            match second_token_range(&v, p, hi) {
                Some((a, b)) => match parse_u64_range(&v, a, b) {
                    Some(kb) => {
                        return (kb / 1048576) as u32;
                    },
                    None => {
                        return 16;
                    },
                },
                None => {
                    return 16;
                },
            }
        }
        p = if k < n {
            k + 1
        } else {
            n
        };
    }
    proof {
        assert(v@.subrange(n as int, n as int) =~= Seq::<char>::empty());
        assert(lines(Seq::<char>::empty()).len() == 0);
    }
    16
}

/// The trimmed output of a command that ran, or `fallback` when it could not be run.
pub fn command_text_or(output: Option<&str>, fallback: &str) -> (s: String)
    ensures
        s@ == match output {
            Some(t) => trim(t@),
            None => fallback@,
        },
{
    match output {
        Some(t) => {
            let v = chars_of(t);
            assert(v@.subrange(0, v@.len() as int) =~= t@);
            let (a, b) = trim_range(&v, 0, v.len());
            string_of(&v, a, b)
        },
        None => String::from_str(fallback),
    }
}

/// The page size in KiB that `getconf PAGESIZE` output gives.
pub open spec fn page_size_of(output: Option<Seq<char>>) -> u32 {
    match output {
        Some(t) => match parse_u32(trim(t)) {
            Some(b) => if b > 0 {
                (b / 1024) as u32
            } else {
                4
            },
            None => 4,
        },
        None => 4,
    }
}

/// The page size in KiB from the output of `getconf PAGESIZE` (when it ran): the trimmed
/// byte count divided by 1024, or 4 when that is no positive `u32`.
pub fn get_page_size_kb(output: Option<&str>) -> (kb: u32)
    ensures
        kb == page_size_of(opt_view(output)),
{
    match output {
        Some(t) => {
            let v = chars_of(t);
            assert(v@.subrange(0, v@.len() as int) =~= t@);
            let (a, b) = trim_range(&v, 0, v.len());
            match parse_u32_range(&v, a, b) {
                Some(bytes) => {
                    if bytes > 0 {
                        bytes / 1024
                    } else {
                        4
                    }
                },
                None => 4,
            }
        },
        None => 4,
    }
}

/// The environment of a sweep from the output of `rustc --version`, `python3 --version`,
/// `uname -r` and `getconf PAGESIZE` (each `None` when the command could not be run), and
/// the load settings.
pub fn detect_environment(
    rustc_output: Option<&str>,
    python_output: Option<&str>,
    uname_output: Option<&str>,
    getconf_output: Option<&str>,
    concurrency: u32,
    requests: u32,
    warmup: u32,
) -> (e: EnvironmentInfo)
    ensures
        e.rustc_version@ == match rustc_output {
            Some(t) => trim(t@),
            None => "rustc unknown"@,
        },
        e.python_version@ == match python_output {
            Some(t) => trim(t@),
            None => "python3 unknown"@,
        },
        e.kernel_version@ == match uname_output {
            Some(t) => trim(t@),
            None => "kernel unknown"@,
        },
        e.page_size_kb == page_size_of(opt_view(getconf_output)),
        e.concurrency_tested == concurrency,
        e.requests_per_endpoint == requests,
        e.warmup_requests == warmup,
{
    EnvironmentInfo {
        rustc_version: command_text_or(rustc_output, "rustc unknown"),
        python_version: command_text_or(python_output, "python3 unknown"),
        kernel_version: command_text_or(uname_output, "kernel unknown"),
        page_size_kb: get_page_size_kb(getconf_output),
        concurrency_tested: concurrency,
        requests_per_endpoint: requests,
        warmup_requests: warmup,
    }
}

/// The two fields of the first line of `nvidia-smi
/// --query-gpu=power.draw,utilization.gpu --format=csv,noheader,nounits` output: the power
/// draw, trimmed and still text, and the utilisation in percent (0 when it is not a `u32`);
/// `None` when there is no line or the first line has no comma.
pub open spec fn gpu_telemetry_of(text: Seq<char>) -> Option<(Seq<char>, u32)> {
    let ls = lines(text);
    if ls.len() == 0 {
        None
    } else {
        let l = ls[0];
        match second_field(l, ',') {
            Some(f) => Some(
                (
                    trim(l.take(len_before(l, ',') as int)),
                    match parse_u32(trim(f)) {
                        Some(u) => u,
                        None => 0,
                    },
                ),
            ),
            None => None,
        }
    }
}

/// `gpu_telemetry_of(output)`, with the power draw as a string.
pub fn gpu_telemetry_fields(output: &str) -> (r: Option<(String, u32)>)
    ensures
        match r {
            Some((power, util)) => gpu_telemetry_of(output@) == Some((power@, util)),
            None => gpu_telemetry_of(output@) is None,
        },
{
    let v = chars_of(output);
    let len = v.len();
    if len == 0 {
        assert(lines(output@) =~= Seq::<Seq<char>>::empty());
        return None;
    }
    let k = line_end(&v, 0, len);
    let mut e = k;
    if k < len && k > 0 && v[k - 1] == '\r' {
        e = k - 1;
    }
    let ghost line = v@.subrange(0, e as int);
    proof {
        lemma_lines_step(v@, 0, k as int, len as int);
        assert(v@.subrange(0, len as int) =~= output@);
        if k < len {
            let l = v@.subrange(0, k as int);
            if k > 0 && v@[k - 1] == '\r' {
                assert(l.last() == v@[k - 1]);
                assert(l.drop_last() =~= line);
            } else {
                if l.len() > 0 {
                    assert(l.last() == v@[k - 1]);
                }
                assert(l =~= line);
            }
        }
        assert(lines(output@)[0] == line);
    }
    let c = find_char(&v, 0, e, ',');
    if c == e {
        return None;
    }
    let (a, b) = trim_range(&v, 0, c);
    let power = string_of(&v, a, b);
    proof {
        assert(line.take(c as int) =~= v@.subrange(0, c as int));
    }
    match second_field_range(&v, 0, e, ',') {
        Some((s1, s2)) => {
            let (ta, tb) = trim_range(&v, s1, s2);
            let util = match parse_u32_range(&v, ta, tb) {
                Some(u) => u,
                None => 0,
            };
            Some((power, util))
        },
        None => None,
    }
}

} // verus!
