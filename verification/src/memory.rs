//! Locating a process and reading its resident set size: the decisions made on the text of
//! `/proc/<pid>/status`, of `pgrep` output and of `/proc/<pid>/cmdline`.
use vstd::prelude::*;
use crate::text::{
    chars_of, contains_at_all, contains_seq, first_token_range, has_prefix, line_end, lines,
    lemma_lines_step, parse_u32, parse_u32_range, starts_with, string_of, strip_cr, tokens, trim,
    trim_range,
};

verus! {

/// The key of the resident-set line of `/proc/<pid>/status`.
pub open spec fn vmrss_key() -> Seq<char> {
    seq!['V', 'm', 'R', 'S', 'S', ':']
}

/// For each line of `ls` that starts with `VmRSS:` and has at least two whitespace-separated
/// tokens, its second token (the kilobyte count), in order.
pub open spec fn rss_candidates_of(ls: Seq<Seq<char>>) -> Seq<Seq<char>>
    decreases ls.len(),
{
    if ls.len() == 0 {
        seq![]
    } else {
        let l = ls[0];
        let rest = rss_candidates_of(ls.drop_first());
        if starts_with(l, vmrss_key()) && tokens(l).len() >= 2 {
            seq![tokens(l)[1]] + rest
        } else {
            rest
        }
    }
}

/// The kilobyte fields of the `VmRSS:` lines of a `/proc/<pid>/status` text, in order: the
/// resident set size is the first of them that reads as a number.
pub fn rss_kb_candidates(status: &str) -> (r: Vec<String>)
    ensures
        r@.map_values(|f: String| f@) == rss_candidates_of(lines(status@)),
{
    let key = chars_of("VmRSS:");
    proof {
        reveal_strlit("VmRSS:");
        assert(key@ =~= vmrss_key());
    }
    let v = chars_of(status);
    let n = v.len();
    let mut r: Vec<String> = Vec::new();
    let mut p: usize = 0;
    assert(v@.subrange(0, n as int) =~= status@);
    assert(r@.map_values(|f: String| f@) =~= Seq::<Seq<char>>::empty());
    while p < n
        invariant
            p <= n == v.len(),
            v@ == status@,
            key@ == vmrss_key(),
            r@.map_values(|f: String| f@) + rss_candidates_of(lines(v@.subrange(p as int, n as int)))
                == rss_candidates_of(lines(status@)),
        decreases n - p,
    {
        let k = line_end(&v, p, n);
        proof {
            lemma_lines_step(v@, p as int, k as int, n as int);
        }
        let mut hi = k;
        if k < n && k > p && v[k - 1] == '\r' {
            hi = k - 1;
        }
        let ghost ls = lines(v@.subrange(p as int, n as int));
        let ghost line = v@.subrange(p as int, hi as int);
        proof {
            if k < n {
                assert(strip_cr(v@.subrange(p as int, k as int)) =~= line);
                assert(ls.drop_first() =~= lines(v@.subrange(k + 1, n as int)));
            } else {
                assert(v@.subrange(n as int, n as int) =~= Seq::<char>::empty());
                assert(ls.drop_first() =~= lines(v@.subrange(n as int, n as int)));
            }
            assert(ls[0] == line);
        }
        let next = if k < n {
            k + 1
        } else {
            n
        };
        let ghost rest = rss_candidates_of(lines(v@.subrange(next as int, n as int)));
        if has_prefix(&v, p, hi, &key) {
            match first_token_range(&v, p, hi) {
                Some((_a, b)) => {
                    match first_token_range(&v, b, hi) {
                        Some((c, d)) => {
                            let f = string_of(&v, c, d);
                            let ghost before = r@.map_values(|f: String| f@);
                            proof {
                                assert(tokens(line)[1] == v@.subrange(c as int, d as int));
                                assert(rss_candidates_of(ls) =~= seq![tokens(line)[1]] + rest);
                            }
                            r.push(f);
                            assert(r@.map_values(|f: String| f@) =~= before.push(
                                v@.subrange(c as int, d as int),
                            ));
                        },
                        None => {
                            assert(tokens(line).len() == 1);
                            assert(rss_candidates_of(ls) =~= rest);
                        },
                    }
                },
                None => {
                    assert(tokens(line).len() == 0);
                    assert(rss_candidates_of(ls) =~= rest);
                },
            }
        } else {
            assert(rss_candidates_of(ls) =~= rest);
        }
        p = next;
    }
    proof {
        assert(v@.subrange(n as int, n as int) =~= Seq::<char>::empty());
        assert(lines(Seq::<char>::empty()).len() == 0);
        assert(rss_candidates_of(lines(Seq::<char>::empty())) =~= Seq::<Seq<char>>::empty());
    }
    assert(r@.map_values(|f: String| f@) + Seq::<Seq<char>>::empty() =~= r@.map_values(
        |f: String| f@,
    ));
    r
}

/// The first line of `ls` that, trimmed, reads as a `u32` other than `self_pid`.
pub open spec fn first_listed_pid(ls: Seq<Seq<char>>, self_pid: u32) -> Option<u32>
    decreases ls.len(),
{
    if ls.len() == 0 {
        None
    } else {
        match parse_u32(trim(ls[0])) {
            Some(p) => if p != self_pid {
                Some(p)
            } else {
                first_listed_pid(ls.drop_first(), self_pid)
            },
            None => first_listed_pid(ls.drop_first(), self_pid),
        }
    }
}

/// The line `l`, trimmed, reads as a pid other than `self_pid`.
pub open spec fn names_other_pid(l: Seq<char>, self_pid: u32) -> bool {
    parse_u32(trim(l)) is Some && parse_u32(trim(l)).unwrap() != self_pid
}

/// The pid picked from a listing is the one on the earliest line that names a pid other
/// than `self_pid`: it is `Some(p)` exactly when some line, trimmed, reads as `p != self_pid`
/// and no earlier line names such a pid, and `None` exactly when no line does.
pub proof fn lemma_first_listed_pid(ls: Seq<Seq<char>>, self_pid: u32)
    ensures
        match first_listed_pid(ls, self_pid) {
            Some(p) => exists|i: int|
                0 <= i < ls.len() && parse_u32(trim(#[trigger] ls[i])) == Some(p) && p != self_pid
                    && forall|j: int| 0 <= j < i ==> !names_other_pid(#[trigger] ls[j], self_pid),
            None => forall|j: int| 0 <= j < ls.len() ==> !names_other_pid(#[trigger] ls[j], self_pid),
        },
    decreases ls.len(),
{
    if ls.len() > 0 {
        let rest = ls.drop_first();
        lemma_first_listed_pid(rest, self_pid);
        if names_other_pid(ls[0], self_pid) {
            let p = parse_u32(trim(ls[0])).unwrap();
            assert(parse_u32(trim(ls[0])) == Some(p));
        } else {
            match first_listed_pid(rest, self_pid) {
                Some(p) => {
                    let i = choose|i: int|
                        0 <= i < rest.len() && parse_u32(trim(#[trigger] rest[i])) == Some(p) && p
                            != self_pid && forall|j: int|
                            0 <= j < i ==> !names_other_pid(#[trigger] rest[j], self_pid);
                    assert(ls[i + 1] == rest[i]);
                    assert forall|j: int| 0 <= j < i + 1 implies !names_other_pid(
                        #[trigger] ls[j],
                        self_pid,
                    ) by {
                        if j > 0 {
                            assert(ls[j] == rest[j - 1]);
                        }
                    }
                },
                None => {
                    assert forall|j: int| 0 <= j < ls.len() implies !names_other_pid(
                        #[trigger] ls[j],
                        self_pid,
                    ) by {
                        if j > 0 {
                            assert(ls[j] == rest[j - 1]);
                        }
                    }
                },
            }
        }
    }
}

/// The pid that `pgrep -f` output names: the first line that, trimmed, reads as a `u32`
/// other than the pid of the process that asks.
pub fn pid_from_pgrep_output(text: &str, self_pid: u32) -> (r: Option<u32>)
    ensures
        r == first_listed_pid(lines(text@), self_pid),
{
    let v = chars_of(text);
    let n = v.len();
    let mut p: usize = 0;
    assert(v@.subrange(0, n as int) =~= text@);
    while p < n
        invariant
            p <= n == v.len(),
            v@ == text@,
            first_listed_pid(lines(v@.subrange(p as int, n as int)), self_pid) == first_listed_pid(
                lines(text@),
                self_pid,
            ),
        decreases n - p,
    {
        let k = line_end(&v, p, n);
        proof {
            lemma_lines_step(v@, p as int, k as int, n as int);
        }
        let mut hi = k;
        if k < n && k > p && v[k - 1] == '\r' {
            hi = k - 1;
        }
        let ghost ls = lines(v@.subrange(p as int, n as int));
        proof {
            if k < n {
                assert(strip_cr(v@.subrange(p as int, k as int)) =~= v@.subrange(p as int, hi as int));
                assert(ls.drop_first() =~= lines(v@.subrange(k + 1, n as int)));
            } else {
                assert(v@.subrange(n as int, n as int) =~= Seq::<char>::empty());
                assert(ls.drop_first() =~= lines(v@.subrange(n as int, n as int)));
            }
        }
        let (a, b) = trim_range(&v, p, hi);
        match parse_u32_range(&v, a, b) {
            Some(pid) => {
                if pid != self_pid {
                    return Some(pid);
                }
            },
            None => {},
        }
        p = if k < n {
            k + 1
        } else {
            n
        };
    }
    proof {
        assert(v@.subrange(n as int, n as int) =~= Seq::<char>::empty());
        assert(lines(Seq::<char>::empty()).len() == 0);
    }
    None
}

/// One entry of the `/proc` directory: its file name and, when it could be read, the text
/// of its `cmdline` file.
pub struct ProcEntry {
    pub name: String,
    pub cmdline: Option<String>,
}

/// The first entry that names a process other than `self_pid` whose command line contains
/// `pattern`.
pub open spec fn first_matching_entry(es: Seq<ProcEntry>, pattern: Seq<char>, self_pid: u32) -> Option<u32>
    decreases es.len(),
{
    if es.len() == 0 {
        None
    } else {
        let e = es[0];
        match parse_u32(e.name@) {
            Some(p) => if p != self_pid && (e.cmdline matches Some(c) && contains_seq(c@, pattern)) {
                Some(p)
            } else {
                first_matching_entry(es.drop_first(), pattern, self_pid)
            },
            None => first_matching_entry(es.drop_first(), pattern, self_pid),
        }
    }
}

/// The entry names a process other than `self_pid` whose command line contains `pattern`.
pub open spec fn entry_matches(e: ProcEntry, pattern: Seq<char>, self_pid: u32) -> bool {
    &&& parse_u32(e.name@) is Some
    &&& parse_u32(e.name@).unwrap() != self_pid
    &&& e.cmdline is Some
    &&& contains_seq(e.cmdline.unwrap()@, pattern)
}

/// The pid picked from the `/proc` listing is that of the earliest matching entry: `Some(p)`
/// exactly when some entry named `p` matches and no earlier one does, `None` when none does.
pub proof fn lemma_first_matching_entry(es: Seq<ProcEntry>, pattern: Seq<char>, self_pid: u32)
    ensures
        match first_matching_entry(es, pattern, self_pid) {
            Some(p) => exists|i: int|
                0 <= i < es.len() && entry_matches(#[trigger] es[i], pattern, self_pid)
                    && parse_u32(es[i].name@) == Some(p) && forall|j: int|
                    0 <= j < i ==> !entry_matches(#[trigger] es[j], pattern, self_pid),
            None => forall|j: int| 0 <= j < es.len() ==> !entry_matches(#[trigger] es[j], pattern, self_pid),
        },
    decreases es.len(),
{
    if es.len() > 0 {
        let rest = es.drop_first();
        lemma_first_matching_entry(rest, pattern, self_pid);
        if entry_matches(es[0], pattern, self_pid) {
            assert(parse_u32(es[0].name@) == Some(parse_u32(es[0].name@).unwrap()));
        } else {
            match first_matching_entry(rest, pattern, self_pid) {
                Some(p) => {
                    let i = choose|i: int|
                        0 <= i < rest.len() && entry_matches(#[trigger] rest[i], pattern, self_pid)
                            && parse_u32(rest[i].name@) == Some(p) && forall|j: int|
                            0 <= j < i ==> !entry_matches(#[trigger] rest[j], pattern, self_pid);
                    assert(es[i + 1] == rest[i]);
                    assert forall|j: int| 0 <= j < i + 1 implies !entry_matches(
                        #[trigger] es[j],
                        pattern,
                        self_pid,
                    ) by {
                        if j > 0 {
                            assert(es[j] == rest[j - 1]);
                        }
                    }
                },
                None => {
                    assert forall|j: int| 0 <= j < es.len() implies !entry_matches(
                        #[trigger] es[j],
                        pattern,
                        self_pid,
                    ) by {
                        if j > 0 {
                            assert(es[j] == rest[j - 1]);
                        }
                    }
                },
            }
        }
    }
}

/// The kilobyte fields come from the `VmRSS:` lines, in order: a line that starts with
/// `VmRSS:` and has a second token puts that token first, any other line adds nothing.
pub proof fn lemma_rss_candidates_step(l: Seq<char>, rest: Seq<Seq<char>>)
    ensures
        rss_candidates_of(seq![l] + rest) == (if starts_with(l, "VmRSS:"@) && tokens(l).len() >= 2 {
            seq![tokens(l)[1]] + rss_candidates_of(rest)
        } else {
            rss_candidates_of(rest)
        }),
        rss_candidates_of(Seq::<Seq<char>>::empty()) == Seq::<Seq<char>>::empty(),
{
    reveal_strlit("VmRSS:");
    assert(vmrss_key() =~= "VmRSS:"@);
    assert((seq![l] + rest).drop_first() =~= rest);
    assert((seq![l] + rest)[0] == l);
}

/// The pid of a process whose command line holds `pattern`: the one that `pgrep` output
/// names (when `pgrep` ran), else the first matching entry of the `/proc` listing.
pub fn find_pid_by_pattern(
    pgrep_output: Option<&str>,
    proc_entries: &Vec<ProcEntry>,
    pattern: &str,
    self_pid: u32,
) -> (r: Option<u32>)
    ensures
        r == match pgrep_output {
            Some(t) => match first_listed_pid(lines(t@), self_pid) {
                Some(p) => Some(p),
                None => first_matching_entry(proc_entries@, pattern@, self_pid),
            },
            None => first_matching_entry(proc_entries@, pattern@, self_pid),
        },
{
    let from_pgrep = match pgrep_output {
        Some(t) => pid_from_pgrep_output(t, self_pid),
        None => None,
    };
    if from_pgrep.is_some() {
        return from_pgrep;
    }
    let ghost fallback = first_matching_entry(proc_entries@, pattern@, self_pid);
    assert(match pgrep_output {
        Some(t) => match first_listed_pid(lines(t@), self_pid) {
            Some(p) => Some(p),
            None => fallback,
        },
        None => fallback,
    } == fallback);
    let pat = chars_of(pattern);
    let mut i: usize = 0;
    assert(proc_entries@.skip(0) =~= proc_entries@);
    while i < proc_entries.len()
        invariant
            i <= proc_entries.len(),
            pat@ == pattern@,
            first_matching_entry(proc_entries@.skip(i as int), pattern@, self_pid)
                == first_matching_entry(proc_entries@, pattern@, self_pid),
            match pgrep_output {
                Some(t) => match first_listed_pid(lines(t@), self_pid) {
                    Some(p) => Some(p),
                    None => first_matching_entry(proc_entries@, pattern@, self_pid),
                },
                None => first_matching_entry(proc_entries@, pattern@, self_pid),
            } == first_matching_entry(proc_entries@, pattern@, self_pid),
        decreases proc_entries.len() - i,
    {
        let e = &proc_entries[i];
        assert(proc_entries@.skip(i as int).drop_first() =~= proc_entries@.skip(i + 1));
        assert(proc_entries@.skip(i as int)[0] == proc_entries@[i as int]);
        let name = chars_of(e.name.as_str());
        assert(name@.subrange(0, name@.len() as int) =~= e.name@);
        match parse_u32_range(&name, 0, name.len()) {
            Some(pid) => {
                if pid != self_pid {
                    match &e.cmdline {
                        Some(c) => {
                            let cv = chars_of(c.as_str());
                            assert(cv@.subrange(0, cv@.len() as int) =~= c@);
                            if contains_at_all(&cv, 0, cv.len(), &pat) {
                                assert(first_matching_entry(proc_entries@.skip(i as int), pattern@, self_pid) == Some(pid));
                                return Some(pid);
                            }
                        },
                        None => {},
                    }
                }
            },
            None => {},
        }
        i = i + 1;
    }
    assert(proc_entries@.skip(i as int).len() == 0);
    None
}

} // verus!
