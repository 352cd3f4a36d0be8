//! Process memory accounting from `/proc/<pid>/smaps_rollup` and the walk over a process
//! tree whose snapshots are added up.
use vstd::prelude::*;
use crate::text::{
    chars_of, first_token, first_token_range, has_prefix, line_end, lines, lemma_lines_step,
    parse_u32, parse_u32_range, parse_u64, parse_u64_range, starts_with, strip_cr, tokens,
};

verus! {

/// Memory counters of one process, in kilobytes, as `/proc/<pid>/smaps_rollup` reports them.
#[derive(Clone, Copy, Debug, PartialEq, Eq, Structural)]
pub struct ProcessMemorySnapshot {
    pub rss_kb: u64,
    pub pss_kb: u64,
    pub pss_dirty_kb: u64,
    pub private_dirty_kb: u64,
    pub shared_clean_kb: u64,
}

/// The snapshot with every counter at zero.
pub open spec fn zero_snapshot() -> ProcessMemorySnapshot {
    ProcessMemorySnapshot {
        rss_kb: 0,
        pss_kb: 0,
        pss_dirty_kb: 0,
        private_dirty_kb: 0,
        shared_clean_kb: 0,
    }
}

impl Default for ProcessMemorySnapshot {
    fn default() -> (s: Self)
        ensures
            s == zero_snapshot(),
    {
        ProcessMemorySnapshot {
            rss_kb: 0,
            pss_kb: 0,
            pss_dirty_kb: 0,
            private_dirty_kb: 0,
            shared_clean_kb: 0,
        }
    }
}

/// The keys of the five counters of `smaps_rollup`, colon included.
pub open spec fn rss_key() -> Seq<char> {
    seq!['R', 's', 's', ':']
}

pub open spec fn pss_key() -> Seq<char> {
    seq!['P', 's', 's', ':']
}

pub open spec fn pss_dirty_key() -> Seq<char> {
    seq!['P', 's', 's', '_', 'D', 'i', 'r', 't', 'y', ':']
}

pub open spec fn private_dirty_key() -> Seq<char> {
    seq!['P', 'r', 'i', 'v', 'a', 't', 'e', '_', 'D', 'i', 'r', 't', 'y', ':']
}

pub open spec fn shared_clean_key() -> Seq<char> {
    seq!['S', 'h', 'a', 'r', 'e', 'd', '_', 'C', 'l', 'e', 'a', 'n', ':']
}

/// The kilobyte count after a key: the first whitespace-separated token read as a `u64`,
/// or 0 when there is no token or it is no such number.
pub open spec fn kb_value(rest: Seq<char>) -> u64 {
    match first_token(rest) {
        Some(t) => match parse_u64(t) {
            Some(v) => v,
            None => 0,
        },
        None => 0,
    }
}

/// The snapshot after one line of `smaps_rollup`: a line that starts with one of the five
/// keys sets that counter to the value after the key; any other line changes nothing.
pub open spec fn apply_smaps_line(s: ProcessMemorySnapshot, line: Seq<char>) -> ProcessMemorySnapshot {
    if starts_with(line, rss_key()) {
        ProcessMemorySnapshot { rss_kb: kb_value(line.skip(4)), ..s }
    } else if starts_with(line, pss_key()) {
        ProcessMemorySnapshot { pss_kb: kb_value(line.skip(4)), ..s }
    } else if starts_with(line, pss_dirty_key()) {
        ProcessMemorySnapshot { pss_dirty_kb: kb_value(line.skip(10)), ..s }
    } else if starts_with(line, private_dirty_key()) {
        ProcessMemorySnapshot { private_dirty_kb: kb_value(line.skip(14)), ..s }
    } else if starts_with(line, shared_clean_key()) {
        ProcessMemorySnapshot { shared_clean_kb: kb_value(line.skip(13)), ..s }
    } else {
        s
    }
}

/// The snapshot after the lines `ls`, in order.
pub open spec fn apply_smaps_lines(s: ProcessMemorySnapshot, ls: Seq<Seq<char>>) -> ProcessMemorySnapshot
    decreases ls.len(),
{
    if ls.len() == 0 {
        s
    } else {
        apply_smaps_lines(apply_smaps_line(s, ls[0]), ls.drop_first())
    }
}

/// The snapshot that the text of an `smaps_rollup` file describes.
pub open spec fn smaps_of(content: Seq<char>) -> ProcessMemorySnapshot {
    apply_smaps_lines(zero_snapshot(), lines(content))
}

/// The kilobyte count in the text after a key (the first token, read as a `u64`, else 0).
pub fn parse_kb(s: &str) -> (kb: u64)
    ensures
        kb == kb_value(s@),
{
    let v = chars_of(s);
    assert(v@.subrange(0, v@.len() as int) =~= s@);
    parse_kb_range(&v, 0, v.len())
}

fn parse_kb_range(v: &Vec<char>, lo: usize, hi: usize) -> (kb: u64)
    requires
        lo <= hi <= v.len(),
    ensures
        kb == kb_value(v@.subrange(lo as int, hi as int)),
{
    match first_token_range(v, lo, hi) {
        Some((a, b)) => match parse_u64_range(v, a, b) {
            Some(n) => n,
            None => 0,
        },
        None => 0,
    }
}

/// The five keys, as characters.
struct SmapsKeys {
    rss: Vec<char>,
    pss: Vec<char>,
    pss_dirty: Vec<char>,
    private_dirty: Vec<char>,
    shared_clean: Vec<char>,
}

impl SmapsKeys {
    spec fn wf(&self) -> bool {
        &&& self.rss@ == rss_key()
        &&& self.pss@ == pss_key()
        &&& self.pss_dirty@ == pss_dirty_key()
        &&& self.private_dirty@ == private_dirty_key()
        &&& self.shared_clean@ == shared_clean_key()
    }

    fn new() -> (k: Self)
        ensures
            k.wf(),
    {
        let rss = chars_of("Rss:");
        let pss = chars_of("Pss:");
        let pss_dirty = chars_of("Pss_Dirty:");
        let private_dirty = chars_of("Private_Dirty:");
        let shared_clean = chars_of("Shared_Clean:");
        proof {
            reveal_strlit("Rss:");
            reveal_strlit("Pss:");
            reveal_strlit("Pss_Dirty:");
            reveal_strlit("Private_Dirty:");
            reveal_strlit("Shared_Clean:");
            assert(rss@ =~= rss_key());
            assert(pss@ =~= pss_key());
            assert(pss_dirty@ =~= pss_dirty_key());
            assert(private_dirty@ =~= private_dirty_key());
            assert(shared_clean@ =~= shared_clean_key());
        }
        SmapsKeys { rss, pss, pss_dirty, private_dirty, shared_clean }
    }
}

fn apply_line_range(
    keys: &SmapsKeys,
    v: &Vec<char>,
    lo: usize,
    hi: usize,
    s: ProcessMemorySnapshot,
) -> (r: ProcessMemorySnapshot)
    requires
        keys.wf(),
        lo <= hi <= v.len(),
    ensures
        r == apply_smaps_line(s, v@.subrange(lo as int, hi as int)),
{
    let ghost line = v@.subrange(lo as int, hi as int);
    if has_prefix(v, lo, hi, &keys.rss) {
        assert(line.skip(4) =~= v@.subrange(lo + 4, hi as int));
        ProcessMemorySnapshot { rss_kb: parse_kb_range(v, lo + 4, hi), ..s }
    } else if has_prefix(v, lo, hi, &keys.pss) {
        assert(line.skip(4) =~= v@.subrange(lo + 4, hi as int));
        ProcessMemorySnapshot { pss_kb: parse_kb_range(v, lo + 4, hi), ..s }
    } else if has_prefix(v, lo, hi, &keys.pss_dirty) {
        assert(line.skip(10) =~= v@.subrange(lo + 10, hi as int));
        ProcessMemorySnapshot { pss_dirty_kb: parse_kb_range(v, lo + 10, hi), ..s }
    } else if has_prefix(v, lo, hi, &keys.private_dirty) {
        assert(line.skip(14) =~= v@.subrange(lo + 14, hi as int));
        ProcessMemorySnapshot { private_dirty_kb: parse_kb_range(v, lo + 14, hi), ..s }
    } else if has_prefix(v, lo, hi, &keys.shared_clean) {
        assert(line.skip(13) =~= v@.subrange(lo + 13, hi as int));
        ProcessMemorySnapshot { shared_clean_kb: parse_kb_range(v, lo + 13, hi), ..s }
    } else {
        s
    }
}

/// The snapshot that the text of an `smaps_rollup` file describes: each of the five counters
/// holds the value of the last line with its key, or 0 when no line has it.
pub fn parse_smaps_rollup(content: &str) -> (snap: ProcessMemorySnapshot)
    ensures
        snap == smaps_of(content@),
{
    let keys = SmapsKeys::new();
    let v = chars_of(content);
    let n = v.len();
    let mut snap = ProcessMemorySnapshot::default();
    let mut p: usize = 0;
    assert(v@.subrange(0, n as int) =~= content@);
    while p < n
        invariant
            keys.wf(),
            p <= n == v.len(),
            v@ == content@,
            apply_smaps_lines(snap, lines(v@.subrange(p as int, n as int))) == smaps_of(content@),
        decreases n - p,
    {
        let k = line_end(&v, p, n);
        proof {
            lemma_lines_step(v@, p as int, k as int, n as int);
        }
        if k < n {
            let mut hi = k;
            if k > p && v[k - 1] == '\r' {
                hi = k - 1;
                assert(strip_cr(v@.subrange(p as int, k as int)) =~= v@.subrange(p as int, hi as int));
            } else {
                assert(strip_cr(v@.subrange(p as int, k as int)) =~= v@.subrange(p as int, hi as int));
            }
            let ghost ls = lines(v@.subrange(p as int, n as int));
            assert(ls.drop_first() =~= lines(v@.subrange(k + 1, n as int)));
            snap = apply_line_range(&keys, &v, p, hi, snap);
            p = k + 1;
        } else {
            let ghost ls = lines(v@.subrange(p as int, n as int));
            assert(ls.drop_first() =~= Seq::<Seq<char>>::empty());
            snap = apply_line_range(&keys, &v, p, n, snap);
            assert(lines(v@.subrange(n as int, n as int)) == Seq::<Seq<char>>::empty()) by {
                assert(v@.subrange(n as int, n as int).len() == 0);
            }
            p = n;
        }
    }
    assert(lines(v@.subrange(n as int, n as int)) == Seq::<Seq<char>>::empty()) by {
        assert(v@.subrange(n as int, n as int).len() == 0);
    }
    snap
}

/// The snapshots of the rollup files that could be read (`Some`), in order.
pub open spec fn readable_snapshots(rs: Seq<Option<String>>) -> Seq<ProcessMemorySnapshot>
    decreases rs.len(),
{
    if rs.len() == 0 {
        seq![]
    } else {
        let rest = readable_snapshots(rs.drop_last());
        match rs.last() {
            Some(c) => rest.push(smaps_of(c@)),
            None => rest,
        }
    }
}

/// The sums of the five counters over `ss`, in the order of the fields.
pub open spec fn snapshot_totals(ss: Seq<ProcessMemorySnapshot>) -> (int, int, int, int, int)
    decreases ss.len(),
{
    if ss.len() == 0 {
        (0, 0, 0, 0, 0)
    } else {
        let t = snapshot_totals(ss.drop_last());
        let s = ss.last();
        (
            t.0 + s.rss_kb,
            t.1 + s.pss_kb,
            t.2 + s.pss_dirty_kb,
            t.3 + s.private_dirty_kb,
            t.4 + s.shared_clean_kb,
        )
    }
}

/// The tree totals add up rollup by rollup: with no rollups every counter is zero, an
/// unreadable rollup adds nothing, and a readable one adds each of its five counters to the
/// matching sum.
pub proof fn lemma_tree_totals_step(rs: Seq<Option<String>>, c: String)
    ensures
        snapshot_totals(readable_snapshots(Seq::<Option<String>>::empty())) == (0int, 0int, 0int, 0int, 0int),
        snapshot_totals(readable_snapshots(rs.push(None))) == snapshot_totals(readable_snapshots(rs)),
        ({
            let t = snapshot_totals(readable_snapshots(rs));
            let s = smaps_of(c@);
            snapshot_totals(readable_snapshots(rs.push(Some(c)))) == (
                t.0 + s.rss_kb,
                t.1 + s.pss_kb,
                t.2 + s.pss_dirty_kb,
                t.3 + s.private_dirty_kb,
                t.4 + s.shared_clean_kb,
            )
        }),
{
    assert(rs.push(None::<String>).drop_last() =~= rs);
    assert(rs.push(Some(c)).drop_last() =~= rs);
    let r = readable_snapshots(rs);
    assert(r.push(smaps_of(c@)).drop_last() =~= r);
}

/// How one line of `smaps_rollup` changes a snapshot: a line starting with `Rss:`, `Pss:`,
/// `Pss_Dirty:`, `Private_Dirty:` or `Shared_Clean:` sets that counter (and only it) to the
/// kilobyte count after the key; any other line changes nothing.
pub proof fn lemma_smaps_line(s: ProcessMemorySnapshot, l: Seq<char>)
    ensures
        starts_with(l, "Rss:"@) ==> apply_smaps_line(s, l) == (ProcessMemorySnapshot { rss_kb: kb_value(l.skip(4)), ..s }),
        starts_with(l, "Pss:"@) ==> apply_smaps_line(s, l) == (ProcessMemorySnapshot { pss_kb: kb_value(l.skip(4)), ..s }),
        starts_with(l, "Pss_Dirty:"@) ==> apply_smaps_line(s, l) == (ProcessMemorySnapshot { pss_dirty_kb: kb_value(l.skip(10)), ..s }),
        starts_with(l, "Private_Dirty:"@) ==> apply_smaps_line(s, l) == (ProcessMemorySnapshot { private_dirty_kb: kb_value(l.skip(14)), ..s }),
        starts_with(l, "Shared_Clean:"@) ==> apply_smaps_line(s, l) == (ProcessMemorySnapshot { shared_clean_kb: kb_value(l.skip(13)), ..s }),
        !starts_with(l, "Rss:"@) && !starts_with(l, "Pss:"@) && !starts_with(l, "Pss_Dirty:"@)
            && !starts_with(l, "Private_Dirty:"@) && !starts_with(l, "Shared_Clean:"@)
            ==> apply_smaps_line(s, l) == s,
{
    reveal_strlit("Rss:");
    reveal_strlit("Pss:");
    reveal_strlit("Pss_Dirty:");
    reveal_strlit("Private_Dirty:");
    reveal_strlit("Shared_Clean:");
    assert(rss_key() =~= "Rss:"@);
    assert(pss_key() =~= "Pss:"@);
    assert(pss_dirty_key() =~= "Pss_Dirty:"@);
    assert(private_dirty_key() =~= "Private_Dirty:"@);
    assert(shared_clean_key() =~= "Shared_Clean:"@);
    if starts_with(l, "Pss_Dirty:"@) {
        assert(l[3] == l.take(10)[3]);
        if starts_with(l, "Pss:"@) {
            assert(l[3] == l.take(4)[3]);
        }
    }
    if starts_with(l, "Private_Dirty:"@) {
        assert(l[1] == l.take(14)[1]);
        if starts_with(l, "Pss:"@) {
            assert(l[1] == l.take(4)[1]);
        }
        if starts_with(l, "Pss_Dirty:"@) {
            assert(l[1] == l.take(10)[1]);
        }
    }
    if starts_with(l, "Shared_Clean:"@) {
        assert(l[0] == l.take(13)[0]);
    }
    if starts_with(l, "Pss:"@) {
        assert(l[0] == l.take(4)[0]);
    }
    if starts_with(l, "Rss:"@) {
        assert(l[0] == l.take(4)[0]);
    }
}

/// Each of the five sums fits in a `u64`.
pub open spec fn totals_fit(t: (int, int, int, int, int)) -> bool {
    t.0 <= u64::MAX && t.1 <= u64::MAX && t.2 <= u64::MAX && t.3 <= u64::MAX && t.4 <= u64::MAX
}

/// The snapshot holds exactly the five sums.
pub open spec fn holds_totals(s: ProcessMemorySnapshot, t: (int, int, int, int, int)) -> bool {
    s.rss_kb == t.0 && s.pss_kb == t.1 && s.pss_dirty_kb == t.2 && s.private_dirty_kb == t.3
        && s.shared_clean_kb == t.4
}

/// The sums over a prefix of the rollups are no larger than the sums over all of them.
pub proof fn lemma_totals_prefix(rs: Seq<Option<String>>, i: int)
    requires
        0 <= i <= rs.len(),
    ensures
        ({
            let p = snapshot_totals(readable_snapshots(rs.take(i)));
            let t = snapshot_totals(readable_snapshots(rs));
            0 <= p.0 <= t.0 && 0 <= p.1 <= t.1 && 0 <= p.2 <= t.2 && 0 <= p.3 <= t.3 && 0 <= p.4
                <= t.4
        }),
    decreases rs.len(),
{
    if i == rs.len() {
        assert(rs.take(i) =~= rs);
        lemma_totals_nonneg(readable_snapshots(rs));
    } else {
        lemma_totals_prefix(rs.drop_last(), i);
        assert(rs.drop_last().take(i) =~= rs.take(i));
        let r = readable_snapshots(rs.drop_last());
        match rs.last() {
            Some(c) => {
                assert(r.push(smaps_of(c@)).drop_last() =~= r);
            },
            None => {},
        }
    }
}

/// Every running total of kilobyte counts is non-negative.
proof fn lemma_totals_nonneg(ss: Seq<ProcessMemorySnapshot>)
    ensures
        ({
            let t = snapshot_totals(ss);
            0 <= t.0 && 0 <= t.1 && 0 <= t.2 && 0 <= t.3 && 0 <= t.4
        }),
    decreases ss.len(),
{
    if ss.len() > 0 {
        lemma_totals_nonneg(ss.drop_last());
    }
}

/// How the readable snapshots grow by one rollup.
proof fn lemma_readable_step(rs: Seq<Option<String>>, i: int)
    requires
        0 <= i < rs.len(),
    ensures
        readable_snapshots(rs.take(i + 1)) == match rs[i] {
            Some(c) => readable_snapshots(rs.take(i)).push(smaps_of(c@)),
            None => readable_snapshots(rs.take(i)),
        },
        match rs[i] {
            Some(c) => readable_snapshots(rs.take(i + 1)).drop_last() == readable_snapshots(rs.take(i))
                && readable_snapshots(rs.take(i + 1)).last() == smaps_of(c@),
            None => true,
        },
{
    assert(rs.take(i + 1).drop_last() =~= rs.take(i));
    assert(rs.take(i + 1).last() == rs[i]);
    match rs[i] {
        Some(c) => {
            assert(readable_snapshots(rs.take(i)).push(smaps_of(c@)).drop_last() =~= readable_snapshots(rs.take(i)));
        },
        None => {},
    }
}

/// Whether the five sums over the readable rollups all fit in a `u64`: the condition under
/// which `read_process_tree_smaps` can add them up.
pub fn tree_totals_fit(rollups: &Vec<Option<String>>) -> (b: bool)
    ensures
        b == totals_fit(snapshot_totals(readable_snapshots(rollups@))),
{
    let mut t = ProcessMemorySnapshot::default();
    let mut i: usize = 0;
    while i < rollups.len()
        invariant
            i <= rollups.len(),
            holds_totals(t, snapshot_totals(readable_snapshots(rollups@.take(i as int)))),
        decreases rollups.len() - i,
    {
        proof {
            lemma_readable_step(rollups@, i as int);
        }
        match &rollups[i] {
            Some(c) => {
                let s = parse_smaps_rollup(c.as_str());
                let a = t.rss_kb.checked_add(s.rss_kb);
                let b = t.pss_kb.checked_add(s.pss_kb);
                let d = t.pss_dirty_kb.checked_add(s.pss_dirty_kb);
                let e = t.private_dirty_kb.checked_add(s.private_dirty_kb);
                let f = t.shared_clean_kb.checked_add(s.shared_clean_kb);
                if a.is_none() || b.is_none() || d.is_none() || e.is_none() || f.is_none() {
                    proof {
                        lemma_totals_prefix(rollups@, i + 1);
                    }
                    return false;
                }
                t = ProcessMemorySnapshot {
                    rss_kb: a.unwrap(),
                    pss_kb: b.unwrap(),
                    pss_dirty_kb: d.unwrap(),
                    private_dirty_kb: e.unwrap(),
                    shared_clean_kb: f.unwrap(),
                };
            },
            None => {},
        }
        i = i + 1;
    }
    assert(rollups@.take(rollups@.len() as int) =~= rollups@);
    true
}

/// The memory of a process tree: the five counters summed over the rollup files of its
/// processes that could be read (`Some` holds the file's text), or `None` when none could.
pub fn read_process_tree_smaps(rollups: &Vec<Option<String>>) -> (r: Option<ProcessMemorySnapshot>)
    requires
        totals_fit(snapshot_totals(readable_snapshots(rollups@))),
    ensures
        r is Some <==> readable_snapshots(rollups@).len() > 0,
        r matches Some(t) ==> holds_totals(t, snapshot_totals(readable_snapshots(rollups@))),
{
    let mut total = ProcessMemorySnapshot::default();
    let mut found_any = false;
    let mut i: usize = 0;
    while i < rollups.len()
        invariant
            i <= rollups.len(),
            totals_fit(snapshot_totals(readable_snapshots(rollups@))),
            holds_totals(total, snapshot_totals(readable_snapshots(rollups@.take(i as int)))),
            found_any == (readable_snapshots(rollups@.take(i as int)).len() > 0),
        decreases rollups.len() - i,
    {
        proof {
            lemma_readable_step(rollups@, i as int);
            lemma_totals_prefix(rollups@, i + 1);
        }
        match &rollups[i] {
            Some(c) => {
                let snap = parse_smaps_rollup(c.as_str());
                total.rss_kb = total.rss_kb + snap.rss_kb;
                total.pss_kb = total.pss_kb + snap.pss_kb;
                total.pss_dirty_kb = total.pss_dirty_kb + snap.pss_dirty_kb;
                total.private_dirty_kb = total.private_dirty_kb + snap.private_dirty_kb;
                total.shared_clean_kb = total.shared_clean_kb + snap.shared_clean_kb;
                found_any = true;
            },
            None => {},
        }
        i = i + 1;
    }
    assert(rollups@.take(rollups@.len() as int) =~= rollups@);
    if found_any {
        Some(total)
    } else {
        None
    }
}

/// The pids that the tokens `ts` of a `children` file add to a walk that already knows
/// `known`: each token that reads as a `u32` not yet known, in order, once.
pub open spec fn new_pids(known: Seq<u32>, ts: Seq<Seq<char>>) -> Seq<u32>
    decreases ts.len(),
{
    if ts.len() == 0 {
        seq![]
    } else {
        match parse_u32(ts[0]) {
            Some(p) => if known.contains(p) {
                new_pids(known, ts.drop_first())
            } else {
                seq![p] + new_pids(known.push(p), ts.drop_first())
            },
            None => new_pids(known, ts.drop_first()),
        }
    }
}

/// Adding the new pids keeps a pid list free of repetitions.
pub proof fn lemma_new_pids_distinct(known: Seq<u32>, ts: Seq<Seq<char>>)
    requires
        known.no_duplicates(),
    ensures
        (known + new_pids(known, ts)).no_duplicates(),
    decreases ts.len(),
{
    if ts.len() == 0 {
        assert(known + new_pids(known, ts) =~= known);
    } else {
        match parse_u32(ts[0]) {
            Some(p) => if known.contains(p) {
                lemma_new_pids_distinct(known, ts.drop_first());
            } else {
                assert(known.push(p).no_duplicates()) by {
                    assert forall|i: int, j: int|
                        0 <= i < known.push(p).len() && 0 <= j < known.push(p).len() && i != j
                        implies known.push(p)[i] != known.push(p)[j] by {
                        if i == known.len() && j < known.len() {
                            assert(known[j] == known.push(p)[j]);
                        }
                        if j == known.len() && i < known.len() {
                            assert(known[i] == known.push(p)[i]);
                        }
                    }
                }
                lemma_new_pids_distinct(known.push(p), ts.drop_first());
                assert(known + new_pids(known, ts) =~= known.push(p) + new_pids(
                    known.push(p),
                    ts.drop_first(),
                ));
            },
            None => {
                lemma_new_pids_distinct(known, ts.drop_first());
            },
        }
    }
}

/// The pids a `children` file adds are exactly its pid tokens that were not known yet: each
/// added pid is read from one of the tokens and was not known, and every token that reads
/// as a `u32` is known afterwards.
pub proof fn lemma_new_pids_members(known: Seq<u32>, ts: Seq<Seq<char>>)
    ensures
        forall|i: int|
            0 <= i < new_pids(known, ts).len() ==> !known.contains(#[trigger] new_pids(known, ts)[i])
                && exists|j: int| 0 <= j < ts.len() && parse_u32(#[trigger] ts[j]) == Some(new_pids(known, ts)[i]),
        forall|j: int|
            0 <= j < ts.len() && #[trigger] parse_u32(ts[j]) is Some ==> (known + new_pids(
                known,
                ts,
            )).contains(parse_u32(ts[j]).unwrap()),
    decreases ts.len(),
{
    if ts.len() > 0 {
        let rest = ts.drop_first();
        let nk = match parse_u32(ts[0]) {
            Some(p) => if known.contains(p) {
                known
            } else {
                known.push(p)
            },
            None => known,
        };
        lemma_new_pids_members(nk, rest);
        let np = new_pids(known, ts);
        let nr = new_pids(nk, rest);
        assert(known + np =~= nk + nr) by {
            match parse_u32(ts[0]) {
                Some(p) => {
                    if !known.contains(p) {
                        assert(np == seq![p] + nr);
                    }
                },
                None => {},
            }
        }
        assert forall|i: int| 0 <= i < np.len() implies !known.contains(#[trigger] np[i])
            && exists|j: int| 0 <= j < ts.len() && parse_u32(#[trigger] ts[j]) == Some(np[i]) by {
            match parse_u32(ts[0]) {
                Some(p) => {
                    if !known.contains(p) {
                        assert(np == seq![p] + nr);
                        if i == 0 {
                            assert(parse_u32(ts[0]) == Some(np[0]));
                        } else {
                            assert(np[i] == nr[i - 1]);
                            let j = choose|j: int| 0 <= j < rest.len() && parse_u32(#[trigger] rest[j]) == Some(nr[i - 1]);
                            assert(ts[j + 1] == rest[j]);
                            assert(!nk.contains(nr[i - 1]));
                            assert forall|k: int| 0 <= k < known.len() implies known[k] != np[i] by {
                                assert(nk[k] == known[k]);
                            }
                        }
                    } else {
                        let j = choose|j: int| 0 <= j < rest.len() && parse_u32(#[trigger] rest[j]) == Some(nr[i]);
                        assert(ts[j + 1] == rest[j]);
                    }
                },
                None => {
                    let j = choose|j: int| 0 <= j < rest.len() && parse_u32(#[trigger] rest[j]) == Some(nr[i]);
                    assert(ts[j + 1] == rest[j]);
                },
            }
        }
        assert forall|j: int| 0 <= j < ts.len() && #[trigger] parse_u32(ts[j]) is Some implies (known
            + np).contains(parse_u32(ts[j]).unwrap()) by {
            if j == 0 {
                let p = parse_u32(ts[0]).unwrap();
                if known.contains(p) {
                    let k = choose|k: int| 0 <= k < known.len() && known[k] == p;
                    assert((known + np)[k] == p);
                } else {
                    assert((nk + nr)[known.len() as int] == p);
                }
            } else {
                assert(ts[j] == rest[j - 1]);
                assert(parse_u32(rest[j - 1]) is Some);
            }
        }
    }
}

/// The breadth of a process tree being walked: the pids found so far, from the root on,
/// the pids whose children are still to be read, and those already handed out for reading.
pub struct ProcessTreeWalk {
    pids: Vec<u32>,
    queue: Vec<u32>,
    handed_out: Ghost<Set<u32>>,
}

impl ProcessTreeWalk {
    /// The pids found so far, in the order they were found.
    pub closed spec fn pid_list(&self) -> Seq<u32> {
        self.pids@
    }

    /// The pids whose children are still to be read; the last one comes next.
    pub closed spec fn pending(&self) -> Seq<u32> {
        self.queue@
    }

    /// The pids that `next_parent` has handed out, whose children the walker reads.
    pub closed spec fn expanded(&self) -> Set<u32> {
        self.handed_out@
    }

    /// A walk lists each pid once, has its root, only queues and hands out pids that it
    /// lists, and every listed pid is either still queued or already handed out.
    pub open spec fn wf(&self) -> bool {
        &&& self.pid_list().no_duplicates()
        &&& self.pid_list().len() > 0
        &&& forall|i: int|
            0 <= i < self.pending().len() ==> self.pid_list().contains(#[trigger] self.pending()[i])
        &&& forall|q: u32| #[trigger] self.expanded().contains(q) ==> self.pid_list().contains(q)
        &&& forall|i: int|
            0 <= i < self.pid_list().len() ==> self.pending().contains(#[trigger] self.pid_list()[i])
                || self.expanded().contains(self.pid_list()[i])
    }

    /// A walk that has found only `root_pid` and has yet to read its children.
    pub fn new(root_pid: u32) -> (w: Self)
        ensures
            w.wf(),
            w.pid_list() == seq![root_pid],
            w.pending() == seq![root_pid],
            w.expanded() == Set::<u32>::empty(),
    {
        let mut pids = Vec::new();
        pids.push(root_pid);
        let mut queue = Vec::new();
        queue.push(root_pid);
        let w = ProcessTreeWalk { pids, queue, handed_out: Ghost(Set::empty()) };
        assert(w.pid_list()[0] == root_pid);
        assert(w.pending()[0] == root_pid);
        w
    }

    /// The next pid whose children are to be read (the last queued), taken off the queue and
    /// counted as handed out. When nothing is left, every listed pid has been handed out.
    pub fn next_parent(&mut self) -> (r: Option<u32>)
        requires
            old(self).wf(),
        ensures
            final(self).wf(),
            final(self).pid_list() == old(self).pid_list(),
            match r {
                Some(p) => old(self).pending().len() > 0 && p == old(self).pending().last()
                    && final(self).pending() == old(self).pending().drop_last()
                    && final(self).expanded() == old(self).expanded().insert(p),
                None => old(self).pending().len() == 0 && final(self).pending() == old(self).pending()
                    && final(self).expanded() == old(self).expanded()
                    && forall|q: u32| #[trigger] final(self).pid_list().contains(q)
                        ==> final(self).expanded().contains(q),
            },
    {
        let ghost q0 = self.queue@;
        let r = self.queue.pop();
        proof {
            match r {
                Some(p) => {
                    self.handed_out@ = self.handed_out@.insert(p);
                    assert(q0[q0.len() - 1] == p);
                },
                None => {},
            }
            assert forall|i: int| 0 <= i < self.pending().len() implies self.pid_list().contains(
                #[trigger] self.pending()[i],
            ) by {
                assert(self.pending()[i] == q0[i]);
            }
            assert forall|q: u32| #[trigger] self.expanded().contains(q) implies self.pid_list().contains(q) by {
                if !old(self).expanded().contains(q) {
                    assert(q == q0[q0.len() - 1]);
                }
            }
            assert forall|i: int| 0 <= i < self.pid_list().len() implies self.pending().contains(
                #[trigger] self.pid_list()[i],
            ) || self.expanded().contains(self.pid_list()[i]) by {
                let q = self.pid_list()[i];
                if q0.contains(q) && !old(self).expanded().contains(q) {
                    let j = choose|j: int| 0 <= j < q0.len() && q0[j] == q;
                    if j < q0.len() - 1 {
                        assert(self.pending()[j] == q);
                    }
                }
            }
            if r is None {
                assert forall|q: u32| #[trigger] self.pid_list().contains(q) implies self.expanded().contains(q) by {
                    let j = choose|j: int| 0 <= j < self.pid_list().len() && self.pid_list()[j] == q;
                    assert(!self.pending().contains(self.pid_list()[j]));
                }
            }
        }
        r
    }

    /// Records the children listed in the text of a `children` file: every whitespace-separated
    /// token that reads as a `u32` and is not yet listed is listed and queued, in order.
    pub fn add_children(&mut self, children: &str)
        requires
            old(self).wf(),
        ensures
            final(self).wf(),
            final(self).pid_list() == old(self).pid_list() + new_pids(
                old(self).pid_list(),
                tokens(children@),
            ),
            final(self).pending() == old(self).pending() + new_pids(
                old(self).pid_list(),
                tokens(children@),
            ),
            final(self).expanded() == old(self).expanded(),
    {
        let v = chars_of(children);
        let n = v.len();
        let ghost k0 = self.pids@;
        let ghost q0 = self.queue@;
        let ghost all = new_pids(k0, tokens(children@));
        let ghost mut added: Seq<u32> = seq![];
        let mut p: usize = 0;
        assert(v@.subrange(0, n as int) =~= children@);
        while p < n
            invariant
                p <= n == v.len(),
                v@ == children@,
                k0 == old(self).pid_list(),
                q0 == old(self).pending(),
                all == new_pids(k0, tokens(children@)),
                self.pids@ == k0 + added,
                self.queue@ == q0 + added,
                self.expanded() == old(self).expanded(),
                all == added + new_pids(self.pids@, tokens(v@.subrange(p as int, n as int))),
            decreases n - p,
        {
            let ghost ts = tokens(v@.subrange(p as int, n as int));
            match first_token_range(&v, p, n) {
                Some((a, b)) => {
                    assert(ts.drop_first() =~= tokens(v@.subrange(b as int, n as int)));
                    match parse_u32_range(&v, a, b) {
                        Some(pid) => {
                            if !vec_contains(&self.pids, pid) {
                                self.pids.push(pid);
                                self.queue.push(pid);
                                proof {
                                    assert(all == added + (seq![pid] + new_pids(
                                        k0 + added.push(pid),
                                        tokens(v@.subrange(b as int, n as int)),
                                    ))) by {
                                        assert((k0 + added).push(pid) =~= k0 + added.push(pid));
                                    }
                                    assert(added + (seq![pid] + new_pids(
                                        k0 + added.push(pid),
                                        tokens(v@.subrange(b as int, n as int)),
                                    )) =~= added.push(pid) + new_pids(
                                        k0 + added.push(pid),
                                        tokens(v@.subrange(b as int, n as int)),
                                    ));
                                    added = added.push(pid);
                                    assert(self.pids@ =~= k0 + added);
                                    assert(self.queue@ =~= q0 + added);
                                }
                            }
                        },
                        None => {},
                    }
                    p = b;
                },
                None => {
                    proof {
                        assert(v@.subrange(n as int, n as int) =~= Seq::<char>::empty());
                        assert(tokens(Seq::<char>::empty()) =~= Seq::<Seq<char>>::empty());
                    }
                    p = n;
                },
            }
        }
        proof {
            assert(v@.subrange(n as int, n as int) =~= Seq::<char>::empty());
            assert(tokens(Seq::<char>::empty()) =~= Seq::<Seq<char>>::empty());
            assert(all =~= added);
            lemma_new_pids_distinct(k0, tokens(children@));
            assert forall|i: int| 0 <= i < self.pending().len() implies self.pid_list().contains(
                #[trigger] self.pending()[i],
            ) by {
                if i < q0.len() {
                    assert(old(self).pid_list().contains(q0[i]));
                    let j = choose|j: int| 0 <= j < k0.len() && k0[j] == q0[i];
                    assert(self.pid_list()[j] == q0[i]);
                } else {
                    assert(self.pid_list()[k0.len() + i - q0.len()] == self.pending()[i]);
                }
            }
            assert forall|q: u32| #[trigger] self.expanded().contains(q) implies self.pid_list().contains(q) by {
                assert(old(self).expanded().contains(q));
                assert(k0.contains(q));
                let j = choose|j: int| 0 <= j < k0.len() && k0[j] == q;
                assert(self.pid_list()[j] == q);
            }
            assert forall|i: int| 0 <= i < self.pid_list().len() implies self.pending().contains(
                #[trigger] self.pid_list()[i],
            ) || self.expanded().contains(self.pid_list()[i]) by {
                let q = self.pid_list()[i];
                if i < k0.len() {
                    assert(k0[i] == q);
                    if q0.contains(q) {
                        let j = choose|j: int| 0 <= j < q0.len() && q0[j] == q;
                        assert(self.pending()[j] == q);
                    }
                } else {
                    assert(self.pending()[q0.len() + i - k0.len()] == q);
                }
            }
        }
    }

    /// The pids found so far, from the root on, each once.
    pub fn pids(&self) -> (r: Vec<u32>)
        ensures
            r@ == self.pid_list(),
    {
        let mut r = Vec::new();
        let mut i: usize = 0;
        while i < self.pids.len()
            invariant
                i <= self.pids.len(),
                r@ == self.pids@.take(i as int),
            decreases self.pids.len() - i,
        {
            r.push(self.pids[i]);
            assert(self.pids@.take(i as int).push(self.pids@[i as int]) =~= self.pids@.take(i + 1));
            i = i + 1;
        }
        assert(self.pids@.take(i as int) =~= self.pids@);
        r
    }
}

fn vec_contains(v: &Vec<u32>, x: u32) -> (b: bool)
    ensures
        b == v@.contains(x),
{
    let mut i: usize = 0;
    while i < v.len()
        invariant
            i <= v.len(),
            forall|j: int| 0 <= j < i ==> v@[j] != x,
        decreases v.len() - i,
    {
        if v[i] == x {
            return true;
        }
        i = i + 1;
    }
    false
}

} // verus!
