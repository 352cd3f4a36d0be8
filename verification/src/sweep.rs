//! The settings of a branching sweep as they are given on the command line: comma-separated
//! lists of branch counts and of engine names.
use vstd::prelude::*;
use crate::text::{
    chars_of, find_char, lemma_trim_char_end_take, len_before, parse_u64_range, parse_unsigned,
    push_chars, string_of, trim, trim_char_end, trim_range,
};

verus! {

/// The pieces of `s` between the occurrences of `c` (`str::split(c)`): one more piece than
/// there are `c`s, empty pieces included.
pub open spec fn split_fields(s: Seq<char>, c: char) -> Seq<Seq<char>>
    decreases s.len(),
{
    let k = len_before(s, c);
    if k < s.len() {
        seq![s.take(k as int)] + split_fields(s.skip(k + 1 as int), c)
    } else {
        seq![s]
    }
}

/// `s.parse::<usize>().ok()`.
pub open spec fn parse_usize(s: Seq<char>) -> Option<usize> {
    match parse_unsigned(s) {
        Some(v) => if v <= usize::MAX {
            Some(v as usize)
        } else {
            None
        },
        None => None,
    }
}

/// The numbers that the pieces spell once trimmed, in order; pieces that are not a number
/// that fits a `usize` are left out.
pub open spec fn counts_of(ps: Seq<Seq<char>>) -> Seq<usize>
    decreases ps.len(),
{
    if ps.len() == 0 {
        seq![]
    } else {
        match parse_usize(trim(ps[0])) {
            Some(n) => seq![n] + counts_of(ps.drop_first()),
            None => counts_of(ps.drop_first()),
        }
    }
}

/// The pieces, trimmed, that are not empty once trimmed, in order.
pub open spec fn names_of(ps: Seq<Seq<char>>) -> Seq<Seq<char>>
    decreases ps.len(),
{
    if ps.len() == 0 {
        seq![]
    } else if trim(ps[0]).len() > 0 {
        seq![trim(ps[0])] + names_of(ps.drop_first())
    } else {
        names_of(ps.drop_first())
    }
}

/// How `split_fields` continues after the piece that ends at position `k`.
proof fn lemma_split_step(s: Seq<char>, lo: int, k: int)
    requires
        0 <= lo <= k <= s.len(),
        len_before(s.subrange(lo, s.len() as int), ',') == k - lo,
    ensures
        k < s.len() ==> split_fields(s.subrange(lo, s.len() as int), ',') == seq![
            s.subrange(lo, k)
        ] + split_fields(s.subrange(k + 1, s.len() as int), ','),
        k == s.len() ==> split_fields(s.subrange(lo, s.len() as int), ',') == seq![
            s.subrange(lo, k)
        ],
{
    let sub = s.subrange(lo, s.len() as int);
    assert(sub.take(k - lo) =~= s.subrange(lo, k));
    if k < s.len() {
        assert(sub.skip(k - lo + 1) =~= s.subrange(k + 1, s.len() as int));
    }
}

/// `counts_of` and `names_of` of a list with a first piece.
proof fn lemma_counts_cons(p: Seq<char>, rest: Seq<Seq<char>>)
    ensures
        counts_of(seq![p] + rest) == (match parse_usize(trim(p)) {
            Some(n) => seq![n] + counts_of(rest),
            None => counts_of(rest),
        }),
        names_of(seq![p] + rest) == (if trim(p).len() > 0 {
            seq![trim(p)] + names_of(rest)
        } else {
            names_of(rest)
        }),
{
    assert((seq![p] + rest).drop_first() =~= rest);
    assert((seq![p] + rest)[0] == p);
}

/// `pieces` joined back together with `c` between each two.
pub open spec fn join_fields(pieces: Seq<Seq<char>>, c: char) -> Seq<char>
    decreases pieces.len(),
{
    if pieces.len() <= 1 {
        if pieces.len() == 0 {
            seq![]
        } else {
            pieces[0]
        }
    } else {
        pieces[0] + seq![c] + join_fields(pieces.drop_first(), c)
    }
}

/// Splitting cuts at every `c` and nowhere else: there is at least one piece, no piece holds
/// `c`, and joining the pieces with `c` gives back the text.
pub proof fn lemma_split_fields(s: Seq<char>, c: char)
    ensures
        split_fields(s, c).len() >= 1,
        forall|i: int, j: int|
            0 <= i < split_fields(s, c).len() && 0 <= j < split_fields(s, c)[i].len()
                ==> #[trigger] split_fields(s, c)[i][j] != c,
        join_fields(split_fields(s, c), c) == s,
    decreases s.len(),
{
    let k = len_before(s, c);
    lemma_len_before(s, c);
    if k < s.len() {
        let rest = s.skip(k + 1 as int);
        lemma_split_fields(rest, c);
        let ps = split_fields(s, c);
        let rs = split_fields(rest, c);
        assert(ps == seq![s.take(k as int)] + rs);
        assert(ps.drop_first() =~= rs);
        assert forall|i: int, j: int|
            0 <= i < ps.len() && 0 <= j < ps[i].len() implies #[trigger] ps[i][j] != c by {
            if i > 0 {
                assert(ps[i] == rs[i - 1]);
            } else {
                assert(ps[0][j] == s[j]);
            }
        }
        assert(s.take(k as int) + seq![c] + rest =~= s);
    } else {
        assert forall|i: int, j: int|
            0 <= i < split_fields(s, c).len() && 0 <= j < split_fields(s, c)[i].len()
                implies #[trigger] split_fields(s, c)[i][j] != c by {
            assert(split_fields(s, c)[i] == s);
        }
    }
}

/// `len_before` stops at the first `c`.
proof fn lemma_len_before(s: Seq<char>, c: char)
    ensures
        len_before(s, c) <= s.len(),
        forall|j: int| 0 <= j < len_before(s, c) ==> #[trigger] s[j] != c,
        len_before(s, c) < s.len() ==> s[len_before(s, c) as int] == c,
    decreases s.len(),
{
    if s.len() > 0 && s[0] != c {
        lemma_len_before(s.drop_first(), c);
        assert forall|j: int| 0 <= j < len_before(s, c) implies #[trigger] s[j] != c by {
            if j > 0 {
                assert(s[j] == s.drop_first()[j - 1]);
            }
        }
        if len_before(s, c) < s.len() {
            assert(s[len_before(s, c) as int] == s.drop_first()[len_before(s.drop_first(), c) as int]);
        }
    }
}

/// Counts and names add up piece by piece: over concatenated piece lists they are the
/// concatenation, a piece that trims to a number fitting a `usize` gives that number, and a
/// piece that trims to something non-empty gives that trimmed text.
pub proof fn lemma_lists_additive(a: Seq<Seq<char>>, b: Seq<Seq<char>>, p: Seq<char>)
    ensures
        counts_of(a + b) == counts_of(a) + counts_of(b),
        names_of(a + b) == names_of(a) + names_of(b),
        counts_of(seq![p]) == (match parse_usize(trim(p)) {
            Some(n) => seq![n],
            None => Seq::<usize>::empty(),
        }),
        names_of(seq![p]) == (if trim(p).len() > 0 {
            seq![trim(p)]
        } else {
            Seq::<Seq<char>>::empty()
        }),
    decreases a.len(),
{
    lemma_counts_cons(p, Seq::<Seq<char>>::empty());
    assert(seq![p] + Seq::<Seq<char>>::empty() =~= seq![p]);
    assert(counts_of(Seq::<Seq<char>>::empty()) == Seq::<usize>::empty());
    assert(names_of(Seq::<Seq<char>>::empty()) == Seq::<Seq<char>>::empty());
    assert(seq![trim(p)] + Seq::<Seq<char>>::empty() =~= seq![trim(p)]);
    if parse_usize(trim(p)) is Some {
        assert(seq![parse_usize(trim(p)).unwrap()] + Seq::<usize>::empty() =~= seq![parse_usize(trim(p)).unwrap()]);
    }
    if a.len() > 0 {
        lemma_lists_additive(a.drop_first(), b, p);
        assert(seq![a[0]] + a.drop_first() =~= a);
        assert(seq![a[0]] + (a.drop_first() + b) =~= a + b);
        lemma_counts_cons(a[0], a.drop_first() + b);
        lemma_counts_cons(a[0], a.drop_first());
        assert(counts_of(a + b) =~= counts_of(a) + counts_of(b));
        assert(names_of(a + b) =~= names_of(a) + names_of(b));
    } else {
        assert(a + b =~= b);
        assert(counts_of(a) + counts_of(b) =~= counts_of(b));
        assert(names_of(a) + names_of(b) =~= names_of(b));
    }
}

/// The branch counts of a comma-separated list: each piece trimmed and read as a number,
/// pieces that are not one left out (`split(',').filter_map(|s| s.trim().parse().ok())`).
pub fn parse_branch_counts(list: &str) -> (counts: Vec<usize>)
    ensures
        counts@ == counts_of(split_fields(list@, ',')),
{
    let v = chars_of(list);
    let len = v.len();
    let mut out: Vec<usize> = Vec::new();
    let mut lo: usize = 0;
    assert(v@.subrange(0, len as int) =~= v@);
    loop
        invariant
            lo <= len == v.len(),
            v@ == list@,
            out@ + counts_of(split_fields(v@.subrange(lo as int, len as int), ',')) == counts_of(
                split_fields(list@, ','),
            ),
        decreases len - lo,
    {
        let k = find_char(&v, lo, len, ',');
        let (a, b) = trim_range(&v, lo, k);
        let parsed = parse_u64_range(&v, a, b);
        let ghost piece = v@.subrange(lo as int, k as int);
        let ghost before = out@;
        proof {
            lemma_split_step(v@, lo as int, k as int);
            assert(trim(piece) == v@.subrange(a as int, b as int));
        }
        match parsed {
            Some(n) => {
                if n as u128 <= usize::MAX as u128 {
                    out.push(n as usize);
                }
            },
            None => {},
        }
        proof {
            let rest = if k < len {
                split_fields(v@.subrange(k + 1, len as int), ',')
            } else {
                Seq::<Seq<char>>::empty()
            };
            if k == len {
                assert(seq![piece] =~= seq![piece] + rest);
            }
            lemma_counts_cons(piece, rest);
            match parse_usize(trim(piece)) {
                Some(m) => {
                    assert(out@ =~= before.push(m));
                    assert(before + (seq![m] + counts_of(rest)) =~= out@ + counts_of(rest));
                },
                None => {
                    assert(out@ =~= before);
                },
            }
        }
        if k == len {
            proof {
                assert(counts_of(Seq::<Seq<char>>::empty()) =~= Seq::<usize>::empty());
                assert(out@ + Seq::<usize>::empty() =~= out@);
            }
            return out;
        }
        lo = k + 1;
    }
}

/// The names of a comma-separated list: each piece trimmed, empty pieces left out.
pub fn parse_name_list(list: &str) -> (names: Vec<String>)
    ensures
        names@.map_values(|n: String| n@) == names_of(split_fields(list@, ',')),
{
    let v = chars_of(list);
    let len = v.len();
    let mut out: Vec<String> = Vec::new();
    let mut lo: usize = 0;
    assert(v@.subrange(0, len as int) =~= v@);
    loop
        invariant
            lo <= len == v.len(),
            v@ == list@,
            out@.map_values(|n: String| n@) + names_of(
                split_fields(v@.subrange(lo as int, len as int), ','),
            ) == names_of(split_fields(list@, ',')),
        decreases len - lo,
    {
        let k = find_char(&v, lo, len, ',');
        let (a, b) = trim_range(&v, lo, k);
        let ghost piece = v@.subrange(lo as int, k as int);
        let ghost before = out@.map_values(|n: String| n@);
        proof {
            lemma_split_step(v@, lo as int, k as int);
            assert(trim(piece) == v@.subrange(a as int, b as int));
        }
        if a < b {
            let name = string_of(&v, a, b);
            out.push(name);
        }
        proof {
            let rest = if k < len {
                split_fields(v@.subrange(k + 1, len as int), ',')
            } else {
                Seq::<Seq<char>>::empty()
            };
            if k == len {
                assert(seq![piece] =~= seq![piece] + rest);
            }
            lemma_counts_cons(piece, rest);
            if trim(piece).len() > 0 {
                assert(out@.map_values(|n: String| n@) =~= before.push(trim(piece)));
                assert(before + (seq![trim(piece)] + names_of(rest)) =~= out@.map_values(
                    |n: String| n@,
                ) + names_of(rest));
            } else {
                assert(out@.map_values(|n: String| n@) =~= before);
            }
        }
        if k == len {
            proof {
                assert(names_of(Seq::<Seq<char>>::empty()) =~= Seq::<Seq<char>>::empty());
                assert(out@.map_values(|n: String| n@) + Seq::<Seq<char>>::empty()
                    =~= out@.map_values(|n: String| n@));
            }
            return out;
        }
        lo = k + 1;
    }
}

/// The completions endpoint under an engine's base URL: the base without its trailing
/// slashes, then `/completions`.
pub fn completions_url(base_url: &str) -> (url: String)
    ensures
        url@ == trim_char_end(base_url@, '/') + "/completions"@,
{
    let v = chars_of(base_url);
    let mut b = v.len();
    while b > 0 && v[b - 1] == '/'
        invariant
            b <= v.len(),
            forall|i: int| b <= i < v.len() ==> #[trigger] v@[i] == '/',
        decreases b,
    {
        b = b - 1;
    }
    proof {
        lemma_trim_char_end_take(v@, '/', b as int);
        let u = v@.take(b as int);
        if u.len() > 0 {
            assert(u.last() == v@[b - 1]);
        }
        assert(trim_char_end(u, '/') == u);
        assert(v@.subrange(0, b as int) =~= u);
    }
    let mut url = String::new();
    push_chars(&mut url, &v, 0, b);
    url.append("/completions");
    proof {
        assert(Seq::<char>::empty() + v@.subrange(0, b as int) =~= v@.take(b as int));
    }
    url
}

} // verus!
