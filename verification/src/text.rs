//! Character-level text primitives shared by the parsers of this crate.
//!
//! Every function here works on the characters of a string (`Seq<char>` in
//! specifications, `Vec<char>` with index ranges in code) and follows the
//! behaviour of the corresponding `str` method of the standard library.
use vstd::prelude::*;

verus! {

/// `c` has the Unicode `White_Space` property (what `char::is_whitespace` tests).
pub open spec fn is_ws(c: char) -> bool {
    let u = c as u32;
    ||| 9 <= u <= 13
    ||| u == 32
    ||| u == 0x85
    ||| u == 0xA0
    ||| u == 0x1680
    ||| 0x2000 <= u <= 0x200A
    ||| u == 0x2028
    ||| u == 0x2029
    ||| u == 0x202F
    ||| u == 0x205F
    ||| u == 0x3000
}

/// `p` is a prefix of `s` (`str::starts_with`).
pub open spec fn starts_with(s: Seq<char>, p: Seq<char>) -> bool {
    p.len() <= s.len() && s.take(p.len() as int) == p
}

/// `p` occurs somewhere in `s` (`str::contains`); the empty pattern occurs everywhere.
pub open spec fn contains_seq(s: Seq<char>, p: Seq<char>) -> bool {
    exists|i: int| 0 <= i <= s.len() - p.len() && #[trigger] s.subrange(i, i + p.len()) == p
}

/// `s` without its leading whitespace (`str::trim_start`).
pub open spec fn trim_start(s: Seq<char>) -> Seq<char>
    decreases s.len(),
{
    if s.len() > 0 && is_ws(s[0]) {
        trim_start(s.drop_first())
    } else {
        s
    }
}

/// `s` without its trailing whitespace (`str::trim_end`).
pub open spec fn trim_end(s: Seq<char>) -> Seq<char>
    decreases s.len(),
{
    if s.len() > 0 && is_ws(s.last()) {
        trim_end(s.drop_last())
    } else {
        s
    }
}

/// `s` without leading and trailing whitespace (`str::trim`).
pub open spec fn trim(s: Seq<char>) -> Seq<char> {
    trim_end(trim_start(s))
}

/// `s` without the leading copies of `c`.
pub open spec fn trim_char_start(s: Seq<char>, c: char) -> Seq<char>
    decreases s.len(),
{
    if s.len() > 0 && s[0] == c {
        trim_char_start(s.drop_first(), c)
    } else {
        s
    }
}

/// `s` without the trailing copies of `c`.
pub open spec fn trim_char_end(s: Seq<char>, c: char) -> Seq<char>
    decreases s.len(),
{
    if s.len() > 0 && s.last() == c {
        trim_char_end(s.drop_last(), c)
    } else {
        s
    }
}

/// `s` without the character `c` at either end (`str::trim_matches` with a char).
pub open spec fn trim_char(s: Seq<char>, c: char) -> Seq<char> {
    trim_char_end(trim_char_start(s, c), c)
}

/// Number of characters of `s` before its first `c`, or `s.len()` if there is none.
pub open spec fn len_before(s: Seq<char>, c: char) -> nat
    decreases s.len(),
{
    if s.len() == 0 || s[0] == c {
        0
    } else {
        1 + len_before(s.drop_first(), c)
    }
}

/// The second piece of `s` split at `c` (`str::split(c).nth(1)`): the text between the first
/// and the second `c` (or the end), if `s` holds a `c`.
pub open spec fn second_field(s: Seq<char>, c: char) -> Option<Seq<char>> {
    let i = len_before(s, c);
    if i < s.len() {
        let r = s.skip(i + 1 as int);
        Some(r.take(len_before(r, c) as int))
    } else {
        None
    }
}

/// The longest prefix of `s` that holds no whitespace.
pub open spec fn leading_word(s: Seq<char>) -> Seq<char>
    decreases s.len(),
{
    if s.len() == 0 || is_ws(s[0]) {
        seq![]
    } else {
        seq![s[0]] + leading_word(s.drop_first())
    }
}

/// The first whitespace-separated token of `s` (`str::split_whitespace().next()`).
pub open spec fn first_token(s: Seq<char>) -> Option<Seq<char>> {
    let t = trim_start(s);
    if t.len() == 0 {
        None
    } else {
        Some(leading_word(t))
    }
}

/// The whitespace-separated tokens of `s`, in order (`str::split_whitespace`).
pub open spec fn tokens(s: Seq<char>) -> Seq<Seq<char>>
    decreases s.len(),
{
    let t = trim_start(s);
    if t.len() == 0 {
        seq![]
    } else {
        let w = leading_word(t);
        proof {
            lemma_trim_start_len(s);
            lemma_leading_word_len(t);
        }
        seq![w] + tokens(t.skip(w.len() as int))
    }
}

/// Number of characters of `s` before its first `'\n'`, or `s.len()` if there is none.
pub open spec fn line_len(s: Seq<char>) -> nat
    decreases s.len(),
{
    if s.len() == 0 || s[0] == '\n' {
        0
    } else {
        1 + line_len(s.drop_first())
    }
}

/// A line without the `'\r'` of a `"\r\n"` ending.
pub open spec fn strip_cr(l: Seq<char>) -> Seq<char> {
    if l.len() > 0 && l.last() == '\r' {
        l.drop_last()
    } else {
        l
    }
}

/// The lines of `s` (`str::lines`): split at `'\n'`, a `'\r'` before the `'\n'` is dropped,
/// and a final line ending adds no empty line.
pub open spec fn lines(s: Seq<char>) -> Seq<Seq<char>>
    decreases s.len(),
{
    if s.len() == 0 {
        seq![]
    } else {
        let k = line_len(s);
        proof {
            lemma_line_len(s);
        }
        if k == s.len() {
            seq![s]
        } else {
            seq![strip_cr(s.take(k as int))] + lines(s.skip(k + 1 as int))
        }
    }
}

/// `c` is an ASCII decimal digit.
pub open spec fn is_digit(c: char) -> bool {
    48 <= (c as u32) <= 57
}

/// The value of the ASCII digit `c`.
pub open spec fn digit_val(c: char) -> nat {
    ((c as u32) - 48) as nat
}

/// Every character of `s` is an ASCII decimal digit.
pub open spec fn all_digits(s: Seq<char>) -> bool {
    forall|i: int| 0 <= i < s.len() ==> is_digit(#[trigger] s[i])
}

/// The number that the decimal digits `s` spell.
pub open spec fn digits_value(s: Seq<char>) -> nat
    decreases s.len(),
{
    if s.len() == 0 {
        0
    } else {
        digits_value(s.drop_last()) * 10 + digit_val(s.last())
    }
}

/// The digits of an unsigned number as `from_str` reads them: one leading `'+'` is skipped.
pub open spec fn unsigned_digits(s: Seq<char>) -> Seq<char> {
    if s.len() > 0 && s[0] == '+' {
        s.drop_first()
    } else {
        s
    }
}

/// The value of `s` read as an unsigned decimal number, without bound; `None` unless `s` is
/// an optional `'+'` followed by at least one ASCII digit and nothing else.
pub open spec fn parse_unsigned(s: Seq<char>) -> Option<nat> {
    let d = unsigned_digits(s);
    if d.len() > 0 && all_digits(d) {
        Some(digits_value(d))
    } else {
        None
    }
}

/// `s.parse::<u64>().ok()`.
pub open spec fn parse_u64(s: Seq<char>) -> Option<u64> {
    match parse_unsigned(s) {
        Some(v) => if v <= u64::MAX {
            Some(v as u64)
        } else {
            None
        },
        None => None,
    }
}

/// `s.parse::<u32>().ok()`.
pub open spec fn parse_u32(s: Seq<char>) -> Option<u32> {
    match parse_unsigned(s) {
        Some(v) => if v <= u32::MAX {
            Some(v as u32)
        } else {
            None
        },
        None => None,
    }
}

/// The ASCII digit for `d < 10`.
pub open spec fn digit_char(d: nat) -> char {
    ((d + 48) as u32) as char
}

/// The decimal representation of `n` (`n.to_string()`), without leading zeros.
pub open spec fn decimal(n: nat) -> Seq<char>
    decreases n,
{
    if n < 10 {
        seq![digit_char(n)]
    } else {
        decimal(n / 10).push(digit_char(n % 10))
    }
}

/// `trim_start` drops a prefix, and what it keeps starts with no whitespace.
pub proof fn lemma_trim_start_len(s: Seq<char>)
    ensures
        trim_start(s).len() <= s.len(),
        trim_start(s) == s.skip(s.len() - trim_start(s).len()),
        trim_start(s).len() > 0 ==> !is_ws(trim_start(s)[0]),
    decreases s.len(),
{
    if s.len() > 0 && is_ws(s[0]) {
        lemma_trim_start_len(s.drop_first());
        assert(s.drop_first().skip(s.drop_first().len() - trim_start(s).len()) =~= s.skip(
            s.len() - trim_start(s).len(),
        ));
    } else {
        assert(s.skip(0) =~= s);
    }
}

/// `leading_word` is the prefix up to the first whitespace.
pub proof fn lemma_leading_word_len(s: Seq<char>)
    ensures
        leading_word(s).len() <= s.len(),
        leading_word(s) == s.take(leading_word(s).len() as int),
        s.len() > 0 && !is_ws(s[0]) ==> leading_word(s).len() > 0,
        forall|i: int| 0 <= i < leading_word(s).len() ==> !is_ws(#[trigger] s[i]),
        leading_word(s).len() < s.len() ==> is_ws(s[leading_word(s).len() as int]),
    decreases s.len(),
{
    if s.len() == 0 || is_ws(s[0]) {
        assert(s.take(0) =~= seq![]);
    } else {
        lemma_leading_word_len(s.drop_first());
        let w = leading_word(s.drop_first());
        assert(seq![s[0]] + w =~= s.take(w.len() + 1 as int));
        assert forall|i: int| 0 <= i < leading_word(s).len() implies !is_ws(#[trigger] s[i]) by {
            if i > 0 {
                assert(s[i] == s.drop_first()[i - 1]);
            }
        }
        if leading_word(s).len() < s.len() {
            assert(s[leading_word(s).len() as int] == s.drop_first()[w.len() as int]);
        }
    }
}

/// `line_len` is the position of the first newline, or the length.
pub proof fn lemma_line_len(s: Seq<char>)
    ensures
        line_len(s) <= s.len(),
        forall|i: int| 0 <= i < line_len(s) ==> #[trigger] s[i] != '\n',
        line_len(s) < s.len() ==> s[line_len(s) as int] == '\n',
    decreases s.len(),
{
    if s.len() == 0 || s[0] == '\n' {
    } else {
        lemma_line_len(s.drop_first());
        assert forall|i: int| 0 <= i < line_len(s) implies #[trigger] s[i] != '\n' by {
            if i > 0 {
                assert(s[i] == s.drop_first()[i - 1]);
            }
        }
        if line_len(s) < s.len() {
            assert(s[line_len(s) as int] == s.drop_first()[line_len(s.drop_first()) as int]);
        }
    }
}

/// `line_len` of a sequence is fixed by the position of its first newline.
pub proof fn lemma_line_len_at(s: Seq<char>, k: int)
    requires
        0 <= k <= s.len(),
        forall|i: int| 0 <= i < k ==> #[trigger] s[i] != '\n',
        k < s.len() ==> s[k] == '\n',
    ensures
        line_len(s) == k,
    decreases s.len(),
{
    if k > 0 {
        assert(s[0] != '\n');
        assert forall|i: int| 0 <= i < k - 1 implies #[trigger] s.drop_first()[i] != '\n' by {
            assert(s.drop_first()[i] == s[i + 1]);
        }
        if k < s.len() {
            assert(s.drop_first()[k - 1] == s[k]);
        }
        lemma_line_len_at(s.drop_first(), k - 1);
    }
}

/// `trim_start` of a sequence whose first `k` characters are whitespace.
pub proof fn lemma_trim_start_skip(s: Seq<char>, k: int)
    requires
        0 <= k <= s.len(),
        forall|i: int| 0 <= i < k ==> is_ws(#[trigger] s[i]),
    ensures
        trim_start(s) == trim_start(s.skip(k)),
    decreases k,
{
    if k > 0 {
        assert forall|i: int| 0 <= i < k - 1 implies is_ws(#[trigger] s.drop_first()[i]) by {
            assert(s.drop_first()[i] == s[i + 1]);
        }
        lemma_trim_start_skip(s.drop_first(), k - 1);
        assert(s.drop_first().skip(k - 1) =~= s.skip(k));
    } else {
        assert(s.skip(0) =~= s);
    }
}

/// `trim_end` of a sequence whose last characters after position `k` are whitespace.
pub proof fn lemma_trim_end_take(s: Seq<char>, k: int)
    requires
        0 <= k <= s.len(),
        forall|i: int| k <= i < s.len() ==> is_ws(#[trigger] s[i]),
    ensures
        trim_end(s) == trim_end(s.take(k)),
    decreases s.len() - k,
{
    if k < s.len() {
        assert(is_ws(s.last()));
        assert forall|i: int| k <= i < s.drop_last().len() implies is_ws(
            #[trigger] s.drop_last()[i],
        ) by {
            assert(s.drop_last()[i] == s[i]);
        }
        lemma_trim_end_take(s.drop_last(), k);
        assert(s.drop_last().take(k) =~= s.take(k));
    } else {
        assert(s.take(k) =~= s);
    }
}

/// A prefix of an all-digit sequence spells no larger number than the whole.
pub proof fn lemma_digits_value_prefix(d: Seq<char>, i: int)
    requires
        0 <= i <= d.len(),
    ensures
        digits_value(d.take(i)) <= digits_value(d),
    decreases d.len(),
{
    if i < d.len() {
        lemma_digits_value_prefix(d.drop_last(), i);
        assert(d.drop_last().take(i) =~= d.take(i));
    } else {
        assert(d.take(i) =~= d);
    }
}

/// The characters of `s`.
pub fn chars_of(s: &str) -> (v: Vec<char>)
    ensures
        v@ == s@,
{
    let mut v: Vec<char> = Vec::new();
    for c in it: s.chars()
        invariant
            it.seq() == s@,
            v@ == s@.take(it.index() as int),
    {
        v.push(c);
    }
    v
}

/// Appends `c` to `s` (`String::push`).
#[verifier::external_body]
pub(crate) fn push_char(s: &mut String, c: char)
    ensures
        final(s)@ == old(s)@.push(c),
{
    s.push(c);
}

/// Appends the characters `v[lo..hi]` to `s`.
pub fn push_chars(s: &mut String, v: &Vec<char>, lo: usize, hi: usize)
    requires
        lo <= hi <= v.len(),
    ensures
        final(s)@ == old(s)@ + v@.subrange(lo as int, hi as int),
{
    let mut i = lo;
    while i < hi
        invariant
            lo <= i <= hi <= v.len(),
            s@ == old(s)@ + v@.subrange(lo as int, i as int),
        decreases hi - i,
    {
        push_char(s, v[i]);
        assert(v@.subrange(lo as int, i as int).push(v@[i as int]) =~= v@.subrange(
            lo as int,
            i + 1,
        ));
        i = i + 1;
    }
}

/// The string made of `v[lo..hi]`.
pub fn string_of(v: &Vec<char>, lo: usize, hi: usize) -> (s: String)
    requires
        lo <= hi <= v.len(),
    ensures
        s@ == v@.subrange(lo as int, hi as int),
{
    let mut s = String::new();
    push_chars(&mut s, v, lo, hi);
    assert(Seq::<char>::empty() + v@.subrange(lo as int, hi as int) =~= v@.subrange(
        lo as int,
        hi as int,
    ));
    s
}

/// Appends the decimal representation of `n` to `s`.
pub fn push_decimal(s: &mut String, n: u64)
    ensures
        final(s)@ == old(s)@ + decimal(n as nat),
    decreases n,
{
    if n >= 10 {
        push_decimal(s, n / 10);
    }
    let d = n % 10;
    let c = char_from_digit(d);
    push_char(s, c);
    if n >= 10 {
        assert(old(s)@ + decimal((n / 10) as nat) + seq![c] =~= old(s)@ + decimal(n as nat));
    } else {
        assert(old(s)@.push(c) =~= old(s)@ + decimal(n as nat));
    }
}

/// The ASCII digit for `d < 10`.
pub fn char_from_digit(d: u64) -> (c: char)
    requires
        d < 10,
    ensures
        c == digit_char(d as nat),
{
    if d == 0 {
        '0'
    } else if d == 1 {
        '1'
    } else if d == 2 {
        '2'
    } else if d == 3 {
        '3'
    } else if d == 4 {
        '4'
    } else if d == 5 {
        '5'
    } else if d == 6 {
        '6'
    } else if d == 7 {
        '7'
    } else if d == 8 {
        '8'
    } else {
        '9'
    }
}

/// `char::is_whitespace`.
pub fn is_whitespace(c: char) -> (b: bool)
    ensures
        b == is_ws(c),
{
    let u = c as u32;
    (9 <= u && u <= 13) || u == 32 || u == 0x85 || u == 0xA0 || u == 0x1680 || (0x2000 <= u && u
        <= 0x200A) || u == 0x2028 || u == 0x2029 || u == 0x202F || u == 0x205F || u == 0x3000
}

/// Whether `v[lo..hi]` begins with the characters of `p`.
pub fn has_prefix(v: &Vec<char>, lo: usize, hi: usize, p: &Vec<char>) -> (b: bool)
    requires
        lo <= hi <= v.len(),
    ensures
        b == starts_with(v@.subrange(lo as int, hi as int), p@),
{
    let ghost s = v@.subrange(lo as int, hi as int);
    if p.len() > hi - lo {
        return false;
    }
    let mut i: usize = 0;
    while i < p.len()
        invariant
            p.len() <= hi - lo,
            lo <= hi <= v.len(),
            s == v@.subrange(lo as int, hi as int),
            i <= p.len(),
            forall|j: int| 0 <= j < i ==> s[j] == p@[j],
        decreases p.len() - i,
    {
        if v[lo + i] != p[i] {
            assert(s.take(p.len() as int)[i as int] != p@[i as int]);
            return false;
        }
        i = i + 1;
    }
    assert(s.take(p.len() as int) =~= p@);
    true
}

/// Whether `v[lo..hi]` contains the characters of `p` somewhere.
pub fn contains_at_all(v: &Vec<char>, lo: usize, hi: usize, p: &Vec<char>) -> (b: bool)
    requires
        lo <= hi <= v.len(),
    ensures
        b == contains_seq(v@.subrange(lo as int, hi as int), p@),
{
    let ghost s = v@.subrange(lo as int, hi as int);
    if p.len() > hi - lo {
        assert forall|i: int| 0 <= i <= s.len() - p.len() implies #[trigger] s.subrange(
            i,
            i + p.len(),
        ) != p@ by {}
        return false;
    }
    if p.len() == 0 {
        assert(s.subrange(0, 0 + p@.len() as int) =~= p@);
        return true;
    }
    let mut start: usize = lo;
    while start <= hi - p.len()
        invariant
            0 < p.len() <= hi - lo,
            lo <= start <= hi <= v.len(),
            s == v@.subrange(lo as int, hi as int),
            forall|i: int|
                0 <= i < start - lo ==> #[trigger] s.subrange(i, i + p.len()) != p@,
        decreases hi - start,
    {
        if has_prefix(v, start, hi, p) {
            assert(v@.subrange(start as int, hi as int).take(p.len() as int) =~= s.subrange(
                start - lo,
                start - lo + p.len(),
            ));
            return true;
        }
        assert(v@.subrange(start as int, hi as int).take(p.len() as int) =~= s.subrange(
            start - lo,
            start - lo + p.len(),
        ));
        start = start + 1;
    }
    false
}

/// The bounds of `trim(v[lo..hi])` inside `v`.
pub fn trim_range(v: &Vec<char>, lo: usize, hi: usize) -> (r: (usize, usize))
    requires
        lo <= hi <= v.len(),
    ensures
        lo <= r.0 <= r.1 <= hi,
        v@.subrange(r.0 as int, r.1 as int) == trim(v@.subrange(lo as int, hi as int)),
        v@.subrange(r.0 as int, hi as int) == trim_start(v@.subrange(lo as int, hi as int)),
{
    let ghost s = v@.subrange(lo as int, hi as int);
    let mut a = lo;
    while a < hi && is_whitespace(v[a])
        invariant
            lo <= a <= hi <= v.len(),
            forall|i: int| lo <= i < a ==> is_ws(#[trigger] v@[i]),
        decreases hi - a,
    {
        a = a + 1;
    }
    proof {
        lemma_trim_start_skip(s, a - lo);
        assert(s.skip(a - lo) =~= v@.subrange(a as int, hi as int));
        let t = v@.subrange(a as int, hi as int);
        if t.len() > 0 {
            assert(t[0] == v@[a as int]);
        }
        assert(trim_start(t) == t);
    }
    let mut b = hi;
    while b > a && is_whitespace(v[b - 1])
        invariant
            lo <= a <= b <= hi <= v.len(),
            forall|i: int| b <= i < hi ==> is_ws(#[trigger] v@[i]),
        decreases b - a,
    {
        b = b - 1;
    }
    proof {
        let t = v@.subrange(a as int, hi as int);
        lemma_trim_end_take(t, b - a);
        assert(t.take(b - a) =~= v@.subrange(a as int, b as int));
        let u = v@.subrange(a as int, b as int);
        if u.len() > 0 {
            assert(u.last() == v@[b - 1]);
        }
        assert(trim_end(u) == u);
    }
    (a, b)
}

/// The bounds of the first whitespace-separated token of `v[lo..hi]` inside `v`, if any.
pub fn first_token_range(v: &Vec<char>, lo: usize, hi: usize) -> (r: Option<(usize, usize)>)
    requires
        lo <= hi <= v.len(),
    ensures
        match r {
            Some((a, b)) => {
                &&& lo <= a < b <= hi
                &&& first_token(v@.subrange(lo as int, hi as int)) == Some(
                    v@.subrange(a as int, b as int),
                )
                &&& tokens(v@.subrange(lo as int, hi as int)) == seq![
                    v@.subrange(a as int, b as int),
                ] + tokens(v@.subrange(b as int, hi as int))
            },
            None => {
                &&& first_token(v@.subrange(lo as int, hi as int)) is None
                &&& tokens(v@.subrange(lo as int, hi as int)) == Seq::<Seq<char>>::empty()
            },
        },
{
    let (a, _) = trim_range(v, lo, hi);
    if a == hi {
        return None;
    }
    let b = word_end(v, a, hi);
    proof {
        let t = v@.subrange(a as int, hi as int);
        lemma_trim_start_len(v@.subrange(lo as int, hi as int));
        lemma_leading_word_len(t);
        assert(t.skip(b - a) =~= v@.subrange(b as int, hi as int));
    }
    Some((a, b))
}

/// The end of the whitespace-free run that starts at `a` in `v[..hi]`.
pub fn word_end(v: &Vec<char>, a: usize, hi: usize) -> (b: usize)
    requires
        a <= hi <= v.len(),
    ensures
        a <= b <= hi,
        v@.subrange(a as int, b as int) == leading_word(v@.subrange(a as int, hi as int)),
        b < hi ==> is_ws(v@[b as int]),
{
    let mut b = a;
    while b < hi && !is_whitespace(v[b])
        invariant
            a <= b <= hi <= v.len(),
            forall|i: int| a <= i < b ==> !is_ws(#[trigger] v@[i]),
        decreases hi - b,
    {
        b = b + 1;
    }
    proof {
        let t = v@.subrange(a as int, hi as int);
        lemma_leading_word_len(t);
        let w = leading_word(t);
        if w.len() < b - a {
            assert(is_ws(t[w.len() as int]));
            assert(t[w.len() as int] == v@[a + w.len()]);
        }
        if w.len() > b - a {
            assert(!is_ws(t[b - a]));
            assert(t[b - a] == v@[b as int]);
        }
        assert(w.len() == b - a);
        assert(t.take(w.len() as int) =~= v@.subrange(a as int, b as int));
    }
    b
}

/// The end of the line that starts at `lo` in `v[..hi]`: the position of the next `'\n'`,
/// or `hi`.
pub fn line_end(v: &Vec<char>, lo: usize, hi: usize) -> (k: usize)
    requires
        lo <= hi <= v.len(),
    ensures
        lo <= k <= hi,
        line_len(v@.subrange(lo as int, hi as int)) == k - lo,
{
    let mut k = lo;
    while k < hi && v[k] != '\n'
        invariant
            lo <= k <= hi <= v.len(),
            forall|i: int| lo <= i < k ==> #[trigger] v@[i] != '\n',
        decreases hi - k,
    {
        k = k + 1;
    }
    proof {
        let s = v@.subrange(lo as int, hi as int);
        assert forall|i: int| 0 <= i < k - lo implies #[trigger] s[i] != '\n' by {
            assert(s[i] == v@[lo + i]);
        }
        if k < hi {
            assert(s[k - lo] == v@[k as int]);
        }
        lemma_line_len_at(s, k - lo);
    }
    k
}

/// How `lines` continues after one line: the line `v[lo..k]` (less a final `'\r'` when a
/// `'\n'` follows it) comes first, then the lines after that `'\n'`.
pub proof fn lemma_lines_step(v: Seq<char>, lo: int, k: int, hi: int)
    requires
        0 <= lo < hi <= v.len(),
        lo <= k <= hi,
        line_len(v.subrange(lo, hi)) == k - lo,
    ensures
        k == hi ==> lines(v.subrange(lo, hi)) == seq![v.subrange(lo, hi)],
        k < hi ==> lines(v.subrange(lo, hi)) == seq![strip_cr(v.subrange(lo, k))] + lines(
            v.subrange(k + 1, hi),
        ),
{
    let s = v.subrange(lo, hi);
    if k < hi {
        assert(s.take(k - lo) =~= v.subrange(lo, k));
        assert(s.skip(k - lo + 1) =~= v.subrange(k + 1, hi));
    }
}

/// `len_before` is fixed by the position of the first `c`.
pub proof fn lemma_len_before_at(s: Seq<char>, c: char, k: int)
    requires
        0 <= k <= s.len(),
        forall|i: int| 0 <= i < k ==> #[trigger] s[i] != c,
        k < s.len() ==> s[k] == c,
    ensures
        len_before(s, c) == k,
    decreases s.len(),
{
    if k > 0 {
        assert(s[0] != c);
        assert forall|i: int| 0 <= i < k - 1 implies #[trigger] s.drop_first()[i] != c by {
            assert(s.drop_first()[i] == s[i + 1]);
        }
        if k < s.len() {
            assert(s.drop_first()[k - 1] == s[k]);
        }
        lemma_len_before_at(s.drop_first(), c, k - 1);
    }
}

/// The position of the first `c` in `v[lo..hi]`, or `hi`.
pub fn find_char(v: &Vec<char>, lo: usize, hi: usize, c: char) -> (k: usize)
    requires
        lo <= hi <= v.len(),
    ensures
        lo <= k <= hi,
        len_before(v@.subrange(lo as int, hi as int), c) == k - lo,
{
    let mut k = lo;
    while k < hi && v[k] != c
        invariant
            lo <= k <= hi <= v.len(),
            forall|i: int| lo <= i < k ==> #[trigger] v@[i] != c,
        decreases hi - k,
    {
        k = k + 1;
    }
    proof {
        let s = v@.subrange(lo as int, hi as int);
        assert forall|i: int| 0 <= i < k - lo implies #[trigger] s[i] != c by {
            assert(s[i] == v@[lo + i]);
        }
        if k < hi {
            assert(s[k - lo] == v@[k as int]);
        }
        lemma_len_before_at(s, c, k - lo);
    }
    k
}

/// The bounds of `second_field(v[lo..hi], c)` inside `v`, if there is one.
pub fn second_field_range(v: &Vec<char>, lo: usize, hi: usize, c: char) -> (r: Option<(usize, usize)>)
    requires
        lo <= hi <= v.len(),
    ensures
        match r {
            Some((a, b)) => lo <= a <= b <= hi && second_field(v@.subrange(lo as int, hi as int), c)
                == Some(v@.subrange(a as int, b as int)),
            None => second_field(v@.subrange(lo as int, hi as int), c) is None,
        },
{
    let i = find_char(v, lo, hi, c);
    if i == hi {
        return None;
    }
    let j = find_char(v, i + 1, hi, c);
    proof {
        let s = v@.subrange(lo as int, hi as int);
        assert(s.skip(i - lo + 1) =~= v@.subrange(i + 1, hi as int));
        assert(v@.subrange(i + 1, hi as int).take(j - i - 1) =~= v@.subrange(i + 1, j as int));
    }
    Some((i + 1, j))
}

/// `trim_char_start` of a sequence whose first `k` characters are `c`.
pub proof fn lemma_trim_char_start_skip(s: Seq<char>, c: char, k: int)
    requires
        0 <= k <= s.len(),
        forall|i: int| 0 <= i < k ==> #[trigger] s[i] == c,
    ensures
        trim_char_start(s, c) == trim_char_start(s.skip(k), c),
    decreases k,
{
    if k > 0 {
        assert forall|i: int| 0 <= i < k - 1 implies #[trigger] s.drop_first()[i] == c by {
            assert(s.drop_first()[i] == s[i + 1]);
        }
        lemma_trim_char_start_skip(s.drop_first(), c, k - 1);
        assert(s.drop_first().skip(k - 1) =~= s.skip(k));
    } else {
        assert(s.skip(0) =~= s);
    }
}

/// `trim_char_end` of a sequence whose characters from position `k` on are `c`.
pub proof fn lemma_trim_char_end_take(s: Seq<char>, c: char, k: int)
    requires
        0 <= k <= s.len(),
        forall|i: int| k <= i < s.len() ==> #[trigger] s[i] == c,
    ensures
        trim_char_end(s, c) == trim_char_end(s.take(k), c),
    decreases s.len() - k,
{
    if k < s.len() {
        assert(s.last() == c);
        assert forall|i: int| k <= i < s.drop_last().len() implies #[trigger] s.drop_last()[i]
            == c by {
            assert(s.drop_last()[i] == s[i]);
        }
        lemma_trim_char_end_take(s.drop_last(), c, k);
        assert(s.drop_last().take(k) =~= s.take(k));
    } else {
        assert(s.take(k) =~= s);
    }
}

/// The bounds of `trim_char(v[lo..hi], c)` inside `v`.
pub fn trim_char_range(v: &Vec<char>, lo: usize, hi: usize, c: char) -> (r: (usize, usize))
    requires
        lo <= hi <= v.len(),
    ensures
        lo <= r.0 <= r.1 <= hi,
        v@.subrange(r.0 as int, r.1 as int) == trim_char(v@.subrange(lo as int, hi as int), c),
{
    let ghost s = v@.subrange(lo as int, hi as int);
    let mut a = lo;
    while a < hi && v[a] == c
        invariant
            lo <= a <= hi <= v.len(),
            forall|i: int| lo <= i < a ==> #[trigger] v@[i] == c,
        decreases hi - a,
    {
        a = a + 1;
    }
    proof {
        assert forall|i: int| 0 <= i < a - lo implies #[trigger] s[i] == c by {
            assert(s[i] == v@[lo + i]);
        }
        lemma_trim_char_start_skip(s, c, a - lo);
        assert(s.skip(a - lo) =~= v@.subrange(a as int, hi as int));
        let t = v@.subrange(a as int, hi as int);
        if t.len() > 0 {
            assert(t[0] == v@[a as int]);
        }
        assert(trim_char_start(t, c) == t);
    }
    let mut b = hi;
    while b > a && v[b - 1] == c
        invariant
            lo <= a <= b <= hi <= v.len(),
            forall|i: int| b <= i < hi ==> #[trigger] v@[i] == c,
        decreases b - a,
    {
        b = b - 1;
    }
    proof {
        let t = v@.subrange(a as int, hi as int);
        assert forall|i: int| b - a <= i < t.len() implies #[trigger] t[i] == c by {
            assert(t[i] == v@[a + i]);
        }
        lemma_trim_char_end_take(t, c, b - a);
        assert(t.take(b - a) =~= v@.subrange(a as int, b as int));
        let u = v@.subrange(a as int, b as int);
        if u.len() > 0 {
            assert(u.last() == v@[b - 1]);
        }
        assert(trim_char_end(u, c) == u);
    }
    (a, b)
}

/// The second whitespace-separated token of `v[lo..hi]`, if it has one.
pub fn second_token_range(v: &Vec<char>, lo: usize, hi: usize) -> (r: Option<(usize, usize)>)
    requires
        lo <= hi <= v.len(),
    ensures
        match r {
            Some((a, b)) => lo <= a <= b <= hi && tokens(v@.subrange(lo as int, hi as int)).len()
                >= 2 && tokens(v@.subrange(lo as int, hi as int))[1] == v@.subrange(
                a as int,
                b as int,
            ),
            None => tokens(v@.subrange(lo as int, hi as int)).len() < 2,
        },
{
    match first_token_range(v, lo, hi) {
        Some((_a, b)) => match first_token_range(v, b, hi) {
            Some((c, d)) => Some((c, d)),
            None => None,
        },
        None => None,
    }
}

/// `parse_u64` of `v[lo..hi]`.
pub fn parse_u64_range(v: &Vec<char>, lo: usize, hi: usize) -> (r: Option<u64>)
    requires
        lo <= hi <= v.len(),
    ensures
        r == parse_u64(v@.subrange(lo as int, hi as int)),
{
    let ghost s = v@.subrange(lo as int, hi as int);
    let mut start = lo;
    if lo < hi && v[lo] == '+' {
        start = lo + 1;
    }
    let ghost d = v@.subrange(start as int, hi as int);
    assert(unsigned_digits(s) =~= d);
    if start == hi {
        return None;
    }
    let mut acc: u64 = 0;
    let mut i = start;
    while i < hi
        invariant
            lo <= start <= i <= hi <= v.len(),
            d == v@.subrange(start as int, hi as int),
            s == v@.subrange(lo as int, hi as int),
            unsigned_digits(s) == d,
            all_digits(d.take(i - start)),
            acc as nat == digits_value(d.take(i - start)),
        decreases hi - i,
    {
        let c = v[i];
        let u = c as u32;
        if u < 48 || u > 57 {
            assert(d[i - start] == c);
            assert(!all_digits(d));
            return None;
        }
        let dv = (u - 48) as u64;
        proof {
            assert(d.take(i - start + 1).drop_last() =~= d.take(i - start));
            assert(d.take(i - start + 1).last() == c);
        }
        match acc.checked_mul(10) {
            Some(m) => match m.checked_add(dv) {
                Some(n) => {
                    acc = n;
                },
                None => {
                    proof {
                        lemma_overflow_is_none(s, d, i - start + 1);
                    }
                    return None;
                },
            },
            None => {
                proof {
                    lemma_overflow_is_none(s, d, i - start + 1);
                }
                return None;
            },
        }
        proof {
            assert forall|j: int| 0 <= j < i - start + 1 implies is_digit(
                #[trigger] d.take(i - start + 1)[j],
            ) by {
                if j < i - start {
                    assert(d.take(i - start + 1)[j] == d.take(i - start)[j]);
                }
            }
        }
        i = i + 1;
    }
    assert(d.take(hi - start) =~= d);
    Some(acc)
}

/// A prefix of the digits that already exceeds `u64::MAX` leaves no `u64` to read.
proof fn lemma_overflow_is_none(s: Seq<char>, d: Seq<char>, n: int)
    requires
        unsigned_digits(s) == d,
        0 < n <= d.len(),
        digits_value(d.take(n)) > u64::MAX,
    ensures
        parse_u64(s) is None,
{
    if all_digits(d) {
        lemma_digits_value_prefix(d, n);
    }
}

/// `parse_u32` of `v[lo..hi]`.
pub fn parse_u32_range(v: &Vec<char>, lo: usize, hi: usize) -> (r: Option<u32>)
    requires
        lo <= hi <= v.len(),
    ensures
        r == parse_u32(v@.subrange(lo as int, hi as int)),
{
    match parse_u64_range(v, lo, hi) {
        Some(n) => {
            if n <= 0xffff_ffff {
                Some(n as u32)
            } else {
                None
            }
        },
        None => {
            let ghost s = v@.subrange(lo as int, hi as int);
            proof {
                if parse_unsigned(s) is Some {
                    assert(parse_unsigned(s).unwrap() > u64::MAX);
                }
            }
            None
        },
    }
}

} // verus!
