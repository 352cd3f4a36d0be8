//! Counting generated tokens in streamed completions: the server-sent-event framing of the
//! chat endpoint and the `data:` lines of the completion endpoint.
use vstd::prelude::*;
use vstd::utf8::{decode_utf8, valid_utf8};
use crate::text::{
    chars_of, has_prefix, lemma_lines_step, line_end, lines, starts_with, strip_cr, trim,
    trim_range,
};

verus! {

/// The text that `String::from_utf8_lossy` makes of `bytes`.
pub uninterp spec fn utf8_lossy(bytes: Seq<u8>) -> Seq<char>;

/// `String::from_utf8_lossy`: the text of `bytes`, each invalid sequence replaced by
/// U+FFFD. Stated: the result is `utf8_lossy(bytes)`, and for valid UTF-8 it is the decoded
/// text (the documentation says valid input is returned as is). How invalid sequences are
/// replaced is left unsaid.
#[verifier::external_body]
fn decode_lossy(bytes: &[u8]) -> (s: String)
    ensures
        s@ == utf8_lossy(bytes@),
        valid_utf8(bytes@) ==> s@ == decode_utf8(bytes@),
{
    String::from_utf8_lossy(bytes).into_owned()
}

/// Position of the first blank line (`"\n\n"`) in `b`, or `b.len()` if there is none.
pub open spec fn blank_pos(b: Seq<u8>) -> nat
    decreases b.len(),
{
    if b.len() < 2 {
        b.len()
    } else if b[0] == 10 && b[1] == 10 {
        0
    } else {
        1 + blank_pos(b.drop_first())
    }
}

/// `blank_pos` points at the first blank line, or is the length when there is none.
pub proof fn lemma_blank_pos(b: Seq<u8>)
    ensures
        blank_pos(b) <= b.len(),
        blank_pos(b) < b.len() ==> blank_pos(b) + 1 < b.len() && b[blank_pos(b) as int] == 10
            && b[blank_pos(b) + 1int] == 10,
        forall|i: int|
            0 <= i < blank_pos(b) && i + 1 < b.len() ==> !(#[trigger] b[i] == 10 && b[i + 1] == 10),
    decreases b.len(),
{
    if b.len() >= 2 && !(b[0] == 10 && b[1] == 10) {
        let t = b.drop_first();
        lemma_blank_pos(t);
        assert forall|i: int|
            0 <= i < blank_pos(b) && i + 1 < b.len() implies !(#[trigger] b[i] == 10 && b[i + 1]
            == 10) by {
            if i > 0 {
                assert(b[i] == t[i - 1] && b[i + 1] == t[i]);
            }
        }
        if blank_pos(b) < b.len() {
            assert(b[blank_pos(b) as int] == t[blank_pos(t) as int]);
            assert(b[blank_pos(b) + 1int] == t[blank_pos(t) + 1int]);
        }
    }
}

/// `blank_pos` is fixed by the position of the first blank line.
pub proof fn lemma_blank_pos_at(b: Seq<u8>, k: int)
    requires
        0 <= k <= b.len(),
        forall|i: int| 0 <= i < k && i + 1 < b.len() ==> !(#[trigger] b[i] == 10 && b[i + 1] == 10),
        k < b.len() ==> k + 1 < b.len() && b[k] == 10 && b[k + 1] == 10,
    ensures
        blank_pos(b) == k,
    decreases b.len(),
{
    lemma_blank_pos(b);
    if blank_pos(b) < k {
        let p = blank_pos(b) as int;
        assert(!(b[p] == 10 && b[p + 1] == 10));
    }
    if k < blank_pos(b) {
        assert(!(b[k] == 10 && b[k + 1] == 10));
    }
}

/// The complete frames of `b` (each up to and with its blank line) and the rest.
pub open spec fn split_frames(b: Seq<u8>) -> (Seq<Seq<u8>>, Seq<u8>)
    decreases b.len(),
{
    let p = blank_pos(b) as int;
    proof {
        lemma_blank_pos(b);
    }
    if p < b.len() {
        let r = split_frames(b.skip(p + 2));
        (seq![b.take(p + 2)] + r.0, r.1)
    } else {
        (seq![], b)
    }
}

/// The frames found in the first `x` bytes come first among those of `x + y`: framing does
/// not depend on where the bytes were cut.
pub proof fn lemma_split_frames_append(x: Seq<u8>, y: Seq<u8>)
    ensures
        split_frames(x + y).0 == split_frames(x).0 + split_frames(split_frames(x).1 + y).0,
        split_frames(x + y).1 == split_frames(split_frames(x).1 + y).1,
    decreases x.len(),
{
    lemma_blank_pos(x);
    let p = blank_pos(x) as int;
    if p < x.len() {
        let xy = x + y;
        assert forall|i: int|
            0 <= i < p && i + 1 < xy.len() implies !(#[trigger] xy[i] == 10 && xy[i + 1] == 10) by {
            assert(xy[i] == x[i] && xy[i + 1] == x[i + 1]);
        }
        assert(xy[p] == x[p] && xy[p + 1] == x[p + 1]);
        lemma_blank_pos_at(xy, p);
        assert(xy.skip(p + 2) =~= x.skip(p + 2) + y);
        assert(xy.take(p + 2) =~= x.take(p + 2));
        lemma_split_frames_append(x.skip(p + 2), y);
        let r = split_frames(x.skip(p + 2));
        assert(split_frames(x + y).0 =~= seq![x.take(p + 2)] + split_frames(x.skip(p + 2) + y).0);
        assert(split_frames(x).0 + split_frames(split_frames(x).1 + y).0 =~= seq![x.take(p + 2)]
            + (r.0 + split_frames(r.1 + y).0));
    } else {
        assert(split_frames(x).1 == x);
        assert(split_frames(x).0 + split_frames(x + y).0 =~= split_frames(x + y).0);
    }
}

/// A line that carries a streamed token: trimmed, it starts with `data: ` and is not the
/// `data: [DONE]` marker.
pub open spec fn is_token_line(l: Seq<char>) -> bool {
    starts_with(trim(l), "data: "@) && !starts_with(trim(l), "data: [DONE]"@)
}

/// The number of token lines among `ls`.
pub open spec fn token_lines(ls: Seq<Seq<char>>) -> nat
    decreases ls.len(),
{
    if ls.len() == 0 {
        0
    } else {
        (if is_token_line(ls[0]) {
            1nat
        } else {
            0nat
        }) + token_lines(ls.drop_first())
    }
}

/// Token lines add up over concatenated line lists, and a single line counts once exactly
/// when, trimmed, it starts with `data: ` and is not `data: [DONE]`.
pub proof fn lemma_token_lines_additive(a: Seq<Seq<char>>, b: Seq<Seq<char>>, l: Seq<char>)
    ensures
        token_lines(a + b) == token_lines(a) + token_lines(b),
        token_lines(seq![l]) == (if starts_with(trim(l), "data: "@) && !starts_with(
            trim(l),
            "data: [DONE]"@,
        ) {
            1nat
        } else {
            0nat
        }),
    decreases a.len(),
{
    assert(seq![l].drop_first() =~= Seq::<Seq<char>>::empty());
    assert(seq![l][0] == l);
    assert(token_lines(Seq::<Seq<char>>::empty()) == 0);
    assert(token_lines(seq![l]) == (if is_token_line(l) { 1nat } else { 0nat }) + token_lines(
        Seq::<Seq<char>>::empty(),
    ));
    if a.len() > 0 {
        lemma_token_lines_additive(a.drop_first(), b, l);
        assert((a + b).drop_first() =~= a.drop_first() + b);
        assert((a + b)[0] == a[0]);
    } else {
        assert(a + b =~= b);
    }
}

/// The number of streamed tokens that one server-sent-event frame carries.
pub open spec fn data_events(text: Seq<char>) -> nat {
    token_lines(lines(text))
}

/// Reassembles a server-sent-event stream that arrives in arbitrary pieces.
pub struct SseFramer {
    pending: Vec<u8>,
}

impl SseFramer {
    /// The bytes received that do not yet end a frame.
    pub closed spec fn pending_bytes(&self) -> Seq<u8> {
        self.pending@
    }

    /// A framer that has received nothing.
    pub fn new() -> (f: Self)
        ensures
            f.pending_bytes() == Seq::<u8>::empty(),
    {
        SseFramer { pending: Vec::new() }
    }

    /// Takes the next piece of the stream and returns, in order, the text of every frame that
    /// it completes (a frame of valid UTF-8 is its decoded text); the bytes after the last
    /// blank line wait for the next piece.
    pub fn push_chunk(&mut self, chunk: &[u8]) -> (frames: Vec<String>)
        ensures
            frames@.map_values(|f: String| f@) == split_frames(
                old(self).pending_bytes() + chunk@,
            ).0.map_values(|b: Seq<u8>| utf8_lossy(b)),
            final(self).pending_bytes() == split_frames(old(self).pending_bytes() + chunk@).1,
            forall|i: int|
                0 <= i < frames.len() && valid_utf8(
                    #[trigger] split_frames(old(self).pending_bytes() + chunk@).0[i],
                ) ==> frames@[i]@ == decode_utf8(
                    split_frames(old(self).pending_bytes() + chunk@).0[i],
                ),
    {
        let mut buf: Vec<u8> = Vec::new();
        buf.append(&mut self.pending);
        let mut j: usize = 0;
        while j < chunk.len()
            invariant
                j <= chunk.len(),
                buf@ == old(self).pending@ + chunk@.take(j as int),
            decreases chunk.len() - j,
        {
            buf.push(chunk[j]);
            assert(old(self).pending@ + chunk@.take(j + 1) =~= (old(self).pending@ + chunk@.take(
                j as int,
            )).push(chunk@[j as int]));
            j = j + 1;
        }
        assert(chunk@.take(chunk@.len() as int) =~= chunk@);
        let ghost all = buf@;
        let mut frames: Vec<String> = Vec::new();
        let mut start: usize = 0;
        let mut finished = false;
        let ghost mut fb: Seq<Seq<u8>> = seq![];
        assert(all.skip(0) =~= all);
        while start < buf.len() && !finished
            invariant
                finished ==> blank_pos(all.skip(start as int)) == all.skip(start as int).len(),
                buf@ == all,
                all == old(self).pending@ + chunk@,
                start <= buf.len(),
                frames@.map_values(|f: String| f@) + split_frames(all.skip(start as int)).0.map_values(
                    |b: Seq<u8>| utf8_lossy(b),
                ) == split_frames(all).0.map_values(|b: Seq<u8>| utf8_lossy(b)),
                split_frames(all.skip(start as int)).1 == split_frames(all).1,
                fb + split_frames(all.skip(start as int)).0 == split_frames(all).0,
                fb.len() == frames.len(),
                forall|i: int|
                    0 <= i < fb.len() && valid_utf8(#[trigger] fb[i]) ==> frames@[i]@ == decode_utf8(
                        fb[i],
                    ),
            decreases buf.len() - start + (if finished {
                0int
            } else {
                1int
            }),
        {
            let ghost rest = all.skip(start as int);
            let k = find_blank(&buf, start);
            proof {
                lemma_blank_pos(rest);
            }
            if k == buf.len() {
                finished = true;
                continue;
            }
            let mut frame: Vec<u8> = Vec::new();
            let mut i = start;
            while i < k + 2
                invariant
                    start <= i <= k + 2 <= buf.len(),
                    frame@ == buf@.subrange(start as int, i as int),
                decreases k + 2 - i,
            {
                frame.push(buf[i]);
                assert(buf@.subrange(start as int, i + 1) =~= buf@.subrange(start as int, i as int).push(
                    buf@[i as int],
                ));
                i = i + 1;
            }
            let text = decode_lossy(frame.as_slice());
            let ghost before = frames@.map_values(|f: String| f@);
            frames.push(text);
            proof {
                let p = blank_pos(rest) as int;
                assert(p == k - start);
                assert(rest.take(p + 2) =~= frame@);
                assert(rest.skip(p + 2) =~= all.skip(k + 2));
                let r = split_frames(all.skip(k + 2));
                assert(split_frames(rest).0 == seq![frame@] + r.0);
                assert(frames@.map_values(|f: String| f@) =~= before.push(utf8_lossy(frame@)));
                assert((seq![frame@] + r.0).map_values(|b: Seq<u8>| utf8_lossy(b)) =~= seq![
                    utf8_lossy(frame@),
                ] + r.0.map_values(|b: Seq<u8>| utf8_lossy(b)));
                assert(before.push(utf8_lossy(frame@)) + r.0.map_values(|b: Seq<u8>| utf8_lossy(b))
                    =~= before + (seq![utf8_lossy(frame@)] + r.0.map_values(
                    |b: Seq<u8>| utf8_lossy(b),
                )));
                assert(fb.push(frame@) + r.0 =~= fb + (seq![frame@] + r.0));
                let fb0 = fb;
                fb = fb.push(frame@);
                assert forall|i: int|
                    0 <= i < fb.len() && valid_utf8(#[trigger] fb[i]) implies frames@[i]@
                    == decode_utf8(fb[i]) by {
                    if i < fb0.len() {
                        assert(fb[i] == fb0[i]);
                    }
                }
            }
            start = k + 2;
        }
        let ghost rest = all.skip(start as int);
        proof {
            lemma_blank_pos(rest);
            assert(split_frames(rest).0 =~= Seq::<Seq<u8>>::empty());
            assert(frames@.map_values(|f: String| f@) + Seq::<Seq<char>>::empty() =~= frames@.map_values(
                |f: String| f@,
            ));
            assert(split_frames(rest).0.map_values(|b: Seq<u8>| utf8_lossy(b)) =~= Seq::<
                Seq<char>,
            >::empty());
            assert(fb + Seq::<Seq<u8>>::empty() =~= fb);
            assert(fb == split_frames(all).0);
        }
        let mut pending: Vec<u8> = Vec::new();
        let mut i = start;
        while i < buf.len()
            invariant
                start <= i <= buf.len(),
                pending@ == buf@.subrange(start as int, i as int),
            decreases buf.len() - i,
        {
            pending.push(buf[i]);
            assert(buf@.subrange(start as int, i + 1) =~= buf@.subrange(start as int, i as int).push(
                buf@[i as int],
            ));
            i = i + 1;
        }
        assert(pending@ =~= rest);
        self.pending = pending;
        frames
    }
}

/// The position of the first `"\n\n"` in `b` at or after `start`, or `b.len()` if none.
fn find_blank(b: &Vec<u8>, start: usize) -> (k: usize)
    requires
        start <= b.len(),
    ensures
        start <= k <= b.len(),
        blank_pos(b@.skip(start as int)) == k - start,
{
    let mut k = start;
    while k < b.len() && k + 1 < b.len()
        invariant
            start <= k <= b.len(),
            forall|i: int| start <= i < k ==> !(#[trigger] b@[i] == 10 && b@[i + 1] == 10),
        decreases b.len() - k,
    {
        if b[k] == 10 && b[k + 1] == 10 {
            proof {
                let s = b@.skip(start as int);
                assert forall|i: int|
                    0 <= i < k - start && i + 1 < s.len() implies !(#[trigger] s[i] == 10 && s[i
                    + 1] == 10) by {
                    assert(s[i] == b@[start + i] && s[i + 1] == b@[start + i + 1]);
                }
                assert(s[k - start] == b@[k as int] && s[k - start + 1] == b@[k + 1]);
                lemma_blank_pos_at(s, k - start);
            }
            return k;
        }
        k = k + 1;
    }
    proof {
        let s = b@.skip(start as int);
        assert forall|i: int|
            0 <= i < s.len() && i + 1 < s.len() implies !(#[trigger] s[i] == 10 && s[i + 1]
            == 10) by {
            assert(s[i] == b@[start + i] && s[i + 1] == b@[start + i + 1]);
        }
        lemma_blank_pos_at(s, s.len() as int);
    }
    b.len()
}

/// The number of streamed tokens that a frame's text carries: its lines that, trimmed, start
/// with `data: ` and are not `data: [DONE]`.
pub fn count_data_events(frame: &str) -> (n: usize)
    ensures
        n == data_events(frame@),
{
    let prefix = chars_of("data: ");
    let done = chars_of("data: [DONE]");
    let v = chars_of(frame);
    let len = v.len();
    let mut count: usize = 0;
    let mut p: usize = 0;
    assert(v@.subrange(0, len as int) =~= frame@);
    while p < len
        invariant
            p <= len == v.len(),
            v@ == frame@,
            prefix@ == "data: "@,
            done@ == "data: [DONE]"@,
            count <= p,
            count + token_lines(lines(v@.subrange(p as int, len as int))) == data_events(frame@),
        decreases len - p,
    {
        let k = line_end(&v, p, len);
        proof {
            lemma_lines_step(v@, p as int, k as int, len as int);
        }
        let mut hi = k;
        if k < len && k > p && v[k - 1] == '\r' {
            hi = k - 1;
        }
        let ghost ls = lines(v@.subrange(p as int, len as int));
        proof {
            if k < len {
                assert(strip_cr(v@.subrange(p as int, k as int)) =~= v@.subrange(p as int, hi as int));
                assert(ls.drop_first() =~= lines(v@.subrange(k + 1, len as int)));
            } else {
                assert(v@.subrange(len as int, len as int) =~= Seq::<char>::empty());
                assert(ls.drop_first() =~= lines(v@.subrange(len as int, len as int)));
            }
        }
        let (a, b) = trim_range(&v, p, hi);
        if has_prefix(&v, a, b, &prefix) && !has_prefix(&v, a, b, &done) {
            count = count + 1;
        }
        p = if k < len {
            k + 1
        } else {
            len
        };
    }
    proof {
        assert(v@.subrange(len as int, len as int) =~= Seq::<char>::empty());
        assert(lines(Seq::<char>::empty()).len() == 0);
    }
    count
}

/// `s` without every leading copy of `p` (`str::trim_start_matches` with a string).
pub open spec fn strip_leading(s: Seq<char>, p: Seq<char>) -> Seq<char>
    decreases s.len(),
{
    if p.len() > 0 && starts_with(s, p) {
        strip_leading(s.skip(p.len() as int), p)
    } else {
        s
    }
}

/// The tokens that a chunk of a completion stream carries, counted line by line up to the
/// first `data:` line whose payload is `[DONE]`: each line that starts with `data:` counts
/// once.
pub open spec fn completion_tokens(ls: Seq<Seq<char>>) -> nat
    decreases ls.len(),
{
    if ls.len() == 0 {
        0
    } else if starts_with(ls[0], "data:"@) {
        if trim(strip_leading(ls[0], "data:"@)) == "[DONE]"@ {
            0
        } else {
            1 + completion_tokens(ls.drop_first())
        }
    } else {
        completion_tokens(ls.drop_first())
    }
}

/// The streamed tokens that a run of frames carries, over all of them.
pub open spec fn frames_events(fs: Seq<Seq<char>>) -> nat
    decreases fs.len(),
{
    if fs.len() == 0 {
        0
    } else {
        frames_events(fs.drop_last()) + data_events(fs.last())
    }
}

/// The first frames of a run carry no more tokens than the whole run.
pub proof fn lemma_frames_events_prefix(fs: Seq<Seq<char>>, i: int)
    requires
        0 <= i <= fs.len(),
    ensures
        frames_events(fs.take(i)) <= frames_events(fs),
    decreases fs.len(),
{
    if i < fs.len() {
        lemma_frames_events_prefix(fs.drop_last(), i);
        assert(fs.drop_last().take(i) =~= fs.take(i));
    } else {
        assert(fs.take(i) =~= fs);
    }
}

/// Frame tokens add up over concatenated runs of frames, and a single frame carries its
/// own data events.
pub proof fn lemma_frames_events_additive(a: Seq<Seq<char>>, b: Seq<Seq<char>>, f: Seq<char>)
    ensures
        frames_events(a + b) == frames_events(a) + frames_events(b),
        frames_events(seq![f]) == data_events(f),
    decreases b.len(),
{
    assert(seq![f].drop_last() =~= Seq::<Seq<char>>::empty());
    assert(seq![f].last() == f);
    assert(frames_events(Seq::<Seq<char>>::empty()) == 0);
    assert(frames_events(seq![f]) == frames_events(Seq::<Seq<char>>::empty()) + data_events(f));
    if b.len() > 0 {
        lemma_frames_events_additive(a, b.drop_last(), f);
        assert((a + b).drop_last() =~= a + b.drop_last());
        assert((a + b).last() == b.last());
    } else {
        assert(a + b =~= a);
    }
}

/// How a chunk's lines count toward the completion tokens: a line that does not start with
/// `data:` counts nothing, a `data:` line whose payload (after every leading `data:`, trimmed)
/// is `[DONE]` ends the count, and any other `data:` line counts one; the count never
/// exceeds the number of lines.
pub proof fn lemma_completion_tokens_step(l: Seq<char>, rest: Seq<Seq<char>>)
    ensures
        !starts_with(l, "data:"@) ==> completion_tokens(seq![l] + rest) == completion_tokens(rest),
        starts_with(l, "data:"@) && trim(strip_leading(l, "data:"@)) == "[DONE]"@
            ==> completion_tokens(seq![l] + rest) == 0,
        starts_with(l, "data:"@) && trim(strip_leading(l, "data:"@)) != "[DONE]"@
            ==> completion_tokens(seq![l] + rest) == 1 + completion_tokens(rest),
        completion_tokens(seq![l] + rest) <= 1 + rest.len(),
    decreases rest.len(),
{
    assert((seq![l] + rest).drop_first() =~= rest);
    assert((seq![l] + rest)[0] == l);
    if rest.len() > 0 {
        assert(seq![rest[0]] + rest.drop_first() =~= rest);
        lemma_completion_tokens_step(rest[0], rest.drop_first());
    } else {
        assert(completion_tokens(rest) == 0);
    }
}

/// The running token total of a stream after the frames of one more read: `total` plus the
/// tokens the frames carry, or `None` when that sum does not fit a `usize`.
pub fn add_frame_tokens(total: usize, frames: &Vec<String>) -> (r: Option<usize>)
    ensures
        r == (if total + frames_events(frames@.map_values(|f: String| f@)) <= usize::MAX {
            Some((total + frames_events(frames@.map_values(|f: String| f@))) as usize)
        } else {
            None
        }),
{
    let ghost fs = frames@.map_values(|f: String| f@);
    let mut acc = total;
    let mut i: usize = 0;
    while i < frames.len()
        invariant
            i <= frames.len(),
            fs == frames@.map_values(|f: String| f@),
            acc == total + frames_events(fs.take(i as int)),
        decreases frames.len() - i,
    {
        let n = count_data_events(frames[i].as_str());
        proof {
            assert(fs.take(i + 1).drop_last() =~= fs.take(i as int));
            assert(fs.take(i + 1).last() == frames@[i as int]@);
        }
        match acc.checked_add(n) {
            Some(a) => {
                acc = a;
            },
            None => {
                proof {
                    lemma_frames_events_prefix(fs, i + 1);
                }
                return None;
            },
        }
        i = i + 1;
    }
    assert(fs.take(frames.len() as int) =~= fs);
    Some(acc)
}

/// The number of tokens in one received chunk of a completion stream (its bytes read as
/// UTF-8 with invalid sequences replaced, so valid UTF-8 as it decodes): the `data:` lines
/// before a `[DONE]` payload.
pub fn count_completion_tokens(chunk: &[u8]) -> (n: usize)
    ensures
        n == completion_tokens(lines(utf8_lossy(chunk@))),
        valid_utf8(chunk@) ==> n == completion_tokens(lines(decode_utf8(chunk@))),
{
    let text = decode_lossy(chunk);
    let prefix = chars_of("data:");
    let done = chars_of("[DONE]");
    proof {
        reveal_strlit("data:");
    }
    let v = chars_of(text.as_str());
    let len = v.len();
    let mut count: usize = 0;
    let mut p: usize = 0;
    assert(v@.subrange(0, len as int) =~= text@);
    while p < len
        invariant
            p <= len == v.len(),
            v@ == text@,
            text@ == utf8_lossy(chunk@),
            valid_utf8(chunk@) ==> text@ == decode_utf8(chunk@),
            prefix@ == "data:"@,
            prefix@.len() == 5,
            done@ == "[DONE]"@,
            count <= p,
            count + completion_tokens(lines(v@.subrange(p as int, len as int))) == completion_tokens(
                lines(text@),
            ),
        decreases len - p,
    {
        let k = line_end(&v, p, len);
        proof {
            lemma_lines_step(v@, p as int, k as int, len as int);
        }
        let mut hi = k;
        if k < len && k > p && v[k - 1] == '\r' {
            hi = k - 1;
        }
        let ghost ls = lines(v@.subrange(p as int, len as int));
        let ghost line = v@.subrange(p as int, hi as int);
        proof {
            if k < len {
                assert(strip_cr(v@.subrange(p as int, k as int)) =~= line);
                assert(ls.drop_first() =~= lines(v@.subrange(k + 1, len as int)));
            } else {
                assert(v@.subrange(len as int, len as int) =~= Seq::<char>::empty());
                assert(ls.drop_first() =~= lines(v@.subrange(len as int, len as int)));
            }
        }
        if has_prefix(&v, p, hi, &prefix) {
            let mut q = p;
            while has_prefix(&v, q, hi, &prefix)
                invariant
                    p <= q <= hi <= len == v.len(),
                    prefix@ == "data:"@,
                    prefix@.len() == 5,
                    strip_leading(line, "data:"@) == strip_leading(v@.subrange(q as int, hi as int), "data:"@),
                decreases hi - q,
            {
                assert(v@.subrange(q as int, hi as int).skip(5) =~= v@.subrange(q + 5, hi as int));
                q = q + 5;
            }
            let (a, b) = trim_range(&v, q, hi);
            let data_is_done = has_prefix(&v, a, b, &done) && b - a == done.len();
            proof {
                let t = v@.subrange(a as int, b as int);
                if data_is_done {
                    assert(t =~= t.take(done@.len() as int));
                }
                if t == "[DONE]"@ {
                    assert(t.take(done@.len() as int) =~= t);
                }
                assert(data_is_done == (t == "[DONE]"@));
            }
            if data_is_done {
                proof {
                    assert(completion_tokens(lines(text@)) == count);
                }
                return count;
            }
            count = count + 1;
        }
        p = if k < len {
            k + 1
        } else {
            len
        };
    }
    proof {
        assert(v@.subrange(len as int, len as int) =~= Seq::<char>::empty());
        assert(lines(Seq::<char>::empty()).len() == 0);
    }
    count
}

} // verus!
