//! Provenance of a canonical benchmark run: the shared prefix that branches fork from, the
//! `SHA256SUMS` file over the artifacts, and the revisions the run was built from.
use sha2::Digest;
use vstd::prelude::*;
use crate::system::command_text_or;
use crate::text::trim;

verus! {

/// The SHA-256 digest of `data`.
pub uninterp spec fn sha256(data: Seq<u8>) -> Seq<u8>;

/// `sha2::Sha256::digest`: the SHA-256 digest of `data`. Stated: the result is
/// `sha256(data)` and has 32 bytes (the output size of `Sha256`); what the digest is, is left
/// to the name.
#[verifier::external_body]
fn sha256_digest(data: &[u8]) -> (d: Vec<u8>)
    ensures
        d@ == sha256(data@),
        d@.len() == 32,
{
    sha2::Sha256::digest(data).to_vec()
}

/// The items of the JSON array under `key` in the JSON object that `content` holds, each as
/// a `u64` where it is one.
pub uninterp spec fn json_u64_array_field(content: Seq<char>, key: Seq<char>) -> Option<Seq<Option<u64>>>;

/// Parses `content` as a `serde_json::Value` and reads the array under `key`: `None` when the
/// text is no JSON, the value has no such field or the field is no array; otherwise each
/// item as `Value::as_u64` gives it. What JSON text parses to what is left to the name.
#[verifier::external_body]
fn json_array_field_u64s(content: &str, key: &str) -> (r: Option<Vec<Option<u64>>>)
    ensures
        match r {
            Some(v) => json_u64_array_field(content@, key@) == Some(v@),
            None => json_u64_array_field(content@, key@) is None,
        },
{
    let value: serde_json::Value = serde_json::from_str(content).ok()?;
    let items = value.get(key)?.as_array()?;
    let mut out = Vec::with_capacity(items.len());
    for item in items {
        out.push(item.as_u64());
    }
    Some(out)
}

/// The number of tokens in the shared prefix of the branch benchmark.
pub const PREFIX_TOKENS: usize = 32768;

/// The items that are `u64`s, each cut to its low 32 bits, in order.
pub open spec fn kept_tokens(items: Seq<Option<u64>>) -> Seq<u32>
    decreases items.len(),
{
    if items.len() == 0 {
        seq![]
    } else {
        let r = kept_tokens(items.drop_last());
        match items.last() {
            Some(v) => r.push(v as u32),
            None => r,
        }
    }
}

/// The synthetic prefix: token `i` is `i % 31000 + 100`.
pub open spec fn synthetic_prefix() -> Seq<u32> {
    Seq::new(32768, |i: int| ((i % 31000) + 100) as u32)
}

/// The prefix of a manifest (its text, when it could be read): the `prefix_token_ids` it
/// lists when they are exactly 32768 numbers, else the synthetic prefix.
pub open spec fn prefix_of(manifest: Option<Seq<char>>) -> Seq<u32> {
    match manifest {
        Some(c) => match json_u64_array_field(c, "prefix_token_ids"@) {
            Some(items) => if kept_tokens(items).len() == 32768 {
                kept_tokens(items)
            } else {
                synthetic_prefix()
            },
            None => synthetic_prefix(),
        },
        None => synthetic_prefix(),
    }
}

/// The 32K-token shared prefix from the text of the branching manifest, when it could be
/// read; it always has exactly 32768 tokens.
pub fn load_32k_prefix(manifest: Option<&str>) -> (tokens: Vec<u32>)
    ensures
        tokens@ == prefix_of(
            match manifest {
                Some(c) => Some(c@),
                None => None,
            },
        ),
        tokens@.len() == PREFIX_TOKENS,
{
    match manifest {
        Some(c) => match json_array_field_u64s(c, "prefix_token_ids") {
            Some(items) => {
                let tokens = keep_u64_tokens(&items);
                if tokens.len() == PREFIX_TOKENS {
                    return tokens;
                }
            },
            None => {},
        },
        None => {},
    }
    synthetic_prefix_tokens()
}

fn keep_u64_tokens(items: &Vec<Option<u64>>) -> (r: Vec<u32>)
    ensures
        r@ == kept_tokens(items@),
{
    let mut r: Vec<u32> = Vec::new();
    let mut i: usize = 0;
    while i < items.len()
        invariant
            i <= items.len(),
            r@ == kept_tokens(items@.take(i as int)),
        decreases items.len() - i,
    {
        assert(items@.take(i + 1).drop_last() =~= items@.take(i as int));
        match items[i] {
            Some(v) => {
                r.push(v as u32);
            },
            None => {},
        }
        i = i + 1;
    }
    assert(items@.take(items@.len() as int) =~= items@);
    r
}

/// The synthetic 32K-token prefix.
pub fn synthetic_prefix_tokens() -> (r: Vec<u32>)
    ensures
        r@ == synthetic_prefix(),
        r@.len() == PREFIX_TOKENS,
        forall|i: int| 0 <= i < r@.len() ==> 100 <= #[trigger] r@[i] < 31100,
{
    let mut r: Vec<u32> = Vec::new();
    let mut i: u32 = 0;
    while i < 32768
        invariant
            i <= 32768,
            r@.len() == i,
            forall|j: int| 0 <= j < i ==> #[trigger] r@[j] == ((j % 31000) + 100) as u32,
        decreases 32768 - i,
    {
        r.push(i % 31000 + 100);
        i = i + 1;
    }
    assert(r@ =~= synthetic_prefix());
    r
}

/// The lowercase hexadecimal digit for `d < 16`.
pub open spec fn hex_digit(d: nat) -> char {
    if d < 10 {
        ((d + 48) as u32) as char
    } else {
        ((d + 87) as u32) as char
    }
}

/// `bytes` in lowercase hexadecimal, two digits per byte, high half first.
pub open spec fn hex_lower(bytes: Seq<u8>) -> Seq<char>
    decreases bytes.len(),
{
    if bytes.len() == 0 {
        seq![]
    } else {
        hex_lower(bytes.drop_last()) + seq![
            hex_digit((bytes.last() / 16) as nat),
            hex_digit((bytes.last() % 16) as nat),
        ]
    }
}

/// The hex text of `n` bytes has `2 * n` characters.
pub proof fn lemma_hex_lower_len(bytes: Seq<u8>)
    ensures
        hex_lower(bytes).len() == 2 * bytes.len(),
    decreases bytes.len(),
{
    if bytes.len() > 0 {
        lemma_hex_lower_len(bytes.drop_last());
    }
}

/// `hex_digit` is the digit at position `d` of `0123456789abcdef`.
pub proof fn lemma_hex_digit(d: nat)
    requires
        d < 16,
    ensures
        hex_digit(d) == "0123456789abcdef"@[d as int],
{
    reveal_strlit("0123456789abcdef");
}

/// Byte `i` of the data is written as characters `2i` and `2i + 1` of its hex text: the
/// digits of `0123456789abcdef` for its high and its low half.
pub proof fn lemma_hex_lower_digits(bytes: Seq<u8>)
    ensures
        hex_lower(bytes).len() == 2 * bytes.len(),
        forall|i: int|
            0 <= i < bytes.len() ==> hex_lower(bytes)[2 * i] == "0123456789abcdef"@[(#[trigger] bytes[i]
                / 16) as int] && hex_lower(bytes)[2 * i + 1] == "0123456789abcdef"@[(bytes[i] % 16) as int],
    decreases bytes.len(),
{
    lemma_hex_lower_len(bytes);
    if bytes.len() > 0 {
        let init = bytes.drop_last();
        lemma_hex_lower_digits(init);
        let x = bytes.last();
        lemma_hex_digit((x / 16) as nat);
        lemma_hex_digit((x % 16) as nat);
        assert forall|i: int| 0 <= i < bytes.len() implies hex_lower(bytes)[2 * i]
            == "0123456789abcdef"@[(#[trigger] bytes[i] / 16) as int] && hex_lower(bytes)[2 * i + 1]
            == "0123456789abcdef"@[(bytes[i] % 16) as int] by {
            if i < init.len() {
                assert(bytes[i] == init[i]);
                assert(hex_lower(bytes)[2 * i] == hex_lower(init)[2 * i]);
                assert(hex_lower(bytes)[2 * i + 1] == hex_lower(init)[2 * i + 1]);
            } else {
                assert(bytes[i] == x);
            }
        }
    }
}

/// The `SHA256SUMS` text has one line per artifact, in the order given: for no artifacts it
/// is empty, and one more artifact appends the hex digest of its bytes, two spaces, its name
/// and a line break.
pub proof fn lemma_sha256sums_lines(files: Seq<Artifact>, f: Artifact)
    ensures
        sha256sums_text(Seq::<Artifact>::empty()) == Seq::<char>::empty(),
        sha256sums_text(files.push(f)) == sha256sums_text(files) + hex_lower(sha256(f.bytes@))
            + "  "@ + f.name@ + "\n"@,
{
    assert(files.push(f).drop_last() =~= files);
    assert(files.push(f).last() == f);
}

fn hex_char(d: u8) -> (c: char)
    requires
        d < 16,
    ensures
        c == hex_digit(d as nat),
{
    if d < 10 {
        (d + 48) as char
    } else {
        (d + 87) as char
    }
}

/// Appends `bytes` in lowercase hexadecimal to `s`.
pub fn push_hex_lower(s: &mut String, bytes: &Vec<u8>)
    ensures
        final(s)@ == old(s)@ + hex_lower(bytes@),
{
    let mut i: usize = 0;
    while i < bytes.len()
        invariant
            i <= bytes.len(),
            s@ == old(s)@ + hex_lower(bytes@.take(i as int)),
        decreases bytes.len() - i,
    {
        let b = bytes[i];
        crate::text::push_char(s, hex_char(b / 16));
        crate::text::push_char(s, hex_char(b % 16));
        assert(bytes@.take(i + 1).drop_last() =~= bytes@.take(i as int));
        assert(s@ =~= old(s)@ + hex_lower(bytes@.take(i + 1)));
        i = i + 1;
    }
    assert(bytes@.take(bytes@.len() as int) =~= bytes@);
}

/// One artifact that a run wrote: its file name and its bytes.
pub struct Artifact {
    pub name: String,
    pub bytes: Vec<u8>,
}

/// The text of a `SHA256SUMS` file over `files`: one line per file, in order, holding the
/// file's digest in lowercase hex, two spaces and its name.
pub open spec fn sha256sums_text(files: Seq<Artifact>) -> Seq<char>
    decreases files.len(),
{
    if files.len() == 0 {
        seq![]
    } else {
        sha256sums_text(files.drop_last()) + hex_lower(sha256(files.last().bytes@)) + "  "@
            + files.last().name@ + "\n"@
    }
}

/// The `SHA256SUMS` file of the artifacts, in the order given.
pub fn sha256sums(files: &Vec<Artifact>) -> (text: String)
    ensures
        text@ == sha256sums_text(files@),
{
    let mut text = String::new();
    let mut i: usize = 0;
    while i < files.len()
        invariant
            i <= files.len(),
            text@ == sha256sums_text(files@.take(i as int)),
        decreases files.len() - i,
    {
        let f = &files[i];
        let digest = sha256_digest(f.bytes.as_slice());
        push_hex_lower(&mut text, &digest);
        text.append("  ");
        text.append(f.name.as_str());
        text.append("\n");
        assert(files@.take(i + 1).drop_last() =~= files@.take(i as int));
        assert(files@.take(i + 1).last() == files@[i as int]);
        i = i + 1;
    }
    assert(files@.take(files@.len() as int) =~= files@);
    text
}

/// The revision a repository is at, from the output of `git rev-parse HEAD` when it ran and
/// succeeded: that output trimmed, else `unknown`.
pub fn get_git_sha(output: Option<&str>) -> (sha: String)
    ensures
        sha@ == match output {
            Some(t) => trim(t@),
            None => "unknown"@,
        },
{
    command_text_or(output, "unknown")
}

/// The kernel description from the output of `uname -a` when it ran: that output trimmed,
/// else `unknown`.
pub fn read_uname(output: Option<&str>) -> (s: String)
    ensures
        s@ == match output {
            Some(t) => trim(t@),
            None => "unknown"@,
        },
{
    command_text_or(output, "unknown")
}

} // verus!
