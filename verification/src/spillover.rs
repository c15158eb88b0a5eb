//! SHA-256-addressed spill files for large tool results.

use vstd::prelude::*;
use crate::text;

verus! {

/// Name of the spillover directory under the home directory.
pub const SPILLOVER_DIR_NAME: &'static str = "tool_outputs";

pub open spec fn is_lower_hex(c: char) -> bool {
    text::is_ascii_hex(c) && !text::is_ascii_upper(c)
}

/// A raw SHA-256 digest: 64 lowercase hexadecimal digits.
pub open spec fn valid_sha256(s: Seq<char>) -> bool {
    s.len() == 64 && forall|i: int| 0 <= i < s.len() ==> is_lower_hex(#[trigger] s[i])
}

fn valid_sha256_chars(v: &Vec<char>) -> (r: bool)
    ensures
        r == valid_sha256(v@),
{
    if v.len() != 64 {
        return false;
    }
    let mut i: usize = 0;
    while i < 64
        invariant
            v@.len() == 64,
            i <= 64,
            forall|j: int| 0 <= j < i ==> is_lower_hex(#[trigger] v@[j]),
        decreases 64 - i,
    {
        let c = v[i];
        if !(('0' <= c && c <= '9') || ('a' <= c && c <= 'f')) {
            assert(!is_lower_hex(v@[i as int]));
            return false;
        }
        i = i + 1;
    }
    true
}

/// True when `s` is a 64-character lowercase ASCII hex string.
pub fn is_valid_sha256(s: &str) -> (r: bool)
    ensures
        r == valid_sha256(s@),
{
    let v = text::chars_of(s);
    valid_sha256_chars(&v)
}

/// The spill file name for a digest given in any ASCII case, with white space
/// around it allowed; `None` when it is not a SHA-256 digest.
pub open spec fn spill_file_of(sha: Seq<char>) -> Option<Seq<char>> {
    let d = text::lower(text::trim(sha));
    if valid_sha256(d) {
        Some("sha_"@ + d + ".txt"@)
    } else {
        None
    }
}

/// The spill file name (`sha_<digest>.txt`) inside the spillover directory.
pub fn sha_spillover_file(sha: &str) -> (r: Option<String>)
    ensures
        match r {
            Some(f) => spill_file_of(sha@) == Some(f@),
            None => spill_file_of(sha@) is None,
        },
{
    let v = text::chars_of(sha);
    let t = text::trim_vec(&v);
    let d = text::lower_vec(&t);
    if !valid_sha256_chars(&d) {
        return None;
    }
    let mut s = String::new();
    text::push_str(&mut s, "sha_");
    text::push_chars(&mut s, &d);
    text::push_str(&mut s, ".txt");
    assert(s@ =~= "sha_"@ + d@ + ".txt"@);
    Some(s)
}

/// Content addressing is stable: a digest names the same spill file however
/// it is cased or padded, and a digest already in canonical form names the
/// file with that very digest.
pub proof fn lemma_spill_file_canonical(sha: Seq<char>)
    ensures
        spill_file_of(sha) == spill_file_of(text::lower(text::trim(sha))),
        valid_sha256(sha) ==> spill_file_of(sha) == Some("sha_"@ + sha + ".txt"@),
{
    let d = text::lower(text::trim(sha));
    text::lemma_trim_lower_trim(sha);
    text::lemma_lower_idempotent(text::trim(sha));
    if valid_sha256(sha) {
        assert(is_lower_hex(sha[0]) && is_lower_hex(sha[63]));
        assert(!text::is_ws(sha[0]) && !text::is_ws(sha.last()));
        text::lemma_trim_fixed(sha);
        assert forall|i: int| 0 <= i < sha.len() implies text::lower(sha)[i] == sha[i] by {
            assert(is_lower_hex(sha[i]));
        }
        assert(text::lower(sha) =~= sha);
    }
}


#[verifier::external_type_specification]
#[verifier::external_body]
pub struct ExPathBuf(std::path::PathBuf);

/// `Path::join`: nothing is stated of the joined path (it depends on the
/// platform's separator rules).
#[verifier::external_body]
fn join_path(root: &std::path::PathBuf, name: &str) -> (r: std::path::PathBuf) {
    root.join(name)
}

/// The spill file of a digest inside `root` (the spillover directory, when
/// one could be resolved); `None` without a root or for an invalid digest.
pub fn sha_spillover_path(sha: &str, root: Option<std::path::PathBuf>) -> (r: Option<std::path::PathBuf>)
    ensures
        r is Some <==> (root is Some && spill_file_of(sha@) is Some),
{
    match sha_spillover_file(sha) {
        Some(f) => match root {
            Some(dir) => Some(join_path(&dir, f.as_str())),
            None => None,
        },
        None => None,
    }
}

} // verus!
