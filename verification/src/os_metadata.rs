//! Recognizing filenames of operating-system metadata entries (macOS
//! resource forks, Finder and Explorer droppings) so that a rebuild can
//! omit them.

use vstd::prelude::*;

verus! {

use vstd::utf8::encode_utf8;

/// ASCII lower-casing of one byte; bytes outside `A`..`Z` are unchanged.
pub open spec fn spec_ascii_lower_byte(b: u8) -> u8 {
    if 0x41 <= b <= 0x5A {
        (b + 0x20) as u8
    } else {
        b
    }
}

/// ASCII lower-casing of a byte sequence.
pub open spec fn spec_ascii_lower(s: Seq<u8>) -> Seq<u8> {
    s.map_values(|b: u8| spec_ascii_lower_byte(b))
}

/// Whether `s` starts with `p`.
pub open spec fn spec_starts_with(s: Seq<u8>, p: Seq<u8>) -> bool {
    p.len() <= s.len() && s.subrange(0, p.len() as int) == p
}

/// Whether `s` ends with `p`.
pub open spec fn spec_ends_with(s: Seq<u8>, p: Seq<u8>) -> bool {
    p.len() <= s.len() && s.subrange(s.len() - p.len(), s.len() as int) == p
}

/// Whether `p` occurs anywhere in `s`.
pub open spec fn spec_contains_seq(s: Seq<u8>, p: Seq<u8>) -> bool {
    exists|k: int| 0 <= k && k + p.len() <= s.len() && #[trigger] s.subrange(k, k + p.len()) == p
}

/// Whether an ASCII-lowercased filename names an operating-system
/// metadata entry: anything under a `__MACOSX` directory, a `.DS_Store`
/// file or directory, or a `Thumbs.db` or `desktop.ini` file.
pub open spec fn spec_is_os_metadata(lower: Seq<u8>) -> bool {
    ||| spec_starts_with(lower, encode_utf8("__macosx/"@))
    ||| spec_contains_seq(lower, encode_utf8("/__macosx/"@))
    ||| lower == encode_utf8(".ds_store"@)
    ||| spec_starts_with(lower, encode_utf8(".ds_store/"@))
    ||| spec_ends_with(lower, encode_utf8("/.ds_store"@))
    ||| spec_contains_seq(lower, encode_utf8("/.ds_store/"@))
    ||| lower == encode_utf8("thumbs.db"@)
    ||| spec_ends_with(lower, encode_utf8("/thumbs.db"@))
    ||| lower == encode_utf8("desktop.ini"@)
    ||| spec_ends_with(lower, encode_utf8("/desktop.ini"@))
}

/// ASCII lower-casing of a byte slice.
#[verifier::loop_isolation(false)]
fn ascii_lower_bytes(s: &[u8]) -> (r: Vec<u8>)
    ensures
        r@ == spec_ascii_lower(s@),
{
    let mut out: Vec<u8> = Vec::new();
    let n = s.len();
    for i in 0..n
        invariant
            out@.len() == i,
            forall|j: int| 0 <= j < i ==> out@[j] == spec_ascii_lower_byte(s@[j]),
    {
        let b = s[i];
        if 0x41 <= b && b <= 0x5A {
            out.push(b + 0x20);
        } else {
            out.push(b);
        }
    }
    proof {
        assert(out@ =~= spec_ascii_lower(s@));
    }
    out
}

/// Whether the bytes of `s` starting at `k` equal `p`.
#[verifier::loop_isolation(false)]
fn matches_at(s: &[u8], p: &[u8], k: usize) -> (r: bool)
    requires
        k + p@.len() <= s@.len(),
    ensures
        r == (s@.subrange(k as int, k + p@.len()) == p@),
{
    let total = s.len();
    let m = p.len();
    proof {
        assert(total == s@.len());
    }
    for i in 0..m
        invariant
            forall|j: int| 0 <= j < i ==> s@[k + j] == p@[j],
    {
        if s[k + i] != p[i] {
            proof {
                assert(s@.subrange(k as int, k + p@.len())[i as int] == s@[k + i]);
            }
            return false;
        }
    }
    proof {
        assert(s@.subrange(k as int, k + p@.len()) =~= p@);
    }
    true
}

/// Whether `s` starts with `p`.
fn starts_with_bytes(s: &[u8], p: &[u8]) -> (r: bool)
    ensures
        r == spec_starts_with(s@, p@),
{
    if p.len() > s.len() {
        return false;
    }
    matches_at(s, p, 0)
}

/// Whether `s` ends with `p`.
fn ends_with_bytes(s: &[u8], p: &[u8]) -> (r: bool)
    ensures
        r == spec_ends_with(s@, p@),
{
    if p.len() > s.len() {
        return false;
    }
    matches_at(s, p, s.len() - p.len())
}

/// Whether the two byte slices are equal.
fn eq_bytes(s: &[u8], p: &[u8]) -> (r: bool)
    ensures
        r == (s@ == p@),
{
    if p.len() != s.len() {
        proof {
            assert(s@.len() != p@.len());
        }
        return false;
    }
    let r = matches_at(s, p, 0);
    proof {
        assert(s@.subrange(0, p@.len() as int) =~= s@);
    }
    r
}

/// Whether `p` occurs anywhere in `s`.
#[verifier::loop_isolation(false)]
fn contains_bytes(s: &[u8], p: &[u8]) -> (r: bool)
    ensures
        r == spec_contains_seq(s@, p@),
{
    if p.len() > s.len() {
        return false;
    }
    let last = s.len() - p.len();
    let mut k: usize = 0;
    loop
        invariant
            k <= last,
            forall|j: int| 0 <= j < k ==> #[trigger] s@.subrange(j, j + p@.len()) != p@,
        decreases last - k,
    {
        if matches_at(s, p, k) {
            proof {
                assert(spec_contains_seq(s@, p@));
            }
            return true;
        }
        if k == last {
            proof {
                assert(forall|j: int|
                    0 <= j && j + p@.len() <= s@.len() ==> #[trigger] s@.subrange(j, j + p@.len())
                        != p@);
            }
            return false;
        }
        k = k + 1;
    }
}

/// Whether a decoded filename names an operating-system metadata entry
/// (a `__MACOSX` directory, `.DS_Store`, `Thumbs.db` or `desktop.ini`),
/// compared after ASCII lower-casing of its UTF-8 bytes.
pub fn is_os_metadata_file(filename: &str) -> (r: bool)
    ensures
        r == spec_is_os_metadata(spec_ascii_lower(encode_utf8(filename@))),
{
    let lower_vec = ascii_lower_bytes(filename.as_bytes());
    let lower = lower_vec.as_slice();
    if starts_with_bytes(lower, "__macosx/".as_bytes()) {
        return true;
    }
    if contains_bytes(lower, "/__macosx/".as_bytes()) {
        return true;
    }
    if eq_bytes(lower, ".ds_store".as_bytes()) {
        return true;
    }
    if starts_with_bytes(lower, ".ds_store/".as_bytes()) {
        return true;
    }
    if ends_with_bytes(lower, "/.ds_store".as_bytes()) {
        return true;
    }
    if contains_bytes(lower, "/.ds_store/".as_bytes()) {
        return true;
    }
    if eq_bytes(lower, "thumbs.db".as_bytes()) {
        return true;
    }
    if ends_with_bytes(lower, "/thumbs.db".as_bytes()) {
        return true;
    }
    if eq_bytes(lower, "desktop.ini".as_bytes()) {
        return true;
    }
    if ends_with_bytes(lower, "/desktop.ini".as_bytes()) {
        return true;
    }
    false
}

} // verus!
