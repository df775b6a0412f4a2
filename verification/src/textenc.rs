//! Character-encoding support: UTF-8 validation, decoding under a labelled
//! legacy encoding, and encoding detection.
//!
//! The legacy-encoding work is done by the `encoding_rs` and `chardetng`
//! crates behind a small set of trusted wrappers; everything a wrapper
//! returns is a function of its arguments alone and is named by an
//! uninterpreted spec function, so the logic above can be verified against
//! exact contracts.

use vstd::prelude::*;

verus! {

use vstd::std_specs::iter::IteratorSpec;

/// Whether `encoding_rs` recognizes this label as the name of an encoding.
pub uninterp spec fn spec_label_known(label: Seq<char>) -> bool;

/// The characters produced by decoding `data` under the encoding labelled
/// `label`, in replacement mode (malformed sequences become U+FFFD).
pub uninterp spec fn spec_decoded_text(label: Seq<char>, data: Seq<u8>) -> Seq<char>;

/// Whether decoding `data` under the encoding labelled `label` met any
/// malformed sequence.
pub uninterp spec fn spec_decode_had_errors(label: Seq<char>, data: Seq<u8>) -> bool;

/// The canonical name of the encoding actually used when decoding `data`
/// under the encoding labelled `label` (BOM sniffing may pick another one).
pub uninterp spec fn spec_decode_used_name(label: Seq<char>, data: Seq<u8>) -> Seq<char>;

/// The canonical name of the encoding that the statistical detector guesses
/// for `data`.
pub uninterp spec fn spec_detector_guess(data: Seq<u8>) -> Seq<char>;

/// Relies on `encoding_rs::Encoding::for_label`: it returns `Some` exactly
/// when the label names an encoding of the Encoding Standard.
#[verifier::external_body]
pub fn encoding_label_known(label: &str) -> (r: bool)
    ensures
        r == spec_label_known(label@),
{
    encoding_rs::Encoding::for_label(label.as_bytes()).is_some()
}

/// Relies on `encoding_rs::Encoding::for_label` (`Some` exactly for known
/// labels), `Encoding::decode` (decode with BOM sniffing and replacement;
/// returns the text, the encoding actually used, and whether replacements
/// were made) and `Encoding::name` (the canonical name). All three are
/// deterministic in their arguments; "UTF-8" is a label of the UTF-8
/// encoding, so it is always recognized. Like any allocation, `decode`
/// aborts when the backing buffer for its output cannot be sized.
#[verifier::external_body]
pub fn decode_with_label(label: &str, data: &[u8]) -> (r: Option<(String, bool, String)>)
    ensures
        r is Some <==> spec_label_known(label@),
        label@ == "UTF-8"@ ==> r is Some,
        r matches Some(t) ==> {
            &&& t.0@ == spec_decoded_text(label@, data@)
            &&& t.1 == spec_decode_had_errors(label@, data@)
            &&& t.2@ == spec_decode_used_name(label@, data@)
        },
{
    match encoding_rs::Encoding::for_label(label.as_bytes()) {
        Some(enc) => {
            let (text, used, had_errors) = enc.decode(data);
            Some((text.into_owned(), had_errors, used.name().to_string()))
        },
        None => None,
    }
}

/// Relies on `chardetng::EncodingDetector` (`new`, `feed` with `last =
/// true`, `guess` with no top-level domain and UTF-8 allowed) and
/// `encoding_rs::Encoding::name`: the guess is a deterministic function of
/// the fed bytes.
#[verifier::external_body]
pub fn detector_guess(data: &[u8]) -> (r: String)
    ensures
        r@ == spec_detector_guess(data@),
{
    let mut detector = chardetng::EncodingDetector::new();
    detector.feed(data, true);
    detector.guess(None, true).name().to_string()
}

/// Relies on `core::str::from_utf8`: it returns `Ok` exactly on valid UTF-8
/// input, and the returned string consists of the decoded characters.
#[verifier::external_body]
pub fn utf8_to_string(data: &[u8]) -> (r: Option<String>)
    ensures
        r is Some <==> vstd::utf8::valid_utf8(data@),
        r matches Some(s) ==> s@ == vstd::utf8::decode_utf8(data@),
{
    match core::str::from_utf8(data) {
        Ok(s) => Some(s.to_string()),
        Err(_) => None,
    }
}

/// Relies on `alloc::string::String::push`: it appends the character.
#[verifier::external_body]
pub fn push_char(s: &mut String, c: char)
    ensures
        final(s)@ == old(s)@.push(c),
{
    s.push(c);
}

/// `s` with every occurrence of `from` replaced by `to`.
pub open spec fn spec_replace_char(s: Seq<char>, from: char, to: char) -> Seq<char> {
    s.map_values(|c: char| if c == from { to } else { c })
}

/// Replace every occurrence of the character `from` with `to`.
#[verifier::loop_isolation(false)]
pub fn replace_char(s: &str, from: char, to: char) -> (r: String)
    ensures
        r@ == spec_replace_char(s@, from, to),
{
    broadcast use vstd::string::group_string_axioms;

    let mut out = String::new();
    let mut it = s.chars();
    let ghost all = s@;
    let ghost mut done: int = 0;
    proof {
        assert(all.skip(0) =~= all);
        assert(out@ =~= spec_replace_char(all.take(0), from, to));
    }
    loop
        invariant
            0 <= done <= all.len(),
            it.remaining() == all.skip(done),
            out@ == spec_replace_char(all.take(done), from, to),
        decreases all.len() - done,
    {
        let ghost prev = it;
        let next = it.next();
        match next {
            Some(c) => {
                proof {
                    assert(prev.remaining().len() > 0) by {
                        if prev.remaining().len() == 0 {
                            assert(next is None);
                        }
                    }
                    assert(c == all.skip(done)[0]);
                    assert(all.skip(done)[0] == all[done]);
                }
                let c2 = if c == from {
                    to
                } else {
                    c
                };
                push_char(&mut out, c2);
                proof {
                    done = done + 1;
                    assert(prev.remaining().drop_first() =~= all.skip(done));
                    assert(all.take(done) =~= all.take(done - 1).push(all[done - 1]));
                    assert(out@ =~= spec_replace_char(all.take(done), from, to));
                }
            },
            None => {
                proof {
                    assert(all.skip(done).len() == 0);
                    assert(all.take(done) =~= all);
                }
                return out;
            },
        }
    }
}

/// Whether the string contains the character `c`.
#[verifier::loop_isolation(false)]
pub fn string_contains_char(s: &str, c: char) -> (r: bool)
    ensures
        r == s@.contains(c),
{
    broadcast use vstd::string::group_string_axioms;

    let mut it = s.chars();
    let ghost all = s@;
    let ghost mut done: int = 0;
    proof {
        assert(all.skip(0) =~= all);
    }
    loop
        invariant
            0 <= done <= all.len(),
            it.remaining() == all.skip(done),
            forall|i: int| 0 <= i < done ==> all[i] != c,
        decreases all.len() - done,
    {
        let ghost prev = it;
        let next = it.next();
        match next {
            Some(x) => {
                proof {
                    assert(prev.remaining().len() > 0) by {
                        if prev.remaining().len() == 0 {
                            assert(next is None);
                        }
                    }
                    assert(x == all.skip(done)[0]);
                    assert(all.skip(done)[0] == all[done]);
                }
                if x == c {
                    proof {
                        assert(all[done] == c);
                        assert(all.contains(c));
                    }
                    return true;
                }
                proof {
                    done = done + 1;
                    assert(prev.remaining().drop_first() =~= all.skip(done));
                }
            },
            None => {
                proof {
                    assert(all.skip(done).len() == 0);
                    assert(done == all.len());
                    assert(forall|i: int| 0 <= i < all.len() ==> all[i] != c);
                }
                return false;
            },
        }
    }
}

} // verus!
