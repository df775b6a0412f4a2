//! Classifying an archive by how its filename metadata will fare in
//! modern tools: Broken, AsciiOnly, Utf8Only or Other, with prevalence
//! statistics for the UTF-8 flag and the Unicode-path extra field.

use vstd::prelude::*;

use crate::parse::GeneralPurposeBitFlag;
use crate::parse::UnicodePathExtraField;
use crate::parse::UnicodePathExtraFieldV;
use crate::parse::ZipFile;
use crate::parse::ZipFileEntryV;
use crate::parse::ZipFileV;
use crate::parse::spec_is_utf8_flag;
use crate::textenc::utf8_to_string;

verus! {

use vstd::utf8::valid_utf8;

/// How uniformly a signal applies across an archive's entries, ordered
/// `None < Sometimes < AlwaysForNonAscii < Always`.
#[derive(Debug, Clone, Copy, PartialEq, Eq, PartialOrd, Ord)]
pub enum Prevalence {
    Never,
    Sometimes,
    AlwaysForNonAscii,
    Always,
}

/// Position of a prevalence value in the lattice order.
pub open spec fn prevalence_rank(p: Prevalence) -> int {
    match p {
        Prevalence::Never => 0,
        Prevalence::Sometimes => 1,
        Prevalence::AlwaysForNonAscii => 2,
        Prevalence::Always => 3,
    }
}

/// The smaller of two prevalence values in the lattice order.
pub open spec fn spec_prevalence_min(a: Prevalence, b: Prevalence) -> Prevalence {
    if prevalence_rank(a) <= prevalence_rank(b) {
        a
    } else {
        b
    }
}

/// The smaller of two prevalence values.
fn prevalence_min(a: Prevalence, b: Prevalence) -> (r: Prevalence)
    ensures
        r == spec_prevalence_min(a, b),
{
    let ra: u8 = match a {
        Prevalence::Never => 0,
        Prevalence::Sometimes => 1,
        Prevalence::AlwaysForNonAscii => 2,
        Prevalence::Always => 3,
    };
    let rb: u8 = match b {
        Prevalence::Never => 0,
        Prevalence::Sometimes => 1,
        Prevalence::AlwaysForNonAscii => 2,
        Prevalence::Always => 3,
    };
    if ra <= rb {
        a
    } else {
        b
    }
}

/// Compatibility classification of an archive.
#[derive(Debug, Clone, Copy, PartialEq, Eq)]
pub enum CompatibilityLevel {
    /// Some entry's filename metadata is self-contradictory: a UTF-8 flag
    /// on bytes that are not valid UTF-8, or a CRC-matched Unicode-path
    /// extra whose bytes do not decode.
    Broken,
    /// Every filename is ASCII.
    AsciiOnly { with_utf8_flags: Prevalence, with_unicode_path_fields: Prevalence },
    /// Every filename is valid UTF-8, some beyond ASCII.
    Utf8Only { with_utf8_flags: Prevalence, with_unicode_path_fields: Prevalence },
    /// Some filename is not valid UTF-8.
    Other { with_unicode_path_fields: Prevalence },
}

/// Classification of one filename's bytes.
#[derive(Debug, Clone, Copy, PartialEq, Eq)]
pub enum EncodingKind {
    Ascii,
    Utf8,
    Other,
}

/// Whether every byte is ASCII.
pub open spec fn spec_all_ascii(bytes: Seq<u8>) -> bool {
    forall|i: int| 0 <= i < bytes.len() ==> bytes[i] < 0x80
}

/// Classify filename bytes as ASCII, valid UTF-8 beyond ASCII, or other.
pub open spec fn spec_classify(bytes: Seq<u8>) -> EncodingKind {
    if valid_utf8(bytes) {
        if spec_all_ascii(bytes) {
            EncodingKind::Ascii
        } else {
            EncodingKind::Utf8
        }
    } else {
        EncodingKind::Other
    }
}

/// Whether every byte of the slice is ASCII.
#[verifier::loop_isolation(false)]
pub(crate) fn bytes_all_ascii(bytes: &[u8]) -> (r: bool)
    ensures
        r == spec_all_ascii(bytes@),
{
    let n = bytes.len();
    for i in 0..n
        invariant
            forall|j: int| 0 <= j < i ==> bytes@[j] < 0x80,
    {
        if bytes[i] >= 0x80 {
            return false;
        }
    }
    true
}

/// Classify filename bytes.
fn classify(bytes: &[u8]) -> (r: EncodingKind)
    ensures
        r == spec_classify(bytes@),
{
    match utf8_to_string(bytes) {
        Some(_) => {
            if bytes_all_ascii(bytes) {
                EncodingKind::Ascii
            } else {
                EncodingKind::Utf8
            }
        },
        None => EncodingKind::Other,
    }
}

/// Running state of the compatibility analysis.
#[derive(Debug, Clone, Copy, PartialEq, Eq)]
pub struct CompatState {
    pub has_broken: bool,
    pub all_ascii: bool,
    pub all_utf8: bool,
    pub utf8_prev: Prevalence,
    pub utf8_found: bool,
    pub up_prev: Prevalence,
    pub up_found: bool,
}

/// The state before any source has been visited.
pub open spec fn spec_compat_init() -> CompatState {
    CompatState {
        has_broken: false,
        all_ascii: true,
        all_utf8: true,
        utf8_prev: Prevalence::Always,
        utf8_found: false,
        up_prev: Prevalence::Always,
        up_found: false,
    }
}

/// Fold one filename source (a CDH or LFH) into the state: track whether
/// all filenames so far are ASCII or valid UTF-8; a UTF-8 flag on
/// non-UTF-8 bytes or a CRC-matched Unicode-path extra that does not
/// decode marks the archive broken; otherwise each signal's prevalence is
/// joined downward when the source lacks it.
pub open spec fn spec_source_step(
    st: CompatState,
    flags: GeneralPurposeBitFlag,
    filename: Seq<u8>,
    unicode_path: Option<UnicodePathExtraFieldV>,
) -> CompatState {
    let kind = spec_classify(filename);
    let st1 = CompatState {
        all_ascii: st.all_ascii && kind is Ascii,
        all_utf8: st.all_utf8 && !(kind is Other),
        ..st
    };
    if spec_is_utf8_flag(flags) && kind is Other {
        CompatState { has_broken: true, ..st1 }
    } else {
        let st2 = if spec_is_utf8_flag(flags) {
            CompatState { utf8_found: true, ..st1 }
        } else {
            CompatState {
                utf8_prev: spec_prevalence_min(
                    st1.utf8_prev,
                    if kind is Ascii {
                        Prevalence::Always
                    } else {
                        Prevalence::AlwaysForNonAscii
                    },
                ),
                ..st1
            }
        };
        let matched = match unicode_path {
            Some(up) => up.crc32_matched,
            None => false,
        };
        if matched {
            if (match unicode_path {
                Some(up) => up.decoded_string is None,
                None => false,
            }) {
                CompatState { has_broken: true, ..st2 }
            } else {
                CompatState { up_found: true, ..st2 }
            }
        } else {
            CompatState {
                up_prev: spec_prevalence_min(
                    st2.up_prev,
                    if kind is Ascii {
                        Prevalence::Always
                    } else {
                        Prevalence::AlwaysForNonAscii
                    },
                ),
                ..st2
            }
        }
    }
}

/// Fold one entry into the state: its CDH source, then its LFH source.
pub open spec fn spec_entry_step(st: CompatState, e: ZipFileEntryV) -> CompatState {
    spec_source_step(
        spec_source_step(st, e.cdh.flags, e.cdh.filename, e.cdh.unicode_path),
        e.lfh.flags,
        e.lfh.filename,
        e.lfh.unicode_path,
    )
}

/// The state after folding every entry.
pub open spec fn spec_compat_state(entries: Seq<ZipFileEntryV>) -> CompatState
    decreases entries.len(),
{
    if entries.len() == 0 {
        spec_compat_init()
    } else {
        spec_entry_step(spec_compat_state(entries.drop_last()), entries.last())
    }
}

/// The compatibility level of an archive: Broken when any source was
/// self-contradictory; else AsciiOnly, Utf8Only or Other by what the
/// filenames held, with each prevalence reported as `None` when the
/// signal never appeared.
pub open spec fn spec_analyze(z: ZipFileV) -> CompatibilityLevel {
    let st = spec_compat_state(z.entries);
    let with_utf8_flags = if st.utf8_found {
        st.utf8_prev
    } else {
        Prevalence::Never
    };
    let with_unicode_path_fields = if st.up_found {
        st.up_prev
    } else {
        Prevalence::Never
    };
    if st.has_broken {
        CompatibilityLevel::Broken
    } else if st.all_ascii {
        CompatibilityLevel::AsciiOnly { with_utf8_flags, with_unicode_path_fields }
    } else if st.all_utf8 {
        CompatibilityLevel::Utf8Only { with_utf8_flags, with_unicode_path_fields }
    } else {
        CompatibilityLevel::Other { with_unicode_path_fields }
    }
}

/// Fold one filename source into the state.
fn source_step(
    st: CompatState,
    flags: &GeneralPurposeBitFlag,
    filename: &Vec<u8>,
    unicode_path: &Option<UnicodePathExtraField>,
) -> (r: CompatState)
    ensures
        r == spec_source_step(
            st,
            *flags,
            filename@,
            match *unicode_path {
                Some(up) => Some(up@),
                None => None::<UnicodePathExtraFieldV>,
            },
        ),
{
    let kind = classify(filename.as_slice());
    let mut next = st;
    next.all_ascii = st.all_ascii && matches!(kind, EncodingKind::Ascii);
    next.all_utf8 = st.all_utf8 && !matches!(kind, EncodingKind::Other);
    if flags.is_utf8() && matches!(kind, EncodingKind::Other) {
        next.has_broken = true;
        return next;
    }
    if flags.is_utf8() {
        next.utf8_found = true;
    } else {
        next.utf8_prev = prevalence_min(
            next.utf8_prev,
            if matches!(kind, EncodingKind::Ascii) {
                Prevalence::Always
            } else {
                Prevalence::AlwaysForNonAscii
            },
        );
    }
    let matched = match unicode_path {
        Some(up) => up.crc32_matched,
        None => false,
    };
    if matched {
        let undecodable = match unicode_path {
            Some(up) => up.decoded_string.is_none(),
            None => false,
        };
        if undecodable {
            next.has_broken = true;
        } else {
            next.up_found = true;
        }
    } else {
        next.up_prev = prevalence_min(
            next.up_prev,
            if matches!(kind, EncodingKind::Ascii) {
                Prevalence::Always
            } else {
                Prevalence::AlwaysForNonAscii
            },
        );
    }
    next
}

impl CompatibilityLevel {
    /// Analyze an archive: visit the CDH and LFH of every entry and
    /// classify the archive by its filename metadata.
    #[verifier::loop_isolation(false)]
    pub fn analyze(zip: &ZipFile) -> (r: CompatibilityLevel)
        ensures
            r == spec_analyze(zip@),
    {
        let mut st = spec_compat_init_exec();
        let n = zip.entries.len();
        proof {
            assert(zip@.entries.take(0) =~= Seq::<ZipFileEntryV>::empty());
        }
        for i in 0..n
            invariant
                n == zip.entries@.len(),
                st == spec_compat_state(zip@.entries.take(i as int)),
        {
            let entry = &zip.entries[i];
            st = source_step(st, &entry.cdh.flags, &entry.cdh.filename, &entry.cdh.unicode_path);
            st = source_step(st, &entry.lfh.flags, &entry.lfh.filename, &entry.lfh.unicode_path);
            proof {
                assert(zip@.entries.take(i + 1).drop_last() =~= zip@.entries.take(i as int));
                assert(zip@.entries.take(i + 1).last() == zip@.entries[i as int]);
                assert(zip@.entries[i as int] == zip.entries@[i as int]@);
            }
        }
        proof {
            assert(zip@.entries.take(n as int) =~= zip@.entries);
        }
        let with_utf8_flags = if st.utf8_found {
            st.utf8_prev
        } else {
            Prevalence::Never
        };
        let with_unicode_path_fields = if st.up_found {
            st.up_prev
        } else {
            Prevalence::Never
        };
        if st.has_broken {
            CompatibilityLevel::Broken
        } else if st.all_ascii {
            CompatibilityLevel::AsciiOnly { with_utf8_flags, with_unicode_path_fields }
        } else if st.all_utf8 {
            CompatibilityLevel::Utf8Only { with_utf8_flags, with_unicode_path_fields }
        } else {
            CompatibilityLevel::Other { with_unicode_path_fields }
        }
    }
}

/// The initial analysis state.
fn spec_compat_init_exec() -> (r: CompatState)
    ensures
        r == spec_compat_init(),
{
    CompatState {
        has_broken: false,
        all_ascii: true,
        all_utf8: true,
        utf8_prev: Prevalence::Always,
        utf8_found: false,
        up_prev: Prevalence::Always,
        up_found: false,
    }
}

/// Compatibility monotonicity law: appending an entry whose CDH and LFH
/// filename bytes are valid UTF-8 never turns a Utf8Only archive into
/// Other.
pub proof fn lemma_compatibility_monotonic(z: ZipFileV, z2: ZipFileV, e: ZipFileEntryV)
    requires
        spec_analyze(z) matches CompatibilityLevel::Utf8Only { .. },
        valid_utf8(e.cdh.filename),
        valid_utf8(e.lfh.filename),
        z2.entries == z.entries.push(e),
    ensures
        !(spec_analyze(z2) matches CompatibilityLevel::Other { .. }),
{
    let st = spec_compat_state(z.entries);
    assert(z2.entries.drop_last() =~= z.entries);
    assert(z2.entries.last() == e);
    let st2 = spec_compat_state(z2.entries);
    assert(st2 == spec_entry_step(st, e));
    assert(st.all_utf8);
    assert(!(spec_classify(e.cdh.filename) is Other));
    assert(!(spec_classify(e.lfh.filename) is Other));
    assert(st2.all_utf8);
}

} // verus!
