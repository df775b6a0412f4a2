//! Inspecting an archive: select a filename source for every entry,
//! detect or force an encoding, decode each filename, apply the Wave-Dash
//! policies, and report archive-wide findings.

use vstd::prelude::*;

use crate::compatibility::bytes_all_ascii;
use crate::compatibility::spec_all_ascii;
use crate::parse::ZipFile;
use crate::parse::ZipFileEntry;
use crate::parse::ZipFileEntryV;
use crate::parse::ZipFileV;
use crate::parse::spec_effective_compressed_size;
use crate::parse::spec_effective_uncompressed_size;
use crate::parse::spec_is_utf8_flag;
use crate::textenc::decode_with_label;
use crate::textenc::detector_guess;
use crate::textenc::encoding_label_known;
use crate::textenc::replace_char;
use crate::textenc::spec_decode_had_errors;
use crate::textenc::spec_decode_used_name;
use crate::textenc::spec_decoded_text;
use crate::textenc::spec_detector_guess;
use crate::textenc::spec_label_known;
use crate::textenc::spec_replace_char;
use crate::textenc::utf8_to_string;
use crate::textenc::string_contains_char;
use crate::parse::effective_uncompressed_size_of;
use crate::parse::effective_compressed_size_of;
use vstd::slice::slice_to_vec;

verus! {

use vstd::utf8::valid_utf8;

/// Strategy for handling Wave Dash when decoding from Shift_JIS.
#[derive(Debug, Clone, Copy, PartialEq, Eq)]
pub enum WaveDashHandling {
    DecodeToFullwidthTilde,
    DecodeToWaveDash,
}

impl Default for WaveDashHandling {
    /// The default keeps the decoder's own mapping (U+FF5E).
    fn default() -> (r: Self)
        ensures
            r == WaveDashHandling::DecodeToFullwidthTilde,
    {
        WaveDashHandling::DecodeToFullwidthTilde
    }
}

/// Strategy for normalizing Wave Dash and Fullwidth Tilde after decoding.
#[derive(Debug, Clone, Copy, PartialEq, Eq)]
pub enum WaveDashNormalization {
    Preserve,
    NormalizeToFullwidthTilde,
    NormalizeToWaveDash,
}

impl Default for WaveDashNormalization {
    /// The default leaves both characters intact.
    fn default() -> (r: Self)
        ensures
            r == WaveDashNormalization::Preserve,
    {
        WaveDashNormalization::Preserve
    }
}

/// Ordered preference list over the four filename sources.
#[derive(Debug, Clone, Copy, PartialEq, Eq)]
pub enum FieldSelectionStrategy {
    CdhUnicodeThenLfhUnicodeThenCdh,
    CdhUnicodeThenLfhUnicodeThenLfh,
    LfhUnicodeThenCdhUnicodeThenCdh,
    LfhUnicodeThenCdhUnicodeThenLfh,
    CdhUnicodeThenCdh,
    CdhOnly,
    LfhUnicodeThenLfh,
    LfhOnly,
}

impl Default for FieldSelectionStrategy {
    /// The default prefers the CDH Unicode-path extra, then the LFH one,
    /// then the CDH filename bytes.
    fn default() -> (r: Self)
        ensures
            r == FieldSelectionStrategy::CdhUnicodeThenLfhUnicodeThenCdh,
    {
        FieldSelectionStrategy::CdhUnicodeThenLfhUnicodeThenCdh
    }
}

/// Strategy for selecting the encoding of a filename source.
#[derive(Debug, Clone, PartialEq, Eq)]
pub enum EncodingSelectionStrategy {
    /// The overall detected encoding if any, then the per-entry detected
    /// one, then the fallback.
    PreferOverallDetected { fallback_encoding: Option<String>, ignore_utf8_flag: bool },
    /// The per-entry detected encoding if any, then the fallback.
    EntryDetected { fallback_encoding: Option<String>, ignore_utf8_flag: bool },
    /// Always the specified encoding.
    ForceSpecified { encoding: String, ignore_utf8_flag: bool },
}

/// Spec-level model of an encoding selection strategy.
#[verifier::ext_equal]
pub ghost enum EncodingSelectionStrategyV {
    PreferOverallDetected { fallback_encoding: Option<Seq<char>>, ignore_utf8_flag: bool },
    EntryDetected { fallback_encoding: Option<Seq<char>>, ignore_utf8_flag: bool },
    ForceSpecified { encoding: Seq<char>, ignore_utf8_flag: bool },
}

impl View for EncodingSelectionStrategy {
    type V = EncodingSelectionStrategyV;

    open spec fn view(&self) -> EncodingSelectionStrategyV {
        match self {
            EncodingSelectionStrategy::PreferOverallDetected {
                fallback_encoding,
                ignore_utf8_flag,
            } => EncodingSelectionStrategyV::PreferOverallDetected {
                fallback_encoding: match fallback_encoding {
                    Some(s) => Some(s@),
                    None => None,
                },
                ignore_utf8_flag: *ignore_utf8_flag,
            },
            EncodingSelectionStrategy::EntryDetected { fallback_encoding, ignore_utf8_flag } => {
                EncodingSelectionStrategyV::EntryDetected {
                    fallback_encoding: match fallback_encoding {
                        Some(s) => Some(s@),
                        None => None,
                    },
                    ignore_utf8_flag: *ignore_utf8_flag,
                }
            },
            EncodingSelectionStrategy::ForceSpecified { encoding, ignore_utf8_flag } => {
                EncodingSelectionStrategyV::ForceSpecified {
                    encoding: encoding@,
                    ignore_utf8_flag: *ignore_utf8_flag,
                }
            },
        }
    }
}

/// Configuration for inspecting an archive.
#[derive(Debug, Clone, PartialEq, Eq)]
pub struct InspectConfig {
    /// Encoding selection strategy for filename decoding.
    pub encoding: EncodingSelectionStrategy,
    /// Field selection strategy for filename decoding.
    pub field_selection_strategy: FieldSelectionStrategy,
    /// Accept a Unicode-path extra even when its embedded CRC-32
    /// disagrees with the host filename bytes.
    pub ignore_crc32_mismatch: bool,
    /// Retain the pre-decode bytes in the inspected output.
    pub needs_original_bytes: bool,
    /// How to map Shift_JIS-decoded Fullwidth Tilde.
    pub wave_dash_handling: WaveDashHandling,
    /// How to normalize Wave Dash and Fullwidth Tilde in every decoded
    /// string.
    pub wave_dash_normalization: WaveDashNormalization,
}

/// Spec-level model of an inspect configuration.
#[verifier::ext_equal]
pub ghost struct InspectConfigV {
    pub encoding: EncodingSelectionStrategyV,
    pub field_selection_strategy: FieldSelectionStrategy,
    pub ignore_crc32_mismatch: bool,
    pub needs_original_bytes: bool,
    pub wave_dash_handling: WaveDashHandling,
    pub wave_dash_normalization: WaveDashNormalization,
}

impl View for InspectConfig {
    type V = InspectConfigV;

    open spec fn view(&self) -> InspectConfigV {
        InspectConfigV {
            encoding: self.encoding@,
            field_selection_strategy: self.field_selection_strategy,
            ignore_crc32_mismatch: self.ignore_crc32_mismatch,
            needs_original_bytes: self.needs_original_bytes,
            wave_dash_handling: self.wave_dash_handling,
            wave_dash_normalization: self.wave_dash_normalization,
        }
    }
}

/// The four filename sources of an entry.
#[derive(Debug, Clone, Copy, PartialEq, Eq)]
pub enum InspectedFilenameFieldKind {
    /// Central Directory Header filename field.
    CdhFilename,
    /// Central Directory Header Unicode-path extra field.
    CdhUnicodePathExtraField,
    /// Local File Header filename field.
    LfhFilename,
    /// Local File Header Unicode-path extra field.
    LfhUnicodePathExtraField,
}

/// A decoded filename with its decoding metadata.
#[derive(Debug, Clone, PartialEq, Eq)]
pub struct DecodedString {
    /// The decoded string, after the Wave-Dash policies.
    pub string: String,
    /// Whether replacement characters were substituted while decoding.
    pub has_errors: bool,
    /// Canonical name of the encoding that was used.
    pub encoding_used: String,
}

/// Spec-level model of a decoded filename.
#[verifier::ext_equal]
pub ghost struct DecodedStringV {
    pub string: Seq<char>,
    pub has_errors: bool,
    pub encoding_used: Seq<char>,
}

impl View for DecodedString {
    type V = DecodedStringV;

    open spec fn view(&self) -> DecodedStringV {
        DecodedStringV {
            string: self.string@,
            has_errors: self.has_errors,
            encoding_used: self.encoding_used@,
        }
    }
}

/// The inspected filename field of one entry.
#[derive(Debug, Clone, PartialEq, Eq)]
pub struct InspectedFilenameField {
    /// Which source was selected.
    pub kind: InspectedFilenameFieldKind,
    /// The UTF-8 flag at that source.
    pub utf8_flag: bool,
    /// The pre-decode bytes, when the configuration asked for them.
    pub original_bytes: Option<Vec<u8>>,
    /// Canonical name of the per-entry detected encoding, if any.
    pub detected_encoding: Option<String>,
    /// The decoded filename, when decoding was possible.
    pub decoded: Option<DecodedString>,
}

/// Spec-level model of an inspected filename field.
#[verifier::ext_equal]
pub ghost struct InspectedFilenameFieldV {
    pub kind: InspectedFilenameFieldKind,
    pub utf8_flag: bool,
    pub original_bytes: Option<Seq<u8>>,
    pub detected_encoding: Option<Seq<char>>,
    pub decoded: Option<DecodedStringV>,
}

impl View for InspectedFilenameField {
    type V = InspectedFilenameFieldV;

    open spec fn view(&self) -> InspectedFilenameFieldV {
        InspectedFilenameFieldV {
            kind: self.kind,
            utf8_flag: self.utf8_flag,
            original_bytes: match self.original_bytes {
                Some(ref b) => Some(b@),
                None => None,
            },
            detected_encoding: match self.detected_encoding {
                Some(ref s) => Some(s@),
                None => None,
            },
            decoded: match self.decoded {
                Some(ref d) => Some(d@),
                None => None,
            },
        }
    }
}

/// One inspected entry: its filename field and its effective sizes.
#[derive(Debug, Clone, PartialEq, Eq)]
pub struct InspectedEntry {
    /// The inspected filename field.
    pub filename: InspectedFilenameField,
    /// The uncompressed size, ZIP64-promoted.
    pub uncompressed_size: u64,
    /// The compressed size, ZIP64-promoted.
    pub compressed_size: u64,
}

/// Spec-level model of an inspected entry.
#[verifier::ext_equal]
pub ghost struct InspectedEntryV {
    pub filename: InspectedFilenameFieldV,
    pub uncompressed_size: u64,
    pub compressed_size: u64,
}

impl View for InspectedEntry {
    type V = InspectedEntryV;

    open spec fn view(&self) -> InspectedEntryV {
        InspectedEntryV {
            filename: self.filename@,
            uncompressed_size: self.uncompressed_size,
            compressed_size: self.compressed_size,
        }
    }
}

/// An inspected archive.
#[derive(Debug, Clone, PartialEq, Eq)]
pub struct InspectedArchive {
    /// The inspected entries, in central-directory order.
    pub entries: Vec<InspectedEntry>,
    /// Canonical name of the archive-wide detected encoding, if any.
    pub overall_encoding: Option<String>,
    /// Whether a Shift_JIS-decoded filename held Wave Dash or Fullwidth
    /// Tilde.
    pub contains_sjis_wave_dash: bool,
    /// Whether a filename not decoded from Shift_JIS held Wave Dash.
    pub contains_other_wave_dash: bool,
    /// Whether a filename not decoded from Shift_JIS held Fullwidth
    /// Tilde.
    pub contains_other_fullwidth_tilde: bool,
}

/// Spec-level model of an inspected archive.
#[verifier::ext_equal]
pub ghost struct InspectedArchiveV {
    pub entries: Seq<InspectedEntryV>,
    pub overall_encoding: Option<Seq<char>>,
    pub contains_sjis_wave_dash: bool,
    pub contains_other_wave_dash: bool,
    pub contains_other_fullwidth_tilde: bool,
}

impl View for InspectedArchive {
    type V = InspectedArchiveV;

    open spec fn view(&self) -> InspectedArchiveV {
        InspectedArchiveV {
            entries: self.entries@.map_values(|e: InspectedEntry| e@),
            overall_encoding: match self.overall_encoding {
                Some(ref s) => Some(s@),
                None => None,
            },
            contains_sjis_wave_dash: self.contains_sjis_wave_dash,
            contains_other_wave_dash: self.contains_other_wave_dash,
            contains_other_fullwidth_tilde: self.contains_other_fullwidth_tilde,
        }
    }
}

/// Errors raised while inspecting an archive.
#[derive(Debug, Clone, PartialEq, Eq)]
pub enum ZipInspectError {
    /// A configured encoding label is not recognized.
    EncodingNotFound(String),
}

/// Spec-level model of an inspect error.
#[verifier::ext_equal]
pub ghost enum ZipInspectErrorV {
    EncodingNotFound(Seq<char>),
}

impl View for ZipInspectError {
    type V = ZipInspectErrorV;

    open spec fn view(&self) -> ZipInspectErrorV {
        match self {
            ZipInspectError::EncodingNotFound(s) => ZipInspectErrorV::EncodingNotFound(s@),
        }
    }
}

/// An encoding choice: plain ASCII, or an encoding named by a label.
#[derive(Debug, Clone, PartialEq, Eq)]
pub(crate) enum EncodingOrAscii {
    Ascii,
    Encoding(String),
}

/// Spec-level model of an encoding choice.
#[verifier::ext_equal]
pub ghost enum EncodingOrAsciiV {
    Ascii,
    Encoding(Seq<char>),
}

impl View for EncodingOrAscii {
    type V = EncodingOrAsciiV;

    closed spec fn view(&self) -> EncodingOrAsciiV {
        match self {
            EncodingOrAscii::Ascii => EncodingOrAsciiV::Ascii,
            EncodingOrAscii::Encoding(s) => EncodingOrAsciiV::Encoding(s@),
        }
    }
}

impl EncodingOrAscii {
    /// A copy of this encoding choice.
    pub(crate) fn duplicate(&self) -> (r: EncodingOrAscii)
        ensures
            r@ == self@,
    {
        match self {
            EncodingOrAscii::Ascii => EncodingOrAscii::Ascii,
            EncodingOrAscii::Encoding(s) => EncodingOrAscii::Encoding(s.clone()),
        }
    }
}

/// The ordered preference list that a field selection strategy stands for.
pub open spec fn spec_field_order(s: FieldSelectionStrategy) -> Seq<InspectedFilenameFieldKind> {
    match s {
        FieldSelectionStrategy::CdhUnicodeThenLfhUnicodeThenCdh => seq![
            InspectedFilenameFieldKind::CdhUnicodePathExtraField,
            InspectedFilenameFieldKind::LfhUnicodePathExtraField,
            InspectedFilenameFieldKind::CdhFilename,
        ],
        FieldSelectionStrategy::CdhUnicodeThenLfhUnicodeThenLfh => seq![
            InspectedFilenameFieldKind::CdhUnicodePathExtraField,
            InspectedFilenameFieldKind::LfhUnicodePathExtraField,
            InspectedFilenameFieldKind::LfhFilename,
        ],
        FieldSelectionStrategy::LfhUnicodeThenCdhUnicodeThenCdh => seq![
            InspectedFilenameFieldKind::LfhUnicodePathExtraField,
            InspectedFilenameFieldKind::CdhUnicodePathExtraField,
            InspectedFilenameFieldKind::CdhFilename,
        ],
        FieldSelectionStrategy::LfhUnicodeThenCdhUnicodeThenLfh => seq![
            InspectedFilenameFieldKind::LfhUnicodePathExtraField,
            InspectedFilenameFieldKind::CdhUnicodePathExtraField,
            InspectedFilenameFieldKind::LfhFilename,
        ],
        FieldSelectionStrategy::CdhUnicodeThenCdh => seq![
            InspectedFilenameFieldKind::CdhUnicodePathExtraField,
            InspectedFilenameFieldKind::CdhFilename,
        ],
        FieldSelectionStrategy::CdhOnly => seq![InspectedFilenameFieldKind::CdhFilename],
        FieldSelectionStrategy::LfhUnicodeThenLfh => seq![
            InspectedFilenameFieldKind::LfhUnicodePathExtraField,
            InspectedFilenameFieldKind::LfhFilename,
        ],
        FieldSelectionStrategy::LfhOnly => seq![InspectedFilenameFieldKind::LfhFilename],
    }
}

/// The first source of the preference list that an entry accepts: a plain
/// filename field always; a Unicode-path extra only when present and
/// either CRC-matched or excused. When a Unicode-path extra is selected,
/// its UTF-8 flag is true by definition.
pub open spec fn spec_select_source(
    e: ZipFileEntryV,
    order: Seq<InspectedFilenameFieldKind>,
    ignore_crc: bool,
) -> Option<(InspectedFilenameFieldKind, bool, Seq<u8>)>
    decreases order.len(),
{
    if order.len() == 0 {
        None
    } else {
        match order[0] {
            InspectedFilenameFieldKind::CdhFilename => Some(
                (
                    InspectedFilenameFieldKind::CdhFilename,
                    spec_is_utf8_flag(e.cdh.flags),
                    e.cdh.filename,
                ),
            ),
            InspectedFilenameFieldKind::LfhFilename => Some(
                (
                    InspectedFilenameFieldKind::LfhFilename,
                    spec_is_utf8_flag(e.lfh.flags),
                    e.lfh.filename,
                ),
            ),
            InspectedFilenameFieldKind::CdhUnicodePathExtraField => match e.cdh.unicode_path {
                Some(up) => if ignore_crc || up.crc32_matched {
                    Some((InspectedFilenameFieldKind::CdhUnicodePathExtraField, true, up.data))
                } else {
                    spec_select_source(e, order.drop_first(), ignore_crc)
                },
                None => spec_select_source(e, order.drop_first(), ignore_crc),
            },
            InspectedFilenameFieldKind::LfhUnicodePathExtraField => match e.lfh.unicode_path {
                Some(up) => if ignore_crc || up.crc32_matched {
                    Some((InspectedFilenameFieldKind::LfhUnicodePathExtraField, true, up.data))
                } else {
                    spec_select_source(e, order.drop_first(), ignore_crc)
                },
                None => spec_select_source(e, order.drop_first(), ignore_crc),
            },
        }
    }
}

/// Every preference list ends with a plain filename source, so selection
/// always succeeds.
pub proof fn lemma_select_source_some(
    e: ZipFileEntryV,
    order: Seq<InspectedFilenameFieldKind>,
    ignore_crc: bool,
)
    requires
        exists|j: int|
            0 <= j < order.len() && ((#[trigger] order[j]) is CdhFilename || order[j] is LfhFilename),
    ensures
        spec_select_source(e, order, ignore_crc) is Some,
    decreases order.len(),
{
    let j = choose|j: int|
        0 <= j < order.len() && ((#[trigger] order[j]) is CdhFilename || order[j] is LfhFilename);
    if !(order[0] is CdhFilename || order[0] is LfhFilename) {
        if spec_select_source(e, order, ignore_crc) is None {
            assert(order.drop_first()[j - 1] == order[j]);
            lemma_select_source_some(e, order.drop_first(), ignore_crc);
        }
    }
}

/// The source selected for an entry under a configuration.
pub open spec fn spec_selected_source(e: ZipFileEntryV, c: InspectConfigV) -> (
    InspectedFilenameFieldKind,
    bool,
    Seq<u8>,
) {
    match spec_select_source(
        e,
        spec_field_order(c.field_selection_strategy),
        c.ignore_crc32_mismatch,
    ) {
        Some(t) => t,
        None => arbitrary(),
    }
}

/// The selected source bytes of all entries, concatenated in order.
pub open spec fn spec_concat_selected(entries: Seq<ZipFileEntryV>, c: InspectConfigV) -> Seq<u8>
    decreases entries.len(),
{
    if entries.len() == 0 {
        Seq::empty()
    } else {
        spec_concat_selected(entries.drop_last(), c) + spec_selected_source(entries.last(), c).2
    }
}

/// The label that an encoding choice decodes under.
pub open spec fn spec_enc_label(enc: EncodingOrAsciiV) -> Seq<char> {
    match enc {
        EncodingOrAsciiV::Ascii => "UTF-8"@,
        EncodingOrAsciiV::Encoding(l) => l,
    }
}

/// The reported name of an encoding choice.
pub open spec fn spec_enc_name(enc: EncodingOrAsciiV) -> Seq<char> {
    match enc {
        EncodingOrAsciiV::Ascii => "ASCII"@,
        EncodingOrAsciiV::Encoding(l) => l,
    }
}

/// The Wave-Dash transforms applied to a decoded string: when the string
/// was decoded from Shift_JIS and the handling asks for it, U+FF5E is
/// first mapped back to U+301C; then the normalization maps one of the
/// two characters onto the other, or preserves both.
pub open spec fn spec_wave_transform(
    s: Seq<char>,
    used: Seq<char>,
    handling: WaveDashHandling,
    normalization: WaveDashNormalization,
) -> Seq<char> {
    let s1 = if used == "Shift_JIS"@ && handling is DecodeToWaveDash {
        spec_replace_char(s, '\u{FF5E}', '\u{301C}')
    } else {
        s
    };
    match normalization {
        WaveDashNormalization::NormalizeToFullwidthTilde => spec_replace_char(
            s1,
            '\u{301C}',
            '\u{FF5E}',
        ),
        WaveDashNormalization::NormalizeToWaveDash => spec_replace_char(s1, '\u{FF5E}', '\u{301C}'),
        WaveDashNormalization::Preserve => s1,
    }
}

/// Decoding `data` under an encoding choice: `None` when the label is not
/// recognized, or when replacement was needed and `force` is off;
/// otherwise the decoded text with the Wave-Dash transforms applied, the
/// error flag, and the canonical name of the encoding actually used.
pub open spec fn spec_decode_with_encoding(
    data: Seq<u8>,
    enc: EncodingOrAsciiV,
    force: bool,
    handling: WaveDashHandling,
    normalization: WaveDashNormalization,
) -> Option<DecodedStringV> {
    let label = spec_enc_label(enc);
    if !spec_label_known(label) {
        None
    } else {
        let text = spec_decoded_text(label, data);
        let had_errors = spec_decode_had_errors(label, data);
        let used = spec_decode_used_name(label, data);
        if force || !had_errors {
            Some(
                DecodedStringV {
                    string: spec_wave_transform(text, used, handling, normalization),
                    has_errors: had_errors,
                    encoding_used: used,
                },
            )
        } else {
            None
        }
    }
}

/// Automatic encoding detection for filename bytes: valid UTF-8 without a
/// NUL byte is reported as ASCII or UTF-8 directly; otherwise the
/// statistical detector's guess is accepted exactly when decoding under
/// it needs no replacement.
pub open spec fn spec_detect_encoding(data: Seq<u8>) -> Option<EncodingOrAsciiV> {
    if valid_utf8(data) && !data.contains(0u8) {
        Some(
            if spec_all_ascii(data) {
                EncodingOrAsciiV::Ascii
            } else {
                EncodingOrAsciiV::Encoding("UTF-8"@)
            },
        )
    } else {
        let g = spec_detector_guess(data);
        if spec_label_known(g) && !spec_decode_had_errors(g, data) {
            Some(EncodingOrAsciiV::Encoding(spec_decode_used_name(g, data)))
        } else {
            None
        }
    }
}

/// The label that the configuration itself supplies: the fallback for the
/// detecting strategies, the forced encoding otherwise.
pub open spec fn spec_user_label(c: InspectConfigV) -> Option<Seq<char>> {
    match c.encoding {
        EncodingSelectionStrategyV::PreferOverallDetected { fallback_encoding, .. } => {
            fallback_encoding
        },
        EncodingSelectionStrategyV::EntryDetected { fallback_encoding, .. } => fallback_encoding,
        EncodingSelectionStrategyV::ForceSpecified { encoding, .. } => Some(encoding),
    }
}

/// Whether the configuration ignores the headers' UTF-8 flag.
pub open spec fn spec_ignore_utf8_flag(c: InspectConfigV) -> bool {
    match c.encoding {
        EncodingSelectionStrategyV::PreferOverallDetected { ignore_utf8_flag, .. } => {
            ignore_utf8_flag
        },
        EncodingSelectionStrategyV::EntryDetected { ignore_utf8_flag, .. } => ignore_utf8_flag,
        EncodingSelectionStrategyV::ForceSpecified { ignore_utf8_flag, .. } => ignore_utf8_flag,
    }
}

/// The encoding choice for one entry: UTF-8 outright for a Unicode-path
/// source or an honoured UTF-8 flag; otherwise the strategy's preference
/// chain over the overall detection, the per-entry detection and the
/// configured label.
pub open spec fn spec_entry_encoding(
    kind: InspectedFilenameFieldKind,
    utf8_flag: bool,
    overall: Option<EncodingOrAsciiV>,
    detected: Option<EncodingOrAsciiV>,
    c: InspectConfigV,
) -> Option<EncodingOrAsciiV> {
    let user = match spec_user_label(c) {
        Some(l) => Some(EncodingOrAsciiV::Encoding(l)),
        None => None,
    };
    if (!spec_ignore_utf8_flag(c) && utf8_flag) || kind is CdhUnicodePathExtraField
        || kind is LfhUnicodePathExtraField {
        Some(EncodingOrAsciiV::Encoding("UTF-8"@))
    } else {
        match c.encoding {
            EncodingSelectionStrategyV::PreferOverallDetected { .. } => match overall {
                Some(o) => Some(o),
                None => match detected {
                    Some(d) => Some(d),
                    None => user,
                },
            },
            EncodingSelectionStrategyV::EntryDetected { .. } => match detected {
                Some(d) => Some(d),
                None => user,
            },
            EncodingSelectionStrategyV::ForceSpecified { .. } => user,
        }
    }
}

/// The inspected filename field of one entry.
pub open spec fn spec_inspect_field(
    e: ZipFileEntryV,
    c: InspectConfigV,
    overall: Option<EncodingOrAsciiV>,
) -> InspectedFilenameFieldV {
    let (kind, utf8_flag, bytes) = spec_selected_source(e, c);
    let detected = spec_detect_encoding(bytes);
    let enc = spec_entry_encoding(kind, utf8_flag, overall, detected, c);
    InspectedFilenameFieldV {
        kind,
        utf8_flag,
        original_bytes: if c.needs_original_bytes {
            Some(bytes)
        } else {
            None
        },
        detected_encoding: match detected {
            Some(d) => Some(spec_enc_name(d)),
            None => None,
        },
        decoded: match enc {
            Some(en) => spec_decode_with_encoding(
                bytes,
                en,
                true,
                c.wave_dash_handling,
                c.wave_dash_normalization,
            ),
            None => None,
        },
    }
}

/// One inspected entry: its filename field and its ZIP64-promoted sizes.
pub open spec fn spec_inspect_entry(
    e: ZipFileEntryV,
    c: InspectConfigV,
    overall: Option<EncodingOrAsciiV>,
) -> InspectedEntryV {
    InspectedEntryV {
        filename: spec_inspect_field(e, c, overall),
        uncompressed_size: spec_effective_uncompressed_size(e.cdh),
        compressed_size: spec_effective_compressed_size(e.cdh),
    }
}

/// The inspected entries of an archive, in order.
pub open spec fn spec_inspect_entries(
    entries: Seq<ZipFileEntryV>,
    c: InspectConfigV,
    overall: Option<EncodingOrAsciiV>,
) -> Seq<InspectedEntryV> {
    entries.map_values(|e: ZipFileEntryV| spec_inspect_entry(e, c, overall))
}

/// The three Wave-Dash presence flags over a list of inspected entries:
/// whether any decoded filename held Wave Dash or Fullwidth Tilde, split
/// by whether the filename was decoded from Shift_JIS.
pub open spec fn spec_wave_flags(entries: Seq<InspectedEntryV>) -> (bool, bool, bool)
    decreases entries.len(),
{
    if entries.len() == 0 {
        (false, false, false)
    } else {
        let prev = spec_wave_flags(entries.drop_last());
        let e = entries.last();
        match e.filename.decoded {
            Some(d) => {
                let has_wd = d.string.contains('\u{301C}');
                let has_ft = d.string.contains('\u{FF5E}');
                if has_wd || has_ft {
                    if d.encoding_used == "Shift_JIS"@ {
                        (true, prev.1, prev.2)
                    } else if has_wd {
                        (prev.0, true, prev.2)
                    } else {
                        (prev.0, prev.1, true)
                    }
                } else {
                    prev
                }
            },
            None => prev,
        }
    }
}

/// The result of inspecting an archive: `EncodingNotFound` exactly when
/// the configuration names an unknown label; otherwise the inspected
/// entries, the archive-wide detected encoding, and the Wave-Dash flags.
pub open spec fn spec_inspect(z: ZipFileV, c: InspectConfigV) -> Result<
    InspectedArchiveV,
    ZipInspectErrorV,
> {
    let user = spec_user_label(c);
    if user is Some && !spec_label_known(user->0) {
        Err(ZipInspectErrorV::EncodingNotFound(user->0))
    } else {
        let overall = spec_detect_encoding(spec_concat_selected(z.entries, c));
        let entries = spec_inspect_entries(z.entries, c, overall);
        let flags = spec_wave_flags(entries);
        Ok(
            InspectedArchiveV {
                entries,
                overall_encoding: match overall {
                    Some(o) => Some(spec_enc_name(o)),
                    None => None,
                },
                contains_sjis_wave_dash: flags.0,
                contains_other_wave_dash: flags.1,
                contains_other_fullwidth_tilde: flags.2,
            },
        )
    }
}

/// The ordered preference list of a field selection strategy.
fn field_order(s: FieldSelectionStrategy) -> (r: Vec<InspectedFilenameFieldKind>)
    ensures
        r@ == spec_field_order(s),
{
    let mut v: Vec<InspectedFilenameFieldKind> = Vec::new();
    match s {
        FieldSelectionStrategy::CdhUnicodeThenLfhUnicodeThenCdh => {
            v.push(InspectedFilenameFieldKind::CdhUnicodePathExtraField);
            v.push(InspectedFilenameFieldKind::LfhUnicodePathExtraField);
            v.push(InspectedFilenameFieldKind::CdhFilename);
        },
        FieldSelectionStrategy::CdhUnicodeThenLfhUnicodeThenLfh => {
            v.push(InspectedFilenameFieldKind::CdhUnicodePathExtraField);
            v.push(InspectedFilenameFieldKind::LfhUnicodePathExtraField);
            v.push(InspectedFilenameFieldKind::LfhFilename);
        },
        FieldSelectionStrategy::LfhUnicodeThenCdhUnicodeThenCdh => {
            v.push(InspectedFilenameFieldKind::LfhUnicodePathExtraField);
            v.push(InspectedFilenameFieldKind::CdhUnicodePathExtraField);
            v.push(InspectedFilenameFieldKind::CdhFilename);
        },
        FieldSelectionStrategy::LfhUnicodeThenCdhUnicodeThenLfh => {
            v.push(InspectedFilenameFieldKind::LfhUnicodePathExtraField);
            v.push(InspectedFilenameFieldKind::CdhUnicodePathExtraField);
            v.push(InspectedFilenameFieldKind::LfhFilename);
        },
        FieldSelectionStrategy::CdhUnicodeThenCdh => {
            v.push(InspectedFilenameFieldKind::CdhUnicodePathExtraField);
            v.push(InspectedFilenameFieldKind::CdhFilename);
        },
        FieldSelectionStrategy::CdhOnly => {
            v.push(InspectedFilenameFieldKind::CdhFilename);
        },
        FieldSelectionStrategy::LfhUnicodeThenLfh => {
            v.push(InspectedFilenameFieldKind::LfhUnicodePathExtraField);
            v.push(InspectedFilenameFieldKind::LfhFilename);
        },
        FieldSelectionStrategy::LfhOnly => {
            v.push(InspectedFilenameFieldKind::LfhFilename);
        },
    }
    proof {
        assert(v@ =~= spec_field_order(s));
    }
    v
}

/// Every preference list holds a plain filename source.
proof fn lemma_field_order_grounded(s: FieldSelectionStrategy)
    ensures
        exists|j: int|
            0 <= j < spec_field_order(s).len() && ((#[trigger] spec_field_order(s)[j])
                is CdhFilename || spec_field_order(s)[j] is LfhFilename),
{
    let order = spec_field_order(s);
    match s {
        FieldSelectionStrategy::CdhUnicodeThenLfhUnicodeThenCdh => {
            assert(order[2] is CdhFilename);
        },
        FieldSelectionStrategy::CdhUnicodeThenLfhUnicodeThenLfh => {
            assert(order[2] is LfhFilename);
        },
        FieldSelectionStrategy::LfhUnicodeThenCdhUnicodeThenCdh => {
            assert(order[2] is CdhFilename);
        },
        FieldSelectionStrategy::LfhUnicodeThenCdhUnicodeThenLfh => {
            assert(order[2] is LfhFilename);
        },
        FieldSelectionStrategy::CdhUnicodeThenCdh => {
            assert(order[1] is CdhFilename);
        },
        FieldSelectionStrategy::CdhOnly => {
            assert(order[0] is CdhFilename);
        },
        FieldSelectionStrategy::LfhUnicodeThenLfh => {
            assert(order[1] is LfhFilename);
        },
        FieldSelectionStrategy::LfhOnly => {
            assert(order[0] is LfhFilename);
        },
    }
}

/// Select the filename source of one entry per the preference list.
#[verifier::loop_isolation(false)]
fn select_source(
    e: &ZipFileEntry,
    order: &Vec<InspectedFilenameFieldKind>,
    ignore_crc: bool,
) -> (r: Option<(InspectedFilenameFieldKind, bool, Vec<u8>)>)
    ensures
        match r {
            Some(t) => spec_select_source(e@, order@, ignore_crc) == Some(
                (t.0, t.1, t.2@),
            ),
            None => spec_select_source(e@, order@, ignore_crc) is None,
        },
{
    let n = order.len();
    proof {
        assert(order@.skip(0) =~= order@);
    }
    for i in 0..n
        invariant
            n == order@.len(),
            spec_select_source(e@, order@, ignore_crc) == spec_select_source(
                e@,
                order@.skip(i as int),
                ignore_crc,
            ),
    {
        let ghost rem = order@.skip(i as int);
        proof {
            assert(rem[0] == order@[i as int]);
            assert(rem.drop_first() =~= order@.skip(i + 1));
        }
        match order[i] {
            InspectedFilenameFieldKind::CdhFilename => {
                return Some(
                    (
                        InspectedFilenameFieldKind::CdhFilename,
                        e.cdh.flags.is_utf8(),
                        slice_to_vec(e.cdh.filename.as_slice()),
                    ),
                );
            },
            InspectedFilenameFieldKind::LfhFilename => {
                return Some(
                    (
                        InspectedFilenameFieldKind::LfhFilename,
                        e.lfh.flags.is_utf8(),
                        slice_to_vec(e.lfh.filename.as_slice()),
                    ),
                );
            },
            InspectedFilenameFieldKind::CdhUnicodePathExtraField => {
                match &e.cdh.unicode_path {
                    Some(up) => {
                        if ignore_crc || up.crc32_matched {
                            return Some(
                                (
                                    InspectedFilenameFieldKind::CdhUnicodePathExtraField,
                                    true,
                                    slice_to_vec(up.data.as_slice()),
                                ),
                            );
                        }
                    },
                    None => {},
                }
            },
            InspectedFilenameFieldKind::LfhUnicodePathExtraField => {
                match &e.lfh.unicode_path {
                    Some(up) => {
                        if ignore_crc || up.crc32_matched {
                            return Some(
                                (
                                    InspectedFilenameFieldKind::LfhUnicodePathExtraField,
                                    true,
                                    slice_to_vec(up.data.as_slice()),
                                ),
                            );
                        }
                    },
                    None => {},
                }
            },
        }
    }
    proof {
        assert(order@.skip(n as int).len() == 0);
    }
    None
}

/// Whether the bytes contain a NUL.
#[verifier::loop_isolation(false)]
fn bytes_contains_zero(bytes: &[u8]) -> (r: bool)
    ensures
        r == bytes@.contains(0u8),
{
    let n = bytes.len();
    for i in 0..n
        invariant
            forall|j: int| 0 <= j < i ==> bytes@[j] != 0u8,
    {
        if bytes[i] == 0 {
            proof {
                assert(bytes@.contains(0u8));
            }
            return true;
        }
    }
    proof {
        assert(forall|j: int| 0 <= j < bytes@.len() ==> bytes@[j] != 0u8);
    }
    false
}

/// Decode filename bytes under an encoding choice and apply the
/// Wave-Dash policies.
fn decode_with_encoding(
    data: &[u8],
    enc: &EncodingOrAscii,
    force: bool,
    handling: WaveDashHandling,
    normalization: WaveDashNormalization,
) -> (r: Option<DecodedString>)
    ensures
        match r {
            Some(d) => spec_decode_with_encoding(data@, enc@, force, handling, normalization)
                == Some(d@),
            None => spec_decode_with_encoding(data@, enc@, force, handling, normalization) is None,
        },
{
    let outcome = match enc {
        EncodingOrAscii::Ascii => decode_with_label("UTF-8", data),
        EncodingOrAscii::Encoding(l) => decode_with_label(l.as_str(), data),
    };
    match outcome {
        None => None,
        Some((text, had_errors, used)) => {
            if force || !had_errors {
                let sjis: String = "Shift_JIS".to_owned();
                let step1: String = if used == sjis && matches!(
                    handling,
                    WaveDashHandling::DecodeToWaveDash,
                ) {
                    replace_char(text.as_str(), '\u{FF5E}', '\u{301C}')
                } else {
                    text
                };
                let step2: String = match normalization {
                    WaveDashNormalization::NormalizeToFullwidthTilde => replace_char(
                        step1.as_str(),
                        '\u{301C}',
                        '\u{FF5E}',
                    ),
                    WaveDashNormalization::NormalizeToWaveDash => replace_char(
                        step1.as_str(),
                        '\u{FF5E}',
                        '\u{301C}',
                    ),
                    WaveDashNormalization::Preserve => step1,
                };
                Some(DecodedString { string: step2, has_errors: had_errors, encoding_used: used })
            } else {
                None
            }
        },
    }
}

/// Detect the encoding of filename bytes.
fn detect_encoding(data: &[u8]) -> (r: Option<EncodingOrAscii>)
    ensures
        match r {
            Some(e) => spec_detect_encoding(data@) == Some(e@),
            None => spec_detect_encoding(data@) is None,
        },
{
    let is_utf8 = match utf8_to_string(data) {
        Some(_) => true,
        None => false,
    };
    if is_utf8 && !bytes_contains_zero(data) {
        if bytes_all_ascii(data) {
            return Some(EncodingOrAscii::Ascii);
        } else {
            return Some(EncodingOrAscii::Encoding("UTF-8".to_owned()));
        }
    }
    let guess = detector_guess(data);
    match decode_with_label(guess.as_str(), data) {
        Some((_, had_errors, used)) => {
            if !had_errors {
                Some(EncodingOrAscii::Encoding(used))
            } else {
                None
            }
        },
        None => None,
    }
}

/// The reported name of an encoding choice.
fn enc_name(enc: &EncodingOrAscii) -> (r: String)
    ensures
        r@ == spec_enc_name(enc@),
{
    match enc {
        EncodingOrAscii::Ascii => "ASCII".to_owned(),
        EncodingOrAscii::Encoding(l) => l.clone(),
    }
}

/// A copy of an optional encoding choice.
fn dup_enc_opt(enc: &Option<EncodingOrAscii>) -> (r: Option<EncodingOrAscii>)
    ensures
        match r {
            Some(e) => (match enc {
                Some(o) => Some(o@),
                None => None::<EncodingOrAsciiV>,
            }) == Some(e@),
            None => enc is None,
        },
{
    match enc {
        Some(e) => Some(e.duplicate()),
        None => None,
    }
}

/// Whether the configuration ignores the headers' UTF-8 flag.
fn ignore_utf8_flag_of(config: &InspectConfig) -> (r: bool)
    ensures
        r == spec_ignore_utf8_flag(config@),
{
    match &config.encoding {
        EncodingSelectionStrategy::PreferOverallDetected { ignore_utf8_flag, .. } => {
            *ignore_utf8_flag
        },
        EncodingSelectionStrategy::EntryDetected { ignore_utf8_flag, .. } => *ignore_utf8_flag,
        EncodingSelectionStrategy::ForceSpecified { ignore_utf8_flag, .. } => *ignore_utf8_flag,
    }
}

impl InspectedArchive {
    /// Inspect an archive: select a filename source for every entry, run
    /// encoding detection over the concatenated selected bytes and per
    /// entry, decode each filename under the configured strategy, apply
    /// the Wave-Dash policies, and report the archive-wide findings.
    /// Fails with `EncodingNotFound` exactly when the configuration names
    /// an encoding label that is not recognized.
    #[verifier::loop_isolation(false)]
    #[verifier::rlimit(100)]
    #[verifier::spinoff_prover]
    pub fn inspect(zip_file: &ZipFile, config: &InspectConfig) -> (r: Result<
        InspectedArchive,
        ZipInspectError,
    >)
        ensures
            match r {
                Ok(a) => spec_inspect(zip_file@, config@) == Ok::<_, ZipInspectErrorV>(a@),
                Err(e) => spec_inspect(zip_file@, config@) == Err::<InspectedArchiveV, _>(e@),
            },
    {
        let user_label: Option<&String> = match &config.encoding {
            EncodingSelectionStrategy::PreferOverallDetected { fallback_encoding, .. } => {
                match fallback_encoding {
                    Some(l) => Some(l),
                    None => None,
                }
            },
            EncodingSelectionStrategy::EntryDetected { fallback_encoding, .. } => {
                match fallback_encoding {
                    Some(l) => Some(l),
                    None => None,
                }
            },
            EncodingSelectionStrategy::ForceSpecified { encoding, .. } => Some(encoding),
        };
        proof {
            assert(match user_label {
                Some(l) => spec_user_label(config@) == Some(l@),
                None => spec_user_label(config@) is None,
            });
        }
        let user_enc: Option<EncodingOrAscii> = match user_label {
            Some(l) => {
                if !encoding_label_known(l.as_str()) {
                    return Err(ZipInspectError::EncodingNotFound(l.clone()));
                }
                Some(EncodingOrAscii::Encoding(l.clone()))
            },
            None => None,
        };
        proof {
            assert(match spec_user_label(config@) {
                Some(l) => spec_label_known(l),
                None => true,
            });
            assert(match user_enc {
                Some(u) => spec_user_label(config@) is Some && u@ == EncodingOrAsciiV::Encoding(
                    spec_user_label(config@)->0,
                ),
                None => spec_user_label(config@) is None,
            });
        }
        let order = field_order(config.field_selection_strategy);
        let n = zip_file.entries.len();
        let mut kinds: Vec<InspectedFilenameFieldKind> = Vec::new();
        let mut source_flags: Vec<bool> = Vec::new();
        let mut byte_lists: Vec<Vec<u8>> = Vec::new();
        for i in 0..n
            invariant
                n == zip_file.entries@.len(),
                kinds@.len() == i,
                source_flags@.len() == i,
                byte_lists@.len() == i,
                forall|k: int|
                    0 <= k < i ==> {
                        let sel = spec_selected_source(#[trigger] zip_file@.entries[k], config@);
                        kinds@[k] == sel.0 && source_flags@[k] == sel.1 && byte_lists@[k]@ == sel.2
                    },
        {
            proof {
                assert(zip_file@.entries[i as int] == zip_file.entries@[i as int]@);
                lemma_field_order_grounded(config.field_selection_strategy);
                lemma_select_source_some(
                    zip_file@.entries[i as int],
                    spec_field_order(config.field_selection_strategy),
                    config@.ignore_crc32_mismatch,
                );
            }
            match select_source(&zip_file.entries[i], &order, config.ignore_crc32_mismatch) {
                Some((k, f, b)) => {
                    kinds.push(k);
                    source_flags.push(f);
                    byte_lists.push(b);
                },
                None => {
                    return vstd::pervasive::unreached();
                },
            }
        }
        let mut concat: Vec<u8> = Vec::new();
        proof {
            assert(zip_file@.entries.take(0) =~= Seq::<ZipFileEntryV>::empty());
            assert(concat@ =~= spec_concat_selected(zip_file@.entries.take(0), config@));
        }
        for i in 0..n
            invariant
                concat@ == spec_concat_selected(zip_file@.entries.take(i as int), config@),
        {
            concat.extend_from_slice(byte_lists[i].as_slice());
            proof {
                assert(zip_file@.entries.take(i + 1).drop_last() =~= zip_file@.entries.take(
                    i as int,
                ));
                assert(zip_file@.entries.take(i + 1).last() == zip_file@.entries[i as int]);
            }
        }
        proof {
            assert(zip_file@.entries.take(n as int) =~= zip_file@.entries);
        }
        let overall = detect_encoding(concat.as_slice());
        let ghost overall_v: Option<EncodingOrAsciiV> = match overall {
            Some(ref o) => Some(o@),
            None => None,
        };
        proof {
            assert(match overall {
                Some(ref o) => spec_detect_encoding(spec_concat_selected(
                    zip_file@.entries,
                    config@,
                )) == Some(o@),
                None => spec_detect_encoding(spec_concat_selected(zip_file@.entries, config@))
                    is None,
            });
        }
        let ignore_flag = ignore_utf8_flag_of(config);
        let mut out_entries: Vec<InspectedEntry> = Vec::new();
        for i in 0..n
            invariant
                out_entries@.len() == i,
                forall|k: int|
                    0 <= k < i ==> (#[trigger] out_entries@[k])@ == spec_inspect_entry(
                        zip_file@.entries[k],
                        config@,
                        overall_v,
                    ),
        {
            let kind = kinds[i];
            let flag = source_flags[i];
            let detected = detect_encoding(byte_lists[i].as_slice());
            let enc: Option<EncodingOrAscii> = if (!ignore_flag && flag) || matches!(
                kind,
                InspectedFilenameFieldKind::CdhUnicodePathExtraField
                    | InspectedFilenameFieldKind::LfhUnicodePathExtraField,
            ) {
                Some(EncodingOrAscii::Encoding("UTF-8".to_owned()))
            } else {
                match &config.encoding {
                    EncodingSelectionStrategy::PreferOverallDetected { .. } => match &overall {
                        Some(o) => Some(o.duplicate()),
                        None => match &detected {
                            Some(d) => Some(d.duplicate()),
                            None => dup_enc_opt(&user_enc),
                        },
                    },
                    EncodingSelectionStrategy::EntryDetected { .. } => match &detected {
                        Some(d) => Some(d.duplicate()),
                        None => dup_enc_opt(&user_enc),
                    },
                    EncodingSelectionStrategy::ForceSpecified { .. } => dup_enc_opt(&user_enc),
                }
            };
            proof {
                let sel = spec_selected_source(zip_file@.entries[i as int], config@);
                assert(match enc {
                    Some(ref en) => spec_entry_encoding(sel.0, sel.1, overall_v, spec_detect_encoding(sel.2), config@) == Some(en@),
                    None => spec_entry_encoding(sel.0, sel.1, overall_v, spec_detect_encoding(sel.2), config@) is None,
                });
            }
            let decoded = match &enc {
                Some(en) => decode_with_encoding(
                    byte_lists[i].as_slice(),
                    en,
                    true,
                    config.wave_dash_handling,
                    config.wave_dash_normalization,
                ),
                None => None,
            };
            let detected_name = match &detected {
                Some(d) => Some(enc_name(d)),
                None => None,
            };
            let original_bytes = if config.needs_original_bytes {
                Some(slice_to_vec(byte_lists[i].as_slice()))
            } else {
                None
            };
            let field = InspectedFilenameField {
                kind,
                utf8_flag: flag,
                original_bytes,
                detected_encoding: detected_name,
                decoded,
            };
            let ie = InspectedEntry {
                filename: field,
                uncompressed_size: effective_uncompressed_size_of(&zip_file.entries[i].cdh),
                compressed_size: effective_compressed_size_of(&zip_file.entries[i].cdh),
            };
            proof {
                assert(zip_file@.entries[i as int] == zip_file.entries@[i as int]@);
                assert(ie@.filename =~= spec_inspect_field(
                    zip_file@.entries[i as int],
                    config@,
                    overall_v,
                ));
                assert(ie@ =~= spec_inspect_entry(zip_file@.entries[i as int], config@, overall_v));
            }
            out_entries.push(ie);
        }
        let ghost entries_v = out_entries@.map_values(|e: InspectedEntry| e@);
        proof {
            assert(entries_v =~= spec_inspect_entries(zip_file@.entries, config@, overall_v));
        }
        let sjis: String = "Shift_JIS".to_owned();
        let mut contains_sjis_wave_dash = false;
        let mut contains_other_wave_dash = false;
        let mut contains_other_fullwidth_tilde = false;
        proof {
            assert(entries_v.take(0) =~= Seq::<InspectedEntryV>::empty());
        }
        for i in 0..n
            invariant
                out_entries@.len() == n,
                entries_v == out_entries@.map_values(|e: InspectedEntry| e@),
                (
                    contains_sjis_wave_dash,
                    contains_other_wave_dash,
                    contains_other_fullwidth_tilde,
                ) == spec_wave_flags(entries_v.take(i as int)),
        {
            match &out_entries[i].filename.decoded {
                Some(d) => {
                    let has_wd = string_contains_char(d.string.as_str(), '\u{301C}');
                    let has_ft = string_contains_char(d.string.as_str(), '\u{FF5E}');
                    if has_wd || has_ft {
                        if d.encoding_used == sjis {
                            contains_sjis_wave_dash = true;
                        } else if has_wd {
                            contains_other_wave_dash = true;
                        } else {
                            contains_other_fullwidth_tilde = true;
                        }
                    }
                },
                None => {},
            }
            proof {
                assert(entries_v.take(i + 1).drop_last() =~= entries_v.take(i as int));
                assert(entries_v.take(i + 1).last() == entries_v[i as int]);
                assert(entries_v[i as int] == out_entries@[i as int]@);
            }
        }
        proof {
            assert(entries_v.take(n as int) =~= entries_v);
        }
        let overall_encoding = match &overall {
            Some(o) => Some(enc_name(o)),
            None => None,
        };
        let result = InspectedArchive {
            entries: out_entries,
            overall_encoding,
            contains_sjis_wave_dash,
            contains_other_wave_dash,
            contains_other_fullwidth_tilde,
        };
        proof {
            assert(result@ =~= spec_inspect(zip_file@, config@)->Ok_0);
        }
        Ok(result)
    }
}

} // verus!
