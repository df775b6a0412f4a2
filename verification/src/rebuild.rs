//! Rebuilding an archive with UTF-8 filenames: emit a chunk plan that,
//! concatenated, forms a well-formed single-disk ZIP holding the retained
//! entries, with ZIP64 promotions introduced or removed as the rewritten
//! sizes and offsets dictate. Payload bytes are never copied; they are
//! referenced by their position in the source archive.

use vstd::prelude::*;

use crate::inspect::InspectConfig;
use crate::inspect::InspectConfigV;
use crate::inspect::InspectedArchive;
use crate::inspect::InspectedArchiveV;
use crate::inspect::InspectedEntryV;
use crate::inspect::EncodingSelectionStrategy;
use crate::inspect::ZipInspectError;
use crate::inspect::ZipInspectErrorV;
use crate::inspect::spec_inspect;
use crate::parse::CentralDirectoryHeaderV;
use crate::parse::EndOfCentralDirectoryV;
use crate::parse::ExtraField;
use crate::parse::ExtraFieldV;
use crate::parse::GeneralPurposeBitFlag;
use crate::parse::LocalFileHeaderV;
use crate::parse::UNICODE_PATH_EXTRA_TAG;
use crate::parse::ZIP64_EXTRA_TAG;
use crate::parse::Zip64EndOfCentralDirectoryHeader;
use crate::parse::Zip64EndOfCentralDirectoryLocator;
use crate::parse::ZipFile;
use crate::parse::ZipFileEntryV;
use crate::parse::ZipFileV;
use crate::parse::extra_fields_view;
use crate::parse::spec_effective_compressed_size;
use crate::parse::spec_effective_uncompressed_size;
use crate::parse::spec_is_utf8_flag;
use crate::parse::spec_has_data_descriptor;

verus! {

use vstd::bytes::spec_u16_to_le_bytes;
use vstd::bytes::spec_u32_to_le_bytes;
use vstd::bytes::spec_u64_to_le_bytes;
use vstd::bytes::u16_to_le_bytes;
use vstd::bytes::u32_to_le_bytes;
use vstd::bytes::u64_to_le_bytes;
use vstd::utf8::encode_utf8;
use vstd::slice::slice_to_vec;

/// A chunk of the rebuilt archive: literal bytes, or a reference to a
/// byte range of the source archive.
#[derive(Debug, Clone, PartialEq, Eq)]
pub enum RebuildChunk {
    /// `size` bytes of the source archive starting at `offset`.
    Reference { offset: u64, size: u64 },
    /// Literal bytes.
    Binary(Vec<u8>),
}

/// Spec-level model of a rebuild chunk.
#[verifier::ext_equal]
pub ghost enum RebuildChunkV {
    Reference { offset: u64, size: u64 },
    Binary(Seq<u8>),
}

impl View for RebuildChunk {
    type V = RebuildChunkV;

    open spec fn view(&self) -> RebuildChunkV {
        match self {
            RebuildChunk::Reference { offset, size } => RebuildChunkV::Reference {
                offset: *offset,
                size: *size,
            },
            RebuildChunk::Binary(b) => RebuildChunkV::Binary(b@),
        }
    }
}

/// The view of a list of chunks.
pub open spec fn chunks_view(chunks: Seq<RebuildChunk>) -> Seq<RebuildChunkV> {
    chunks.map_values(|c: RebuildChunk| c@)
}

/// Errors raised while rebuilding an archive.
#[derive(Debug, Clone, PartialEq, Eq)]
pub enum RebuildError {
    /// Inspection failed.
    Inspect(ZipInspectError),
    /// The rebuilt archive would not fit in 64 bits of length.
    SizeOverflow,
}

/// Spec-level model of a rebuild error.
#[verifier::ext_equal]
pub ghost enum RebuildErrorV {
    Inspect(ZipInspectErrorV),
    SizeOverflow,
}

impl View for RebuildError {
    type V = RebuildErrorV;

    open spec fn view(&self) -> RebuildErrorV {
        match self {
            RebuildError::Inspect(e) => RebuildErrorV::Inspect(e@),
            RebuildError::SizeOverflow => RebuildErrorV::SizeOverflow,
        }
    }
}

/// The serialized form of one extra field: tag, size, data.
pub open spec fn spec_extra_field_bytes(ef: ExtraFieldV) -> Seq<u8> {
    spec_u16_to_le_bytes(ef.tag) + spec_u16_to_le_bytes(ef.size) + ef.data
}

/// The serialized form of a list of extra fields, in order.
pub open spec fn spec_extra_fields_bytes(efs: Seq<ExtraFieldV>) -> Seq<u8>
    decreases efs.len(),
{
    if efs.len() == 0 {
        Seq::empty()
    } else {
        spec_extra_fields_bytes(efs.drop_last()) + spec_extra_field_bytes(efs.last())
    }
}

/// The serialized form of a local file header.
pub open spec fn spec_lfh_bytes(h: LocalFileHeaderV) -> Seq<u8> {
    spec_u32_to_le_bytes(h.signature) + spec_u16_to_le_bytes(h.version_needed)
        + spec_u16_to_le_bytes(h.flags.0) + spec_u16_to_le_bytes(h.compression_method)
        + spec_u16_to_le_bytes(h.last_mod_time) + spec_u16_to_le_bytes(h.last_mod_date)
        + spec_u32_to_le_bytes(h.crc32) + spec_u32_to_le_bytes(h.compressed_size)
        + spec_u32_to_le_bytes(h.uncompressed_size) + spec_u16_to_le_bytes(h.filename_length)
        + spec_u16_to_le_bytes(h.extra_field_length) + h.filename + spec_extra_fields_bytes(
        h.extra_fields,
    )
}

/// The serialized form of a central directory header.
pub open spec fn spec_cdh_bytes(h: CentralDirectoryHeaderV) -> Seq<u8> {
    spec_u32_to_le_bytes(h.signature) + spec_u16_to_le_bytes(h.version_made_by)
        + spec_u16_to_le_bytes(h.version_needed) + spec_u16_to_le_bytes(h.flags.0)
        + spec_u16_to_le_bytes(h.compression_method) + spec_u16_to_le_bytes(h.last_mod_time)
        + spec_u16_to_le_bytes(h.last_mod_date) + spec_u32_to_le_bytes(h.crc32)
        + spec_u32_to_le_bytes(h.compressed_size) + spec_u32_to_le_bytes(h.uncompressed_size)
        + spec_u16_to_le_bytes(h.filename_length) + spec_u16_to_le_bytes(h.extra_field_length)
        + spec_u16_to_le_bytes(h.file_comment_length) + spec_u16_to_le_bytes(h.disk_number_start)
        + spec_u16_to_le_bytes(h.internal_file_attributes) + spec_u32_to_le_bytes(
        h.external_file_attributes,
    ) + spec_u32_to_le_bytes(h.local_header_offset) + h.filename + spec_extra_fields_bytes(
        h.extra_fields,
    ) + h.file_comment
}

/// The serialized form of the fixed part of a ZIP64 EOCD record.
pub open spec fn spec_zip64_eocd_header_bytes(h: Zip64EndOfCentralDirectoryHeader) -> Seq<u8> {
    spec_u32_to_le_bytes(h.signature) + spec_u64_to_le_bytes(h.size_of_record)
        + spec_u16_to_le_bytes(h.version_made_by) + spec_u16_to_le_bytes(h.version_needed)
        + spec_u32_to_le_bytes(h.disk_number) + spec_u32_to_le_bytes(h.disk_number_with_eocd)
        + spec_u64_to_le_bytes(h.total_entries_on_disk) + spec_u64_to_le_bytes(h.total_entries)
        + spec_u64_to_le_bytes(h.central_directory_size) + spec_u64_to_le_bytes(
        h.central_directory_offset,
    )
}

/// The serialized form of a ZIP64 EOCD locator.
pub open spec fn spec_zip64_locator_bytes(l: Zip64EndOfCentralDirectoryLocator) -> Seq<u8> {
    spec_u32_to_le_bytes(l.signature) + spec_u32_to_le_bytes(l.disk_with_eocd)
        + spec_u64_to_le_bytes(l.eocd_offset) + spec_u32_to_le_bytes(l.total_disks)
}

/// The serialized form of an EOCD record.
pub open spec fn spec_eocd_bytes(e: EndOfCentralDirectoryV) -> Seq<u8> {
    spec_u32_to_le_bytes(e.signature) + spec_u16_to_le_bytes(e.disk_number)
        + spec_u16_to_le_bytes(e.disk_number_with_eocd) + spec_u16_to_le_bytes(e.entries_on_disk)
        + spec_u16_to_le_bytes(e.total_entries) + spec_u32_to_le_bytes(e.central_directory_size)
        + spec_u32_to_le_bytes(e.central_directory_offset) + spec_u16_to_le_bytes(e.comment_length)
        + e.comment
}

/// Append a little-endian 16-bit value.
fn push_u16(w: &mut Vec<u8>, x: u16)
    ensures
        final(w)@ == old(w)@ + spec_u16_to_le_bytes(x),
{
    let mut b = u16_to_le_bytes(x);
    w.append(&mut b);
}

/// Append a little-endian 32-bit value.
fn push_u32(w: &mut Vec<u8>, x: u32)
    ensures
        final(w)@ == old(w)@ + spec_u32_to_le_bytes(x),
{
    let mut b = u32_to_le_bytes(x);
    w.append(&mut b);
}

/// Append a little-endian 64-bit value.
fn push_u64(w: &mut Vec<u8>, x: u64)
    ensures
        final(w)@ == old(w)@ + spec_u64_to_le_bytes(x),
{
    let mut b = u64_to_le_bytes(x);
    w.append(&mut b);
}

/// Append the serialized extra fields.
#[verifier::loop_isolation(false)]
fn push_extra_fields(w: &mut Vec<u8>, efs: &Vec<ExtraField>)
    ensures
        final(w)@ == old(w)@ + spec_extra_fields_bytes(extra_fields_view(efs@)),
{
    let ghost base = w@;
    let ghost all = extra_fields_view(efs@);
    let n = efs.len();
    proof {
        assert(all.take(0) =~= Seq::<ExtraFieldV>::empty());
        assert(w@ =~= base + spec_extra_fields_bytes(all.take(0)));
    }
    for i in 0..n
        invariant
            n == efs@.len(),
            w@ == base + spec_extra_fields_bytes(all.take(i as int)),
    {
        push_u16(w, efs[i].tag);
        push_u16(w, efs[i].size);
        w.extend_from_slice(efs[i].data.as_slice());
        proof {
            assert(all.take(i + 1).drop_last() =~= all.take(i as int));
            assert(all.take(i + 1).last() == all[i as int]);
            assert(all[i as int] == efs@[i as int]@);
            assert(w@ =~= base + spec_extra_fields_bytes(all.take(i + 1)));
        }
    }
    proof {
        assert(all.take(n as int) =~= all);
    }
}

/// Whether an extra field survives the rebuild: the ZIP64 and
/// Unicode-path extras are stripped, everything else passes through.
pub open spec fn spec_keep_extra(ef: ExtraFieldV) -> bool {
    ef.tag != ZIP64_EXTRA_TAG && ef.tag != UNICODE_PATH_EXTRA_TAG
}

/// The extra fields that survive the rebuild, in their original order.
pub open spec fn spec_kept_extras(efs: Seq<ExtraFieldV>) -> Seq<ExtraFieldV>
    decreases efs.len(),
{
    if efs.len() == 0 {
        Seq::empty()
    } else {
        let prefix = spec_kept_extras(efs.drop_last());
        if spec_keep_extra(efs.last()) {
            prefix.push(efs.last())
        } else {
            prefix
        }
    }
}

/// 16-bit wrapping addition.
pub open spec fn add_u16_wrap(a: u16, b: int) -> u16 {
    ((a + b) % 0x10000) as u16
}

/// The declared extra-field length of a header holding these extras: the
/// 16-bit sum of each record's four prefix bytes and declared size.
pub open spec fn spec_extra_total_len(efs: Seq<ExtraFieldV>) -> u16
    decreases efs.len(),
{
    if efs.len() == 0 {
        0u16
    } else {
        add_u16_wrap(spec_extra_total_len(efs.drop_last()), 4 + efs.last().size)
    }
}

/// The larger of two 16-bit values.
pub open spec fn max_u16(a: u16, b: u16) -> u16 {
    if a >= b {
        a
    } else {
        b
    }
}

/// The version-needed floor of a rebuilt entry: the larger of the two
/// headers' declared values, and at least 20.
pub open spec fn spec_base_version_needed(e: ZipFileEntryV) -> u16 {
    max_u16(max_u16(e.cdh.version_needed, e.lfh.version_needed), 20)
}

/// The flags of a rebuilt header: bit 11 (UTF-8) set, bit 3 (data
/// descriptor) cleared, everything else preserved. 0xFFF7 is the 16-bit
/// mask with only bit 3 clear.
pub open spec fn spec_rebuilt_flags(f: GeneralPurposeBitFlag) -> GeneralPurposeBitFlag {
    GeneralPurposeBitFlag((f.0 | 0x0800) & 0xFFF7)
}

/// Flag law: every rebuilt header has the UTF-8 flag set and the
/// data-descriptor flag cleared.
pub proof fn lemma_rebuilt_flags(f: GeneralPurposeBitFlag)
    ensures
        spec_is_utf8_flag(spec_rebuilt_flags(f)),
        !spec_has_data_descriptor(spec_rebuilt_flags(f)),
{
    let x = f.0;
    assert(((x | 0x0800) & 0xFFF7) & 0x0800 != 0) by (bit_vector);
    assert(((x | 0x0800) & 0xFFF7) & 0x0008 == 0) by (bit_vector);
}

/// The filename bytes of a rebuilt entry: the UTF-8 encoding of the
/// inspected string, or the selected source's original bytes when
/// decoding was not possible.
pub open spec fn spec_rebuilt_name(ie: InspectedEntryV) -> Seq<u8> {
    match ie.filename.decoded {
        Some(d) => encode_utf8(d.string),
        None => match ie.filename.original_bytes {
            Some(b) => b,
            None => Seq::empty(),
        },
    }
}

/// Whether a rebuilt entry needs the ZIP64 form in its local file header:
/// either of its true sizes reaches the 32-bit sentinel.
pub open spec fn spec_lfh_needs_zip64(e: ZipFileEntryV) -> bool {
    spec_effective_compressed_size(e.cdh) >= 0xFFFFFFFF || spec_effective_uncompressed_size(e.cdh)
        >= 0xFFFFFFFF
}

/// The rebuilt local file header of an entry: stripped extras, rewritten
/// flags and filename, sizes inline or ZIP64-promoted (then both 64-bit
/// sizes stand in a fresh leading 0x0001 extra, uncompressed first), and
/// the CDH's CRC-32 copied in.
pub open spec fn spec_rebuild_lfh(e: ZipFileEntryV, name: Seq<u8>) -> LocalFileHeaderV {
    let unc = spec_effective_uncompressed_size(e.cdh);
    let comp = spec_effective_compressed_size(e.cdh);
    let need64 = spec_lfh_needs_zip64(e);
    let kept = spec_kept_extras(e.lfh.extra_fields);
    let extras = if need64 {
        seq![
            ExtraFieldV {
                tag: ZIP64_EXTRA_TAG,
                size: 16u16,
                data: spec_u64_to_le_bytes(unc) + spec_u64_to_le_bytes(comp),
            },
        ] + kept
    } else {
        kept
    };
    LocalFileHeaderV {
        signature: 0x04034b50u32,
        version_needed: if need64 {
            max_u16(spec_base_version_needed(e), 45)
        } else {
            spec_base_version_needed(e)
        },
        flags: spec_rebuilt_flags(e.lfh.flags),
        compression_method: e.lfh.compression_method,
        last_mod_time: e.lfh.last_mod_time,
        last_mod_date: e.lfh.last_mod_date,
        crc32: e.cdh.crc32,
        compressed_size: if need64 {
            0xFFFFFFFFu32
        } else {
            comp as u32
        },
        uncompressed_size: if need64 {
            0xFFFFFFFFu32
        } else {
            unc as u32
        },
        filename_length: name.len() as u16,
        extra_field_length: spec_extra_total_len(extras),
        filename: name,
        extra_fields: extras,
        zip64: None,
        unicode_path: None,
    }
}

/// The ZIP64 extra data of a rebuilt central directory header: exactly
/// the saturated fields, in the fixed order uncompressed size,
/// compressed size, local header offset.
pub open spec fn spec_cdh_zip64_data(unc: u64, comp: u64, lfh_offset: int) -> Seq<u8> {
    (if unc >= 0xFFFFFFFF {
        spec_u64_to_le_bytes(unc)
    } else {
        Seq::empty()
    }) + (if comp >= 0xFFFFFFFF {
        spec_u64_to_le_bytes(comp)
    } else {
        Seq::empty()
    }) + (if lfh_offset >= 0xFFFFFFFF {
        spec_u64_to_le_bytes(lfh_offset as u64)
    } else {
        Seq::empty()
    })
}

/// Whether a rebuilt central directory header needs the ZIP64 form: any
/// of its true sizes or its rewritten local-header offset reaches the
/// 32-bit sentinel.
pub open spec fn spec_cdh_needs_zip64(e: ZipFileEntryV, lfh_offset: int) -> bool {
    spec_effective_compressed_size(e.cdh) >= 0xFFFFFFFF || spec_effective_uncompressed_size(e.cdh)
        >= 0xFFFFFFFF || lfh_offset >= 0xFFFFFFFF
}

/// The rebuilt central directory header of an entry: stripped extras,
/// rewritten flags and filename, version-made-by forced to 6.3 with the
/// original host byte, fields individually ZIP64-promoted into a fresh
/// leading 0x0001 extra, and times, attributes and comment preserved.
pub open spec fn spec_rebuild_cdh(e: ZipFileEntryV, name: Seq<u8>, lfh_offset: int)
    -> CentralDirectoryHeaderV {
    let unc = spec_effective_uncompressed_size(e.cdh);
    let comp = spec_effective_compressed_size(e.cdh);
    let need64 = spec_cdh_needs_zip64(e, lfh_offset);
    let kept = spec_kept_extras(e.cdh.extra_fields);
    let zdata = spec_cdh_zip64_data(unc, comp, lfh_offset);
    let extras = if need64 {
        seq![ExtraFieldV { tag: ZIP64_EXTRA_TAG, size: zdata.len() as u16, data: zdata }] + kept
    } else {
        kept
    };
    CentralDirectoryHeaderV {
        signature: 0x02014b50u32,
        version_made_by: (e.cdh.version_made_by & 0xFF00) | 63,
        version_needed: if need64 {
            max_u16(spec_base_version_needed(e), 45)
        } else {
            spec_base_version_needed(e)
        },
        flags: spec_rebuilt_flags(e.cdh.flags),
        compression_method: e.cdh.compression_method,
        last_mod_time: e.cdh.last_mod_time,
        last_mod_date: e.cdh.last_mod_date,
        crc32: e.cdh.crc32,
        compressed_size: if comp >= 0xFFFFFFFF {
            0xFFFFFFFFu32
        } else {
            comp as u32
        },
        uncompressed_size: if unc >= 0xFFFFFFFF {
            0xFFFFFFFFu32
        } else {
            unc as u32
        },
        filename_length: name.len() as u16,
        extra_field_length: spec_extra_total_len(extras),
        file_comment_length: e.cdh.file_comment_length,
        disk_number_start: 0u16,
        internal_file_attributes: e.cdh.internal_file_attributes,
        external_file_attributes: e.cdh.external_file_attributes,
        local_header_offset: if lfh_offset >= 0xFFFFFFFF {
            0xFFFFFFFFu32
        } else {
            lfh_offset as u32
        },
        filename: name,
        extra_fields: extras,
        file_comment: e.cdh.file_comment,
        zip64: None,
        unicode_path: None,
    }
}

/// Whether an entry index is omitted from the rebuild.
pub open spec fn spec_omitted(omit: Seq<u64>, idx: int) -> bool {
    omit.contains(idx as u64)
}

/// What the local-file section remembers about a retained entry for the
/// central directory pass.
#[verifier::ext_equal]
pub ghost struct CdInfoV {
    pub lfh_offset: int,
    pub name: Seq<u8>,
    pub entry: ZipFileEntryV,
}

/// The local-file section of the plan over the first `i` entries: for
/// each retained entry, a literal chunk holding its rebuilt LFH followed
/// by a reference to its payload bytes in the source. Returns the chunks,
/// the output offset after them, and the bookkeeping for the central
/// directory pass.
pub open spec fn spec_lfh_section(
    entries: Seq<ZipFileEntryV>,
    inspected: Seq<InspectedEntryV>,
    omit: Seq<u64>,
    i: int,
) -> (Seq<RebuildChunkV>, int, Seq<CdInfoV>)
    decreases i,
{
    if i <= 0 {
        (Seq::empty(), 0int, Seq::empty())
    } else {
        let (chunks, off, infos) = spec_lfh_section(entries, inspected, omit, i - 1);
        if spec_omitted(omit, i - 1) {
            (chunks, off, infos)
        } else {
            let e = entries[i - 1];
            let name = spec_rebuilt_name(inspected[i - 1]);
            let lfh_bytes = spec_lfh_bytes(spec_rebuild_lfh(e, name));
            let comp = spec_effective_compressed_size(e.cdh);
            (
                chunks + seq![
                    RebuildChunkV::Binary(lfh_bytes),
                    RebuildChunkV::Reference { offset: e.file_offset, size: comp },
                ],
                off + lfh_bytes.len() + comp,
                infos.push(CdInfoV { lfh_offset: off, name, entry: e }),
            )
        }
    }
}

/// The central-directory section of the plan over the first `i` retained
/// entries: one literal chunk per rebuilt CDH. Returns the chunks and
/// their total length.
pub open spec fn spec_cd_section(infos: Seq<CdInfoV>, i: int) -> (Seq<RebuildChunkV>, int)
    decreases i,
{
    if i <= 0 {
        (Seq::empty(), 0int)
    } else {
        let (chunks, len) = spec_cd_section(infos, i - 1);
        let info = infos[i - 1];
        let bytes = spec_cdh_bytes(spec_rebuild_cdh(info.entry, info.name, info.lfh_offset));
        (chunks.push(RebuildChunkV::Binary(bytes)), len + bytes.len())
    }
}

/// Whether the rebuilt archive needs a ZIP64 end-of-directory tail.
pub open spec fn spec_needs_zip64_eocd(cd_start: int, cd_size: int, total_entries: int) -> bool {
    cd_start >= 0xFFFFFFFF || cd_size >= 0xFFFFFFFF || total_entries >= 0xFFFF
}

/// The fresh ZIP64 EOCD record of a rebuilt archive.
pub open spec fn spec_rebuilt_zip64_eocd(cd_start: int, cd_size: int, total_entries: int)
    -> Zip64EndOfCentralDirectoryHeader {
    Zip64EndOfCentralDirectoryHeader {
        signature: 0x06064b50u32,
        size_of_record: 44u64,
        version_made_by: 63u16,
        version_needed: 45u16,
        disk_number: 0u32,
        disk_number_with_eocd: 0u32,
        total_entries_on_disk: total_entries as u64,
        total_entries: total_entries as u64,
        central_directory_size: cd_size as u64,
        central_directory_offset: cd_start as u64,
    }
}

/// The fresh ZIP64 EOCD locator of a rebuilt archive.
pub open spec fn spec_rebuilt_zip64_locator(zip64_eocd_offset: int)
    -> Zip64EndOfCentralDirectoryLocator {
    Zip64EndOfCentralDirectoryLocator {
        signature: 0x07064b50u32,
        disk_with_eocd: 0u32,
        eocd_offset: zip64_eocd_offset as u64,
        total_disks: 1u32,
    }
}

/// The rebuilt EOCD record: counts and directory coordinates saturated
/// where they exceed their 16- or 32-bit range, the archive comment
/// preserved.
pub open spec fn spec_rebuilt_eocd(
    z: ZipFileV,
    cd_start: int,
    cd_size: int,
    total_entries: int,
) -> EndOfCentralDirectoryV {
    EndOfCentralDirectoryV {
        signature: 0x06054b50u32,
        disk_number: 0u16,
        disk_number_with_eocd: 0u16,
        entries_on_disk: if total_entries >= 0xFFFF {
            0xFFFFu16
        } else {
            total_entries as u16
        },
        total_entries: if total_entries >= 0xFFFF {
            0xFFFFu16
        } else {
            total_entries as u16
        },
        central_directory_size: if cd_size >= 0xFFFFFFFF {
            0xFFFFFFFFu32
        } else {
            cd_size as u32
        },
        central_directory_offset: if cd_start >= 0xFFFFFFFF {
            0xFFFFFFFFu32
        } else {
            cd_start as u32
        },
        comment_length: z.eocd.comment_length,
        comment: z.eocd.comment,
    }
}

/// The whole rebuild plan: the local-file section, the rewritten central
/// directory, a fresh ZIP64 EOCD record and locator when the directory's
/// coordinates ask for them, and the EOCD record last. Returns the
/// chunks and the total output length.
pub open spec fn spec_rebuild_plan(z: ZipFileV, insp: InspectedArchiveV, omit: Seq<u64>) -> (
    Seq<RebuildChunkV>,
    int,
) {
    let (lfh_chunks, cd_start, infos) = spec_lfh_section(
        z.entries,
        insp.entries,
        omit,
        z.entries.len() as int,
    );
    let (cd_chunks, cd_size) = spec_cd_section(infos, infos.len() as int);
    let total_entries = infos.len() as int;
    let cd_end = cd_start + cd_size;
    let eocd_bytes = spec_eocd_bytes(spec_rebuilt_eocd(z, cd_start, cd_size, total_entries));
    if spec_needs_zip64_eocd(cd_start, cd_size, total_entries) {
        let z64_bytes = spec_zip64_eocd_header_bytes(
            spec_rebuilt_zip64_eocd(cd_start, cd_size, total_entries),
        );
        let loc_bytes = spec_zip64_locator_bytes(spec_rebuilt_zip64_locator(cd_end));
        (
            lfh_chunks + cd_chunks + seq![
                RebuildChunkV::Binary(z64_bytes),
                RebuildChunkV::Binary(loc_bytes),
                RebuildChunkV::Binary(eocd_bytes),
            ],
            cd_end + z64_bytes.len() + loc_bytes.len() + eocd_bytes.len(),
        )
    } else {
        (
            lfh_chunks + cd_chunks + seq![RebuildChunkV::Binary(eocd_bytes)],
            cd_end + eocd_bytes.len(),
        )
    }
}

/// The result of a rebuild: the configuration's inspection error when
/// inspection fails (the inspection runs with the original bytes
/// retained, so a filename that cannot be decoded falls back to its
/// source bytes); a size overflow when the output would not fit in 64
/// bits; otherwise the chunk plan and the total output length.
pub open spec fn spec_rebuild(z: ZipFileV, c: InspectConfigV, omit: Seq<u64>) -> Result<
    (Seq<RebuildChunkV>, u64),
    RebuildErrorV,
> {
    let c2 = InspectConfigV { needs_original_bytes: true, ..c };
    match spec_inspect(z, c2) {
        Err(e) => Err(RebuildErrorV::Inspect(e)),
        Ok(insp) => {
            let (chunks, total) = spec_rebuild_plan(z, insp, omit);
            if total > u64::MAX {
                Err(RebuildErrorV::SizeOverflow)
            } else {
                Ok((chunks, total as u64))
            }
        },
    }
}

/// The output offset of the local-file section is never negative.
pub proof fn lemma_lfh_section_nonneg(
    entries: Seq<ZipFileEntryV>,
    inspected: Seq<InspectedEntryV>,
    omit: Seq<u64>,
    i: int,
)
    ensures
        spec_lfh_section(entries, inspected, omit, i).1 >= 0,
    decreases i,
{
    if i > 0 {
        lemma_lfh_section_nonneg(entries, inspected, omit, i - 1);
    }
}

/// The output offset of the local-file section never decreases as more
/// entries are taken.
pub proof fn lemma_lfh_section_monotone(
    entries: Seq<ZipFileEntryV>,
    inspected: Seq<InspectedEntryV>,
    omit: Seq<u64>,
    i: int,
    j: int,
)
    requires
        0 <= i <= j,
    ensures
        0 <= spec_lfh_section(entries, inspected, omit, i).1,
        spec_lfh_section(entries, inspected, omit, i).1 <= spec_lfh_section(
            entries,
            inspected,
            omit,
            j,
        ).1,
    decreases j - i,
{
    lemma_lfh_section_nonneg(entries, inspected, omit, i);
    if i < j {
        lemma_lfh_section_monotone(entries, inspected, omit, i, j - 1);
    }
}

/// The length of the central-directory section is never negative.
pub proof fn lemma_cd_section_nonneg(infos: Seq<CdInfoV>, i: int)
    ensures
        spec_cd_section(infos, i).1 >= 0,
    decreases i,
{
    if i > 0 {
        lemma_cd_section_nonneg(infos, i - 1);
    }
}

/// The length of the central-directory section never decreases as more
/// entries are taken.
pub proof fn lemma_cd_section_monotone(infos: Seq<CdInfoV>, i: int, j: int)
    requires
        0 <= i <= j,
    ensures
        0 <= spec_cd_section(infos, i).1,
        spec_cd_section(infos, i).1 <= spec_cd_section(infos, j).1,
    decreases j - i,
{
    lemma_cd_section_nonneg(infos, i);
    if i < j {
        lemma_cd_section_monotone(infos, i, j - 1);
    }
}

impl crate::parse::LocalFileHeader {
    /// Serialize this local file header.
    pub fn to_bytes(&self) -> (r: Vec<u8>)
        ensures
            r@ == spec_lfh_bytes(self@),
    {
        let mut w: Vec<u8> = Vec::new();
        push_u32(&mut w, self.signature);
        push_u16(&mut w, self.version_needed);
        push_u16(&mut w, self.flags.0);
        push_u16(&mut w, self.compression_method);
        push_u16(&mut w, self.last_mod_time);
        push_u16(&mut w, self.last_mod_date);
        push_u32(&mut w, self.crc32);
        push_u32(&mut w, self.compressed_size);
        push_u32(&mut w, self.uncompressed_size);
        push_u16(&mut w, self.filename_length);
        push_u16(&mut w, self.extra_field_length);
        w.extend_from_slice(self.filename.as_slice());
        push_extra_fields(&mut w, &self.extra_fields);
        proof {
            assert(w@ =~= spec_lfh_bytes(self@));
        }
        w
    }
}

impl crate::parse::CentralDirectoryHeader {
    /// Serialize this central directory header.
    pub fn to_bytes(&self) -> (r: Vec<u8>)
        ensures
            r@ == spec_cdh_bytes(self@),
    {
        let mut w: Vec<u8> = Vec::new();
        push_u32(&mut w, self.signature);
        push_u16(&mut w, self.version_made_by);
        push_u16(&mut w, self.version_needed);
        push_u16(&mut w, self.flags.0);
        push_u16(&mut w, self.compression_method);
        push_u16(&mut w, self.last_mod_time);
        push_u16(&mut w, self.last_mod_date);
        push_u32(&mut w, self.crc32);
        push_u32(&mut w, self.compressed_size);
        push_u32(&mut w, self.uncompressed_size);
        push_u16(&mut w, self.filename_length);
        push_u16(&mut w, self.extra_field_length);
        push_u16(&mut w, self.file_comment_length);
        push_u16(&mut w, self.disk_number_start);
        push_u16(&mut w, self.internal_file_attributes);
        push_u32(&mut w, self.external_file_attributes);
        push_u32(&mut w, self.local_header_offset);
        w.extend_from_slice(self.filename.as_slice());
        push_extra_fields(&mut w, &self.extra_fields);
        w.extend_from_slice(self.file_comment.as_slice());
        proof {
            assert(w@ =~= spec_cdh_bytes(self@));
        }
        w
    }
}

impl Zip64EndOfCentralDirectoryHeader {
    /// Serialize the fixed part of this ZIP64 EOCD record.
    pub fn to_bytes(&self) -> (r: Vec<u8>)
        ensures
            r@ == spec_zip64_eocd_header_bytes(*self),
    {
        let mut w: Vec<u8> = Vec::new();
        push_u32(&mut w, self.signature);
        push_u64(&mut w, self.size_of_record);
        push_u16(&mut w, self.version_made_by);
        push_u16(&mut w, self.version_needed);
        push_u32(&mut w, self.disk_number);
        push_u32(&mut w, self.disk_number_with_eocd);
        push_u64(&mut w, self.total_entries_on_disk);
        push_u64(&mut w, self.total_entries);
        push_u64(&mut w, self.central_directory_size);
        push_u64(&mut w, self.central_directory_offset);
        proof {
            assert(w@ =~= spec_zip64_eocd_header_bytes(*self));
        }
        w
    }
}

impl Zip64EndOfCentralDirectoryLocator {
    /// Serialize this ZIP64 EOCD locator.
    pub fn to_bytes(&self) -> (r: Vec<u8>)
        ensures
            r@ == spec_zip64_locator_bytes(*self),
    {
        let mut w: Vec<u8> = Vec::new();
        push_u32(&mut w, self.signature);
        push_u32(&mut w, self.disk_with_eocd);
        push_u64(&mut w, self.eocd_offset);
        push_u32(&mut w, self.total_disks);
        proof {
            assert(w@ =~= spec_zip64_locator_bytes(*self));
        }
        w
    }
}

impl crate::parse::EndOfCentralDirectory {
    /// Serialize this EOCD record.
    pub fn to_bytes(&self) -> (r: Vec<u8>)
        ensures
            r@ == spec_eocd_bytes(self@),
    {
        let mut w: Vec<u8> = Vec::new();
        push_u32(&mut w, self.signature);
        push_u16(&mut w, self.disk_number);
        push_u16(&mut w, self.disk_number_with_eocd);
        push_u16(&mut w, self.entries_on_disk);
        push_u16(&mut w, self.total_entries);
        push_u32(&mut w, self.central_directory_size);
        push_u32(&mut w, self.central_directory_offset);
        push_u16(&mut w, self.comment_length);
        w.extend_from_slice(self.comment.as_slice());
        proof {
            assert(w@ =~= spec_eocd_bytes(self@));
        }
        w
    }
}

/// The extra fields that survive the rebuild.
#[verifier::loop_isolation(false)]
fn kept_extras(efs: &Vec<ExtraField>) -> (r: Vec<ExtraField>)
    ensures
        extra_fields_view(r@) == spec_kept_extras(extra_fields_view(efs@)),
{
    let ghost all = extra_fields_view(efs@);
    let mut out: Vec<ExtraField> = Vec::new();
    let n = efs.len();
    proof {
        assert(all.take(0) =~= Seq::<ExtraFieldV>::empty());
        assert(extra_fields_view(out@) =~= spec_kept_extras(all.take(0)));
    }
    for i in 0..n
        invariant
            n == efs@.len(),
            extra_fields_view(out@) == spec_kept_extras(all.take(i as int)),
    {
        let ef = &efs[i];
        proof {
            assert(all.take(i + 1).drop_last() =~= all.take(i as int));
            assert(all.take(i + 1).last() == all[i as int]);
            assert(all[i as int] == efs@[i as int]@);
        }
        if ef.tag != ZIP64_EXTRA_TAG && ef.tag != UNICODE_PATH_EXTRA_TAG {
            let ghost before = out@;
            out.push(ExtraField { tag: ef.tag, size: ef.size, data: slice_to_vec(ef.data.as_slice()) });
            proof {
                assert(extra_fields_view(out@) =~= extra_fields_view(before).push(efs@[i as int]@));
            }
        }
    }
    proof {
        assert(all.take(n as int) =~= all);
    }
    out
}

/// The declared extra-field length of a header holding these extras.
#[verifier::loop_isolation(false)]
fn extra_total_len(efs: &Vec<ExtraField>) -> (r: u16)
    ensures
        r == spec_extra_total_len(extra_fields_view(efs@)),
{
    let ghost all = extra_fields_view(efs@);
    let mut acc: u16 = 0;
    let n = efs.len();
    proof {
        assert(all.take(0) =~= Seq::<ExtraFieldV>::empty());
    }
    for i in 0..n
        invariant
            n == efs@.len(),
            acc == spec_extra_total_len(all.take(i as int)),
    {
        acc = (((acc as u32) + 4 + (efs[i].size as u32)) % 0x10000) as u16;
        proof {
            assert(all.take(i + 1).drop_last() =~= all.take(i as int));
            assert(all.take(i + 1).last() == all[i as int]);
            assert(all[i as int] == efs@[i as int]@);
        }
    }
    proof {
        assert(all.take(n as int) =~= all);
    }
    acc
}

/// The larger of two 16-bit values.
fn max16(a: u16, b: u16) -> (r: u16)
    ensures
        r == max_u16(a, b),
{
    if a >= b {
        a
    } else {
        b
    }
}

/// Whether the omit list contains an index.
#[verifier::loop_isolation(false)]
fn omit_contains(omit: &[u64], idx: u64) -> (r: bool)
    ensures
        r == omit@.contains(idx),
{
    let n = omit.len();
    for i in 0..n
        invariant
            forall|j: int| 0 <= j < i ==> omit@[j] != idx,
    {
        if omit[i] == idx {
            proof {
                assert(omit@.contains(idx));
            }
            return true;
        }
    }
    proof {
        assert(forall|j: int| 0 <= j < omit@.len() ==> omit@[j] != idx);
    }
    false
}

/// The same configuration with the pre-decode bytes retained, so that a
/// filename that cannot be decoded can fall back to its source bytes.
fn config_with_original_bytes(c: &InspectConfig) -> (r: InspectConfig)
    ensures
        r@ == (InspectConfigV { needs_original_bytes: true, ..c@ }),
{
    let encoding = match &c.encoding {
        EncodingSelectionStrategy::PreferOverallDetected { fallback_encoding, ignore_utf8_flag } => {
            EncodingSelectionStrategy::PreferOverallDetected {
                fallback_encoding: match fallback_encoding {
                    Some(l) => Some(l.clone()),
                    None => None,
                },
                ignore_utf8_flag: *ignore_utf8_flag,
            }
        },
        EncodingSelectionStrategy::EntryDetected { fallback_encoding, ignore_utf8_flag } => {
            EncodingSelectionStrategy::EntryDetected {
                fallback_encoding: match fallback_encoding {
                    Some(l) => Some(l.clone()),
                    None => None,
                },
                ignore_utf8_flag: *ignore_utf8_flag,
            }
        },
        EncodingSelectionStrategy::ForceSpecified { encoding, ignore_utf8_flag } => {
            EncodingSelectionStrategy::ForceSpecified {
                encoding: encoding.clone(),
                ignore_utf8_flag: *ignore_utf8_flag,
            }
        },
    };
    let r = InspectConfig {
        encoding,
        field_selection_strategy: c.field_selection_strategy,
        ignore_crc32_mismatch: c.ignore_crc32_mismatch,
        needs_original_bytes: true,
        wave_dash_handling: c.wave_dash_handling,
        wave_dash_normalization: c.wave_dash_normalization,
    };
    proof {
        assert(r@ =~= (InspectConfigV { needs_original_bytes: true, ..c@ }));
    }
    r
}

/// Build the rebuilt local file header of a retained entry.
fn build_rebuilt_lfh(entry: &crate::parse::ZipFileEntry, name: Vec<u8>) -> (r:
    crate::parse::LocalFileHeader)
    ensures
        r@ == spec_rebuild_lfh(entry@, name@),
{
    let ghost name_v = name@;
    let unc = crate::parse::effective_uncompressed_size_of(&entry.cdh);
    let comp = crate::parse::effective_compressed_size_of(&entry.cdh);
    let need64 = comp >= 0xFFFFFFFF || unc >= 0xFFFFFFFF;
    let mut extras = kept_extras(&entry.lfh.extra_fields);
    let ghost kept_v = extra_fields_view(extras@);
    if need64 {
        let mut data: Vec<u8> = Vec::new();
        push_u64(&mut data, unc);
        push_u64(&mut data, comp);
        let mut v: Vec<ExtraField> = Vec::new();
        v.push(ExtraField { tag: ZIP64_EXTRA_TAG, size: 16, data });
        v.append(&mut extras);
        extras = v;
        proof {
            assert(extra_fields_view(extras@) =~= seq![
                ExtraFieldV {
                    tag: ZIP64_EXTRA_TAG,
                    size: 16u16,
                    data: spec_u64_to_le_bytes(unc) + spec_u64_to_le_bytes(comp),
                },
            ] + kept_v);
        }
    }
    let base_vn = max16(max16(entry.cdh.version_needed, entry.lfh.version_needed), 20);
    let version_needed = if need64 {
        max16(base_vn, 45)
    } else {
        base_vn
    };
    let flags = GeneralPurposeBitFlag((entry.lfh.flags.0 | 0x0800) & 0xFFF7);
    let filename_length: u16 = #[verifier::truncate] (name.len() as u16);
    let extra_field_length = extra_total_len(&extras);
    let h = crate::parse::LocalFileHeader {
        signature: 0x04034b50,
        version_needed,
        flags,
        compression_method: entry.lfh.compression_method,
        last_mod_time: entry.lfh.last_mod_time,
        last_mod_date: entry.lfh.last_mod_date,
        crc32: entry.cdh.crc32,
        compressed_size: if need64 {
            0xFFFFFFFF
        } else {
            comp as u32
        },
        uncompressed_size: if need64 {
            0xFFFFFFFF
        } else {
            unc as u32
        },
        filename_length,
        extra_field_length,
        filename: name,
        extra_fields: extras,
        zip64: None,
        unicode_path: None,
    };
    proof {
        assert(h@ =~= spec_rebuild_lfh(entry@, name_v));
    }
    h
}

/// Build the rebuilt central directory header of a retained entry.
fn build_rebuilt_cdh(
    entry: &crate::parse::ZipFileEntry,
    name: Vec<u8>,
    lfh_offset: u64,
) -> (r: crate::parse::CentralDirectoryHeader)
    ensures
        r@ == spec_rebuild_cdh(entry@, name@, lfh_offset as int),
{
    let ghost name_v = name@;
    let unc = crate::parse::effective_uncompressed_size_of(&entry.cdh);
    let comp = crate::parse::effective_compressed_size_of(&entry.cdh);
    let need64 = comp >= 0xFFFFFFFF || unc >= 0xFFFFFFFF || lfh_offset >= 0xFFFFFFFF;
    let mut extras = kept_extras(&entry.cdh.extra_fields);
    let ghost kept_v = extra_fields_view(extras@);
    if need64 {
        let mut data: Vec<u8> = Vec::new();
        if unc >= 0xFFFFFFFF {
            push_u64(&mut data, unc);
        }
        if comp >= 0xFFFFFFFF {
            push_u64(&mut data, comp);
        }
        if lfh_offset >= 0xFFFFFFFF {
            push_u64(&mut data, lfh_offset);
        }
        proof {
            assert(data@ =~= spec_cdh_zip64_data(unc, comp, lfh_offset as int));
        }
        let size: u16 = #[verifier::truncate] (data.len() as u16);
        let mut v: Vec<ExtraField> = Vec::new();
        v.push(ExtraField { tag: ZIP64_EXTRA_TAG, size, data });
        v.append(&mut extras);
        extras = v;
        proof {
            let zdata = spec_cdh_zip64_data(unc, comp, lfh_offset as int);
            assert(extra_fields_view(extras@) =~= seq![
                ExtraFieldV { tag: ZIP64_EXTRA_TAG, size: zdata.len() as u16, data: zdata },
            ] + kept_v);
        }
    }
    let base_vn = max16(max16(entry.cdh.version_needed, entry.lfh.version_needed), 20);
    let version_needed = if need64 {
        max16(base_vn, 45)
    } else {
        base_vn
    };
    let flags = GeneralPurposeBitFlag((entry.cdh.flags.0 | 0x0800) & 0xFFF7);
    let filename_length: u16 = #[verifier::truncate] (name.len() as u16);
    let extra_field_length = extra_total_len(&extras);
    let h = crate::parse::CentralDirectoryHeader {
        signature: 0x02014b50,
        version_made_by: (entry.cdh.version_made_by & 0xFF00) | 63,
        version_needed,
        flags,
        compression_method: entry.cdh.compression_method,
        last_mod_time: entry.cdh.last_mod_time,
        last_mod_date: entry.cdh.last_mod_date,
        crc32: entry.cdh.crc32,
        compressed_size: if comp >= 0xFFFFFFFF {
            0xFFFFFFFF
        } else {
            comp as u32
        },
        uncompressed_size: if unc >= 0xFFFFFFFF {
            0xFFFFFFFF
        } else {
            unc as u32
        },
        filename_length,
        extra_field_length,
        file_comment_length: entry.cdh.file_comment_length,
        disk_number_start: 0,
        internal_file_attributes: entry.cdh.internal_file_attributes,
        external_file_attributes: entry.cdh.external_file_attributes,
        local_header_offset: if lfh_offset >= 0xFFFFFFFF {
            0xFFFFFFFF
        } else {
            lfh_offset as u32
        },
        filename: name,
        extra_fields: extras,
        file_comment: slice_to_vec(entry.cdh.file_comment.as_slice()),
        zip64: None,
        unicode_path: None,
    };
    proof {
        assert(h@ =~= spec_rebuild_cdh(entry@, name_v, lfh_offset as int));
    }
    h
}

/// What the local-file pass remembers about a retained entry.
struct CdInfo {
    /// Offset of the rebuilt LFH in the output.
    lfh_offset: u64,
    /// The rebuilt filename bytes.
    name: Vec<u8>,
    /// Index of the entry in the source archive.
    index: usize,
}

/// Rebuild an archive with UTF-8 filenames: inspect it (retaining the
/// source bytes for fallback), then emit, for every entry not named in
/// `omit_entries`, its rebuilt local file header followed by a reference
/// to its payload in the source archive; then the rewritten central
/// directory; a fresh ZIP64 EOCD record and locator when the directory's
/// coordinates ask for them; and the EOCD record last. Returns the chunk
/// plan and the total output length, an inspection error exactly when
/// the configuration names an unknown encoding label, and a size
/// overflow exactly when the output would not fit in 64 bits.
#[verifier::loop_isolation(false)]
#[verifier::rlimit(100)]
#[verifier::spinoff_prover]
pub fn rebuild(zip_file: &ZipFile, config: &InspectConfig, omit_entries: &[u64]) -> (r: Result<
    (Vec<RebuildChunk>, u64),
    RebuildError,
>)
    ensures
        match r {
            Ok(t) => spec_rebuild(zip_file@, config@, omit_entries@) matches Ok(s) && chunks_view(
                t.0@,
            ) == s.0 && t.1 == s.1,
            Err(e) => spec_rebuild(zip_file@, config@, omit_entries@) == Err::<
                (Seq<RebuildChunkV>, u64),
                _,
            >(e@),
        },
{
    let config2 = config_with_original_bytes(config);
    let inspected = match InspectedArchive::inspect(zip_file, &config2) {
        Ok(a) => a,
        Err(e) => {
            return Err(RebuildError::Inspect(e));
        },
    };
    let ghost z = zip_file@;
    let ghost insp = inspected@;
    let ghost omit = omit_entries@;
    proof {
        assert(spec_inspect(z, InspectConfigV { needs_original_bytes: true, ..config@ })
            == Ok::<_, ZipInspectErrorV>(insp));
        assert(insp.entries.len() == z.entries.len());
    }
    let n = zip_file.entries.len();
    let mut chunks: Vec<RebuildChunk> = Vec::new();
    let mut infos: Vec<CdInfo> = Vec::new();
    let mut current_offset: u64 = 0;
    proof {
        let sect0 = spec_lfh_section(z.entries, insp.entries, omit, 0);
        assert(chunks_view(chunks@) =~= sect0.0);
        assert(infos@.len() == sect0.2.len());
    }
    for i in 0..n
        invariant
            n == zip_file.entries@.len(),
            ({
                let sect = spec_lfh_section(z.entries, insp.entries, omit, i as int);
                &&& chunks_view(chunks@) == sect.0
                &&& current_offset as int == sect.1
                &&& infos@.len() == sect.2.len()
                &&& (forall|k: int|
                    0 <= k < infos@.len() ==> {
                        let info = #[trigger] infos@[k];
                        &&& info.lfh_offset as int == sect.2[k].lfh_offset
                        &&& info.name@ == sect.2[k].name
                        &&& info.index < n
                        &&& z.entries[info.index as int] == sect.2[k].entry
                    })
            }),
    {
        let ghost sect_i = spec_lfh_section(z.entries, insp.entries, omit, i as int);
        if !omit_contains(omit_entries, i as u64) {
            let entry = &zip_file.entries[i];
            let name: Vec<u8> = match &inspected.entries[i].filename.decoded {
                Some(d) => d.string.as_str().as_bytes_vec(),
                None => match &inspected.entries[i].filename.original_bytes {
                    Some(b) => slice_to_vec(b.as_slice()),
                    None => Vec::new(),
                },
            };
            proof {
                assert(insp.entries[i as int] == inspected.entries@[i as int]@);
                assert(name@ =~= spec_rebuilt_name(insp.entries[i as int]));
                assert(z.entries[i as int] == zip_file.entries@[i as int]@);
            }
            let lfh_offset = current_offset;
            let name2 = slice_to_vec(name.as_slice());
            let lfh = build_rebuilt_lfh(entry, name);
            let lfh_bytes = lfh.to_bytes();
            let lfh_len = lfh_bytes.len() as u64;
            let comp = crate::parse::effective_compressed_size_of(&entry.cdh);
            let ghost sect_n = spec_lfh_section(z.entries, insp.entries, omit, i + 1);
            proof {
                assert(sect_n.1 == sect_i.1 + spec_lfh_bytes(
                    spec_rebuild_lfh(z.entries[i as int], spec_rebuilt_name(insp.entries[i as int])),
                ).len() + spec_effective_compressed_size(z.entries[i as int].cdh));
            }
            let o1 = match current_offset.checked_add(lfh_len) {
                Some(v) => v,
                None => {
                    proof {
                        lemma_lfh_section_monotone(z.entries, insp.entries, omit, i + 1, n as int);
                        let sect_full = spec_lfh_section(z.entries, insp.entries, omit, n as int);
                        lemma_cd_section_nonneg(sect_full.2, sect_full.2.len() as int);
                    }
                    return Err(RebuildError::SizeOverflow);
                },
            };
            let o2 = match o1.checked_add(comp) {
                Some(v) => v,
                None => {
                    proof {
                        lemma_lfh_section_monotone(z.entries, insp.entries, omit, i + 1, n as int);
                        let sect_full = spec_lfh_section(z.entries, insp.entries, omit, n as int);
                        lemma_cd_section_nonneg(sect_full.2, sect_full.2.len() as int);
                    }
                    return Err(RebuildError::SizeOverflow);
                },
            };
            chunks.push(RebuildChunk::Binary(lfh_bytes));
            chunks.push(RebuildChunk::Reference { offset: entry.file_offset, size: comp });
            infos.push(CdInfo { lfh_offset, name: name2, index: i });
            current_offset = o2;
            proof {
                assert(chunks_view(chunks@) =~= sect_n.0);
                assert(infos@.len() == sect_n.2.len());
            }
        } else {
            proof {
                assert(spec_lfh_section(z.entries, insp.entries, omit, i + 1) == sect_i);
            }
        }
    }
    let ghost sect = spec_lfh_section(z.entries, insp.entries, omit, n as int);
    let ghost infos_v = sect.2;
    let cd_start = current_offset;
    let m = infos.len();
    proof {
        let cd0 = spec_cd_section(infos_v, 0);
        assert(chunks_view(chunks@) =~= sect.0 + cd0.0);
    }
    for k in 0..m
        invariant
            m == infos@.len(),
            ({
                let cd = spec_cd_section(infos_v, k as int);
                &&& chunks_view(chunks@) == sect.0 + cd.0
                &&& current_offset as int == cd_start as int + cd.1
            }),
    {
        let ghost cd_k = spec_cd_section(infos_v, k as int);
        let idx = infos[k].index;
        let entry = &zip_file.entries[idx];
        let name = slice_to_vec(infos[k].name.as_slice());
        let lfh_offset = infos[k].lfh_offset;
        proof {
            assert(z.entries[idx as int] == zip_file.entries@[idx as int]@);
            assert(infos_v[k as int].entry == z.entries[idx as int]);
        }
        proof {
            assert(infos@[k as int].name@ == infos_v[k as int].name);
            assert(infos@[k as int].lfh_offset as int == infos_v[k as int].lfh_offset);
        }
        let cdh = build_rebuilt_cdh(entry, name, lfh_offset);
        let cdh_bytes = cdh.to_bytes();
        proof {
            assert(cdh@ == spec_rebuild_cdh(
                infos_v[k as int].entry,
                infos_v[k as int].name,
                infos_v[k as int].lfh_offset,
            ));
            assert(cdh_bytes@ == spec_cdh_bytes(spec_rebuild_cdh(
                infos_v[k as int].entry,
                infos_v[k as int].name,
                infos_v[k as int].lfh_offset,
            )));
        }
        let blen = cdh_bytes.len() as u64;
        let ghost cd_n = spec_cd_section(infos_v, k + 1);
        proof {
            assert(cd_n.1 == cd_k.1 + spec_cdh_bytes(
                spec_rebuild_cdh(infos_v[k as int].entry, infos_v[k as int].name, infos_v[k as int].lfh_offset),
            ).len());
        }
        let o1 = match current_offset.checked_add(blen) {
            Some(v) => v,
            None => {
                proof {
                    lemma_cd_section_monotone(infos_v, k + 1, infos_v.len() as int);
                }
                return Err(RebuildError::SizeOverflow);
            },
        };
        let ghost prev_chunks = chunks@;
        chunks.push(RebuildChunk::Binary(cdh_bytes));
        current_offset = o1;
        proof {
            let x = RebuildChunkV::Binary(
                spec_cdh_bytes(
                    spec_rebuild_cdh(
                        infos_v[k as int].entry,
                        infos_v[k as int].name,
                        infos_v[k as int].lfh_offset,
                    ),
                ),
            );
            assert(cd_n.0 == cd_k.0.push(x));
            assert(chunks@ == prev_chunks.push(RebuildChunk::Binary(cdh_bytes)));
            assert(chunks_view(chunks@) =~= chunks_view(prev_chunks).push(x));
            assert(chunks_view(prev_chunks).push(x) =~= sect.0 + cd_k.0.push(x));
            assert(chunks_view(chunks@) =~= sect.0 + cd_n.0);
        }
    }
    let ghost cd_full = spec_cd_section(infos_v, infos_v.len() as int);
    let cd_end = current_offset;
    proof {
        lemma_cd_section_nonneg(infos_v, infos_v.len() as int);
        assert(cd_end >= cd_start);
    }
    let cd_size = cd_end - cd_start;
    let total_entries = m as u64;
    let need64 = cd_start >= 0xFFFFFFFF || cd_size >= 0xFFFFFFFF || total_entries >= 0xFFFF;
    proof {
        assert(need64 == spec_needs_zip64_eocd(cd_start as int, cd_size as int, m as int));
    }
    if need64 {
        let z64 = Zip64EndOfCentralDirectoryHeader {
            signature: 0x06064b50,
            size_of_record: 44,
            version_made_by: 63,
            version_needed: 45,
            disk_number: 0,
            disk_number_with_eocd: 0,
            total_entries_on_disk: total_entries,
            total_entries,
            central_directory_size: cd_size,
            central_directory_offset: cd_start,
        };
        proof {
            assert(z64 == spec_rebuilt_zip64_eocd(cd_start as int, cd_size as int, m as int));
        }
        let z64_bytes = z64.to_bytes();
        let o1 = match current_offset.checked_add(z64_bytes.len() as u64) {
            Some(v) => v,
            None => {
                return Err(RebuildError::SizeOverflow);
            },
        };
        chunks.push(RebuildChunk::Binary(z64_bytes));
        let locator = Zip64EndOfCentralDirectoryLocator {
            signature: 0x07064b50,
            disk_with_eocd: 0,
            eocd_offset: cd_end,
            total_disks: 1,
        };
        proof {
            assert(locator == spec_rebuilt_zip64_locator(cd_end as int));
        }
        let loc_bytes = locator.to_bytes();
        let o2 = match o1.checked_add(loc_bytes.len() as u64) {
            Some(v) => v,
            None => {
                return Err(RebuildError::SizeOverflow);
            },
        };
        chunks.push(RebuildChunk::Binary(loc_bytes));
        current_offset = o2;
    }
    let eocd = crate::parse::EndOfCentralDirectory {
        signature: 0x06054b50,
        disk_number: 0,
        disk_number_with_eocd: 0,
        entries_on_disk: if total_entries >= 0xFFFF {
            0xFFFF
        } else {
            total_entries as u16
        },
        total_entries: if total_entries >= 0xFFFF {
            0xFFFF
        } else {
            total_entries as u16
        },
        central_directory_size: if cd_size >= 0xFFFFFFFF {
            0xFFFFFFFF
        } else {
            cd_size as u32
        },
        central_directory_offset: if cd_start >= 0xFFFFFFFF {
            0xFFFFFFFF
        } else {
            cd_start as u32
        },
        comment_length: zip_file.eocd.comment_length,
        comment: slice_to_vec(zip_file.eocd.comment.as_slice()),
    };
    proof {
        assert(eocd@ =~= spec_rebuilt_eocd(z, cd_start as int, cd_size as int, m as int));
    }
    let eocd_bytes = eocd.to_bytes();
    let final_off = match current_offset.checked_add(eocd_bytes.len() as u64) {
        Some(v) => v,
        None => {
            return Err(RebuildError::SizeOverflow);
        },
    };
    chunks.push(RebuildChunk::Binary(eocd_bytes));
    proof {
        let plan = spec_rebuild_plan(z, insp, omit);
        assert(chunks_view(chunks@) =~= plan.0);
        assert(final_off as int == plan.1);
    }
    Ok((chunks, final_off))
}

/// Extras that survived the strip carry neither the ZIP64 nor the
/// Unicode-path tag.
pub proof fn lemma_kept_extras_stripped(efs: Seq<ExtraFieldV>)
    ensures
        forall|i: int|
            0 <= i < spec_kept_extras(efs).len() ==> spec_keep_extra(
                #[trigger] spec_kept_extras(efs)[i],
            ),
    decreases efs.len(),
{
    if efs.len() > 0 {
        lemma_kept_extras_stripped(efs.drop_last());
        let prefix = spec_kept_extras(efs.drop_last());
        if spec_keep_extra(efs.last()) {
            assert(spec_kept_extras(efs) == prefix.push(efs.last()));
            assert(forall|i: int|
                0 <= i < prefix.len() ==> #[trigger] spec_kept_extras(efs)[i] == prefix[i]);
            assert(spec_kept_extras(efs)[prefix.len() as int] == efs.last());
        } else {
            assert(spec_kept_extras(efs) == prefix);
        }
    }
}

/// ZIP64 promotion symmetry for the local file header: when both true
/// sizes fit in 32 bits, the rebuilt LFH carries no 0x0001 extra; when
/// either exceeds the sentinel, the leading extra carries exactly the two
/// 64-bit sizes, uncompressed first, and no other extra carries the tag.
pub proof fn lemma_zip64_promotion_lfh(e: ZipFileEntryV, name: Seq<u8>)
    ensures
        ({
            let extras = spec_rebuild_lfh(e, name).extra_fields;
            &&& !spec_lfh_needs_zip64(e) ==> forall|i: int|
                0 <= i < extras.len() ==> (#[trigger] extras[i]).tag != ZIP64_EXTRA_TAG
            &&& spec_lfh_needs_zip64(e) ==> {
                &&& extras.len() >= 1
                &&& extras[0] == (ExtraFieldV {
                    tag: ZIP64_EXTRA_TAG,
                    size: 16u16,
                    data: spec_u64_to_le_bytes(spec_effective_uncompressed_size(e.cdh))
                        + spec_u64_to_le_bytes(spec_effective_compressed_size(e.cdh)),
                })
                &&& forall|i: int|
                    1 <= i < extras.len() ==> (#[trigger] extras[i]).tag != ZIP64_EXTRA_TAG
            }
        }),
{
    lemma_kept_extras_stripped(e.lfh.extra_fields);
    let kept = spec_kept_extras(e.lfh.extra_fields);
    if spec_lfh_needs_zip64(e) {
        let extras = spec_rebuild_lfh(e, name).extra_fields;
        assert(forall|i: int| 1 <= i < extras.len() ==> extras[i] == kept[i - 1]);
    }
}

/// ZIP64 promotion symmetry for the central directory header: when the
/// true sizes and the rewritten offset all fit in 32 bits, the rebuilt
/// CDH carries no 0x0001 extra; otherwise the leading extra carries
/// exactly the saturated fields in the fixed order uncompressed size,
/// compressed size, local header offset, and no other extra carries the
/// tag.
pub proof fn lemma_zip64_promotion_cdh(e: ZipFileEntryV, name: Seq<u8>, lfh_offset: int)
    ensures
        ({
            let extras = spec_rebuild_cdh(e, name, lfh_offset).extra_fields;
            let zdata = spec_cdh_zip64_data(
                spec_effective_uncompressed_size(e.cdh),
                spec_effective_compressed_size(e.cdh),
                lfh_offset,
            );
            &&& !spec_cdh_needs_zip64(e, lfh_offset) ==> forall|i: int|
                0 <= i < extras.len() ==> (#[trigger] extras[i]).tag != ZIP64_EXTRA_TAG
            &&& spec_cdh_needs_zip64(e, lfh_offset) ==> {
                &&& extras.len() >= 1
                &&& extras[0] == (ExtraFieldV {
                    tag: ZIP64_EXTRA_TAG,
                    size: zdata.len() as u16,
                    data: zdata,
                })
                &&& forall|i: int|
                    1 <= i < extras.len() ==> (#[trigger] extras[i]).tag != ZIP64_EXTRA_TAG
            }
        }),
{
    lemma_kept_extras_stripped(e.cdh.extra_fields);
    let kept = spec_kept_extras(e.cdh.extra_fields);
    if spec_cdh_needs_zip64(e, lfh_offset) {
        let extras = spec_rebuild_cdh(e, name, lfh_offset).extra_fields;
        assert(forall|i: int| 1 <= i < extras.len() ==> extras[i] == kept[i - 1]);
    }
}

/// Flag law for whole rebuilt headers: every rebuilt LFH and CDH has the
/// UTF-8 flag set and the data-descriptor flag cleared.
pub proof fn lemma_flag_law(e: ZipFileEntryV, name: Seq<u8>, lfh_offset: int)
    ensures
        spec_is_utf8_flag(spec_rebuild_lfh(e, name).flags),
        !spec_has_data_descriptor(spec_rebuild_lfh(e, name).flags),
        spec_is_utf8_flag(spec_rebuild_cdh(e, name, lfh_offset).flags),
        !spec_has_data_descriptor(spec_rebuild_cdh(e, name, lfh_offset).flags),
{
    lemma_rebuilt_flags(e.lfh.flags);
    lemma_rebuilt_flags(e.cdh.flags);
}

/// Filename law: when an entry's filename was decoded, the rebuilt
/// filename bytes are valid UTF-8 and decode back to exactly the string
/// the inspection produced.
pub proof fn lemma_filename_law(ie: InspectedEntryV)
    requires
        ie.filename.decoded is Some,
    ensures
        vstd::utf8::valid_utf8(spec_rebuilt_name(ie)),
        vstd::utf8::decode_utf8(spec_rebuilt_name(ie)) == ie.filename.decoded->0.string,
{
    let chars = ie.filename.decoded->0.string;
    vstd::utf8::encode_utf8_valid_utf8(chars);
    vstd::utf8::encode_utf8_decode_utf8(chars);
}

/// Payload fidelity over the local-file section: for every retained
/// entry, the section holds a reference chunk naming exactly that entry's
/// payload offset and declared compressed size in the source archive.
pub proof fn lemma_payload_fidelity_section(
    entries: Seq<ZipFileEntryV>,
    inspected: Seq<InspectedEntryV>,
    omit: Seq<u64>,
    i: int,
    n: int,
)
    requires
        0 <= i < n,
        !spec_omitted(omit, i),
    ensures
        ({
            let section = spec_lfh_section(entries, inspected, omit, n).0;
            exists|j: int|
                0 <= j < section.len() && section[j] == (RebuildChunkV::Reference {
                    offset: entries[i].file_offset,
                    size: spec_effective_compressed_size(entries[i].cdh),
                })
        }),
    decreases n,
{
    let section = spec_lfh_section(entries, inspected, omit, n).0;
    if n == i + 1 {
        assert(section[section.len() - 1] == (RebuildChunkV::Reference {
            offset: entries[i].file_offset,
            size: spec_effective_compressed_size(entries[i].cdh),
        }));
    } else {
        lemma_payload_fidelity_section(entries, inspected, omit, i, n - 1);
        let prev = spec_lfh_section(entries, inspected, omit, n - 1).0;
        let j = choose|j: int|
            0 <= j < prev.len() && prev[j] == (RebuildChunkV::Reference {
                offset: entries[i].file_offset,
                size: spec_effective_compressed_size(entries[i].cdh),
            });
        assert(section[j] == prev[j]);
    }
}

/// Payload fidelity for a whole successful rebuild: for every retained
/// entry, the chunk plan holds a reference naming exactly that entry's
/// payload bytes in the source archive, so the rebuilt payload region is
/// byte-identical to the source region.
pub proof fn lemma_payload_fidelity(z: ZipFileV, c: InspectConfigV, omit: Seq<u64>, i: int)
    requires
        spec_rebuild(z, c, omit) is Ok,
        0 <= i < z.entries.len(),
        !spec_omitted(omit, i),
    ensures
        ({
            let chunks = spec_rebuild(z, c, omit)->Ok_0.0;
            exists|j: int|
                0 <= j < chunks.len() && chunks[j] == (RebuildChunkV::Reference {
                    offset: z.entries[i].file_offset,
                    size: spec_effective_compressed_size(z.entries[i].cdh),
                })
        }),
{
    let c2 = InspectConfigV { needs_original_bytes: true, ..c };
    let insp = spec_inspect(z, c2)->Ok_0;
    lemma_payload_fidelity_section(z.entries, insp.entries, omit, i, z.entries.len() as int);
    let section = spec_lfh_section(z.entries, insp.entries, omit, z.entries.len() as int).0;
    let chunks = spec_rebuild(z, c, omit)->Ok_0.0;
    let j = choose|j: int|
        0 <= j < section.len() && section[j] == (RebuildChunkV::Reference {
            offset: z.entries[i].file_offset,
            size: spec_effective_compressed_size(z.entries[i].cdh),
        });
    assert(chunks[j] == section[j]);
}

/// A serialized EOCD record parses back to itself: the rebuilt archive
/// tail is well-formed.
pub proof fn lemma_eocd_bytes_parse_back(e: EndOfCentralDirectoryV)
    requires
        e.signature == 0x06054b50u32,
        e.comment.len() == e.comment_length,
    ensures
        crate::parse::spec_parse_eocd(spec_eocd_bytes(e)) == Ok::<_, crate::parse::ZipParseError>(
            e,
        ),
{
    vstd::bytes::lemma_auto_spec_u16_to_from_le_bytes();
    vstd::bytes::lemma_auto_spec_u32_to_from_le_bytes();
    let b = spec_eocd_bytes(e);
    assert(b.len() == 22 + e.comment.len());
    assert(b.subrange(0, 4) =~= spec_u32_to_le_bytes(e.signature));
    assert(b.subrange(4, 6) =~= spec_u16_to_le_bytes(e.disk_number));
    assert(b.subrange(6, 8) =~= spec_u16_to_le_bytes(e.disk_number_with_eocd));
    assert(b.subrange(8, 10) =~= spec_u16_to_le_bytes(e.entries_on_disk));
    assert(b.subrange(10, 12) =~= spec_u16_to_le_bytes(e.total_entries));
    assert(b.subrange(12, 16) =~= spec_u32_to_le_bytes(e.central_directory_size));
    assert(b.subrange(16, 20) =~= spec_u32_to_le_bytes(e.central_directory_offset));
    assert(b.subrange(20, 22) =~= spec_u16_to_le_bytes(e.comment_length));
    assert(b.subrange(22, 22 + e.comment_length) =~= e.comment);
    let parsed = crate::parse::spec_parse_eocd(b);
    assert(parsed is Ok);
    assert(parsed->Ok_0 =~= e);
}

/// A serialized ZIP64 EOCD locator parses back to itself.
pub proof fn lemma_zip64_locator_bytes_parse_back(l: Zip64EndOfCentralDirectoryLocator)
    requires
        l.signature == 0x07064b50u32,
    ensures
        crate::parse::spec_parse_zip64_locator(spec_zip64_locator_bytes(l)) == Ok::<
            _,
            crate::parse::ZipParseError,
        >(l),
{
    vstd::bytes::lemma_auto_spec_u32_to_from_le_bytes();
    vstd::bytes::lemma_auto_spec_u64_to_from_le_bytes();
    let b = spec_zip64_locator_bytes(l);
    assert(b.len() == 20);
    assert(b.subrange(0, 4) =~= spec_u32_to_le_bytes(l.signature));
    assert(b.subrange(4, 8) =~= spec_u32_to_le_bytes(l.disk_with_eocd));
    assert(b.subrange(8, 16) =~= spec_u64_to_le_bytes(l.eocd_offset));
    assert(b.subrange(16, 20) =~= spec_u32_to_le_bytes(l.total_disks));
}

/// The serialized fixed part of a ZIP64 EOCD record parses back to
/// itself.
pub proof fn lemma_zip64_eocd_header_bytes_parse_back(h: Zip64EndOfCentralDirectoryHeader)
    requires
        h.signature == 0x06064b50u32,
    ensures
        crate::parse::spec_parse_zip64_eocd_header(spec_zip64_eocd_header_bytes(h)) == Ok::<
            _,
            crate::parse::ZipParseError,
        >(h),
{
    vstd::bytes::lemma_auto_spec_u16_to_from_le_bytes();
    vstd::bytes::lemma_auto_spec_u32_to_from_le_bytes();
    vstd::bytes::lemma_auto_spec_u64_to_from_le_bytes();
    let b = spec_zip64_eocd_header_bytes(h);
    assert(b.len() == 56);
    assert(b.subrange(0, 4) =~= spec_u32_to_le_bytes(h.signature));
    assert(b.subrange(4, 12) =~= spec_u64_to_le_bytes(h.size_of_record));
    assert(b.subrange(12, 14) =~= spec_u16_to_le_bytes(h.version_made_by));
    assert(b.subrange(14, 16) =~= spec_u16_to_le_bytes(h.version_needed));
    assert(b.subrange(16, 20) =~= spec_u32_to_le_bytes(h.disk_number));
    assert(b.subrange(20, 24) =~= spec_u32_to_le_bytes(h.disk_number_with_eocd));
    assert(b.subrange(24, 32) =~= spec_u64_to_le_bytes(h.total_entries_on_disk));
    assert(b.subrange(32, 40) =~= spec_u64_to_le_bytes(h.total_entries));
    assert(b.subrange(40, 48) =~= spec_u64_to_le_bytes(h.central_directory_size));
    assert(b.subrange(48, 56) =~= spec_u64_to_le_bytes(h.central_directory_offset));
}

} // verus!
