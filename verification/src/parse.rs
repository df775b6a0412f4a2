//! Binary parsing of the ZIP container: headers, extra fields, data
//! descriptors, end-of-directory records, and the driver that walks a whole
//! archive through a random-access reader.
//!
//! Every record parser is a pure function of its input bytes with an exact
//! contract: its result equals a spec-level mirror of the PKWARE layout.

use vstd::prelude::*;

use crate::crc32::crc32;
use crate::crc32::crc32_of;
use crate::textenc::utf8_to_string;

verus! {

use vstd::bytes::spec_u16_from_le_bytes;
use vstd::bytes::spec_u32_from_le_bytes;
use vstd::bytes::spec_u64_from_le_bytes;
use vstd::utf8::valid_utf8;
use vstd::utf8::decode_utf8;
use vstd::slice::slice_to_vec;

/// Extra-field tag of the ZIP64 extended information record.
pub const ZIP64_EXTRA_TAG: u16 = 0x0001;

/// Extra-field tag of the Unicode-path record.
pub const UNICODE_PATH_EXTRA_TAG: u16 = 0x7075;

/// The little-endian 16-bit value at position `i` of `data`.
pub open spec fn le16(data: Seq<u8>, i: int) -> u16 {
    spec_u16_from_le_bytes(data.subrange(i, i + 2))
}

/// The little-endian 32-bit value at position `i` of `data`.
pub open spec fn le32(data: Seq<u8>, i: int) -> u32 {
    spec_u32_from_le_bytes(data.subrange(i, i + 4))
}

/// The little-endian 64-bit value at position `i` of `data`.
pub open spec fn le64(data: Seq<u8>, i: int) -> u64 {
    spec_u64_from_le_bytes(data.subrange(i, i + 8))
}

/// Read a little-endian 16-bit integer from the first two bytes.
pub fn parse_u16_le(data: &[u8]) -> (r: u16)
    requires
        data@.len() >= 2,
    ensures
        r == le16(data@, 0),
{
    vstd::bytes::u16_from_le_bytes(&data[0..2])
}

/// Read a little-endian 32-bit integer from the first four bytes.
pub fn parse_u32_le(data: &[u8]) -> (r: u32)
    requires
        data@.len() >= 4,
    ensures
        r == le32(data@, 0),
{
    vstd::bytes::u32_from_le_bytes(&data[0..4])
}

/// Read a little-endian 64-bit integer from the first eight bytes.
pub fn parse_u64_le(data: &[u8]) -> (r: u64)
    requires
        data@.len() >= 8,
    ensures
        r == le64(data@, 0),
{
    vstd::bytes::u64_from_le_bytes(&data[0..8])
}

/// `le16` of the bytes starting at `i`.
pub(crate) fn u16_at(data: &[u8], i: usize) -> (r: u16)
    requires
        i + 2 <= data@.len(),
    ensures
        r == le16(data@, i as int),
{
    let n = data.len();
    let r = parse_u16_le(&data[i..i + 2]);
    proof {
        assert(n == data@.len());
        let s = data@.subrange(i as int, i + 2);
        assert(s.subrange(0, 2) =~= s);
    }
    r
}

/// `le32` of the bytes starting at `i`.
pub(crate) fn u32_at(data: &[u8], i: usize) -> (r: u32)
    requires
        i + 4 <= data@.len(),
    ensures
        r == le32(data@, i as int),
{
    let n = data.len();
    let r = parse_u32_le(&data[i..i + 4]);
    proof {
        assert(n == data@.len());
        let s = data@.subrange(i as int, i + 4);
        assert(s.subrange(0, 4) =~= s);
    }
    r
}

/// `le64` of the bytes starting at `i`.
pub(crate) fn u64_at(data: &[u8], i: usize) -> (r: u64)
    requires
        i + 8 <= data@.len(),
    ensures
        r == le64(data@, i as int),
{
    let n = data.len();
    let r = parse_u64_le(&data[i..i + 8]);
    proof {
        assert(n == data@.len());
        let s = data@.subrange(i as int, i + 8);
        assert(s.subrange(0, 8) =~= s);
        assert(s.subrange(0, 4) =~= data@.subrange(i as int, i + 4));
        assert(s.subrange(4, 8) =~= data@.subrange(i + 4, i + 8));
    }
    r
}

/// Errors raised while parsing an archive.
#[derive(Debug, Clone, Copy, PartialEq, Eq)]
pub enum ZipParseError {
    /// The reader failed.
    Io,
    /// No end-of-central-directory signature in the search window.
    EocdNotFound,
    /// A ZIP64 field was saturated but no ZIP64 EOCD record was found.
    Zip64EocdNotFound,
    /// A record did not start with its required signature.
    InvalidSignature { expected: u32, got: u32 },
    /// A record or a declared variable-length tail overruns the bytes at hand.
    TooShort { expected: u64, got: u64 },
    /// An extra field declares more data than its region holds.
    IncompleteExtraField { tag: u16 },
    /// An extra-field region ends in the middle of a tag/size prefix.
    TrailingExtraBytes { trailing: u64 },
    /// Neither data-descriptor layout is followed by a known section.
    AmbiguousDataDescriptor,
    /// A declared offset or size does not fit in 64 bits.
    OffsetOverflow,
}

/// The general purpose bit flag field of a LFH or CDH.
#[derive(Debug, Clone, Copy, PartialEq, Eq, Structural)]
pub struct GeneralPurposeBitFlag(pub u16);

impl GeneralPurposeBitFlag {
    /// Whether bit 3 (a data descriptor follows the payload) is set.
    pub fn has_data_descriptor(&self) -> (r: bool)
        ensures
            r == spec_has_data_descriptor(*self),
    {
        (self.0 & 0x0008) != 0
    }

    /// Whether bit 11 (the filename is UTF-8) is set.
    pub fn is_utf8(&self) -> (r: bool)
        ensures
            r == spec_is_utf8_flag(*self),
    {
        (self.0 & 0x0800) != 0
    }
}

pub open spec fn spec_has_data_descriptor(f: GeneralPurposeBitFlag) -> bool {
    f.0 & 0x0008 != 0
}

pub open spec fn spec_is_utf8_flag(f: GeneralPurposeBitFlag) -> bool {
    f.0 & 0x0800 != 0
}

/// One extra-field record of a LFH or CDH.
#[derive(Debug, Clone, PartialEq, Eq)]
pub struct ExtraField {
    /// Header ID (tag).
    pub tag: u16,
    /// Declared size of the data that follows the tag/size prefix.
    pub size: u16,
    /// The field data.
    pub data: Vec<u8>,
}

/// Spec-level model of an extra field.
#[verifier::ext_equal]
pub ghost struct ExtraFieldV {
    pub tag: u16,
    pub size: u16,
    pub data: Seq<u8>,
}

impl View for ExtraField {
    type V = ExtraFieldV;

    open spec fn view(&self) -> ExtraFieldV {
        ExtraFieldV { tag: self.tag, size: self.size, data: self.data@ }
    }
}

/// The view of a list of extra fields.
pub open spec fn extra_fields_view(efs: Seq<ExtraField>) -> Seq<ExtraFieldV> {
    efs.map_values(|e: ExtraField| e@)
}

/// The extra fields encoded by an extra-field region, parsed front to back:
/// each record is a 2-byte tag, a 2-byte size, and that many data bytes.
/// A record whose declared size overruns the region, or a region that ends
/// inside a tag/size prefix, is an error.
pub open spec fn spec_parse_extra_fields(data: Seq<u8>) -> Result<
    Seq<ExtraFieldV>,
    ZipParseError,
>
    decreases data.len(),
{
    if data.len() < 4 {
        if data.len() == 0 {
            Ok(Seq::empty())
        } else {
            Err(ZipParseError::TrailingExtraBytes { trailing: data.len() as u64 })
        }
    } else {
        let tag = le16(data, 0);
        let size = le16(data, 2) as int;
        if 4 + size > data.len() {
            Err(ZipParseError::IncompleteExtraField { tag })
        } else {
            match spec_parse_extra_fields(data.skip(4 + size)) {
                Ok(rest) => Ok(
                    seq![ExtraFieldV { tag, size: le16(data, 2), data: data.subrange(4, 4 + size) }]
                        + rest,
                ),
                Err(e) => Err(e),
            }
        }
    }
}

/// Prepend already-parsed fields to the outcome for a remainder region.
pub open spec fn spec_prepend_extra_fields(
    pre: Seq<ExtraFieldV>,
    r: Result<Seq<ExtraFieldV>, ZipParseError>,
) -> Result<Seq<ExtraFieldV>, ZipParseError> {
    match r {
        Ok(rest) => Ok(pre + rest),
        Err(e) => Err(e),
    }
}

impl ExtraField {
    /// Parse a whole extra-field region into its records.
    #[verifier::loop_isolation(false)]
    pub fn parse_all(data: &[u8]) -> (r: Result<Vec<ExtraField>, ZipParseError>)
        ensures
            match r {
                Ok(fields) => spec_parse_extra_fields(data@) == Ok::<_, ZipParseError>(
                    extra_fields_view(fields@),
                ),
                Err(e) => spec_parse_extra_fields(data@) == Err::<Seq<ExtraFieldV>, _>(e),
            },
    {
        let mut fields: Vec<ExtraField> = Vec::new();
        let mut offset: usize = 0;
        let n = data.len();
        proof {
            assert(data@.skip(0) =~= data@);
            assert(extra_fields_view(fields@) =~= Seq::<ExtraFieldV>::empty());
        }
        while n - offset >= 4
            invariant
                offset <= n,
                spec_parse_extra_fields(data@) == spec_prepend_extra_fields(
                    extra_fields_view(fields@),
                    spec_parse_extra_fields(data@.skip(offset as int)),
                ),
            decreases n - offset,
        {
            let ghost rem = data@.skip(offset as int);
            let tag = u16_at(data, offset);
            let size = u16_at(data, offset + 2) as usize;
            proof {
                assert(rem.subrange(0, 2) =~= data@.subrange(offset as int, offset + 2));
                assert(rem.subrange(2, 4) =~= data@.subrange(offset + 2, offset + 4));
                assert(le16(rem, 0) == tag);
                assert(le16(rem, 2) == size as u16);
            }
            if size > n - offset - 4 {
                proof {
                    assert(spec_parse_extra_fields(rem) == Err::<Seq<ExtraFieldV>, _>(
                        ZipParseError::IncompleteExtraField { tag },
                    ));
                }
                return Err(ZipParseError::IncompleteExtraField { tag });
            }
            let field_data: Vec<u8> = slice_to_vec(&data[offset + 4..offset + 4 + size]);
            let field = ExtraField { tag, size: size as u16, data: field_data };
            proof {
                assert(field@.data =~= rem.subrange(4, 4 + size as int));
            }
            let ghost prev = fields@;
            fields.push(field);
            offset = offset + 4 + size;
            proof {
                assert(rem.skip(4 + size as int) =~= data@.skip(offset as int));
                let sub = spec_parse_extra_fields(rem.skip(4 + size as int));
                assert(spec_parse_extra_fields(rem) == spec_prepend_extra_fields(
                    seq![field@],
                    sub,
                ));
                assert(extra_fields_view(fields@) =~= extra_fields_view(prev).push(field@));
                match sub {
                    Ok(rest) => {
                        assert(extra_fields_view(prev) + (seq![field@] + rest)
                            =~= extra_fields_view(fields@) + rest);
                    },
                    Err(_) => {},
                }
                assert(spec_parse_extra_fields(data@) == spec_prepend_extra_fields(
                    extra_fields_view(fields@),
                    spec_parse_extra_fields(data@.skip(offset as int)),
                ));
            }
        }
        if offset != n {
            proof {
                let rem = data@.skip(offset as int);
                assert(rem.len() == n - offset);
                assert(spec_parse_extra_fields(rem) == Err::<Seq<ExtraFieldV>, _>(
                    ZipParseError::TrailingExtraBytes { trailing: (n - offset) as u64 },
                ));
            }
            return Err(ZipParseError::TrailingExtraBytes { trailing: (n - offset) as u64 });
        }
        proof {
            assert(data@.skip(offset as int).len() == 0);
            assert(spec_parse_extra_fields(data@.skip(offset as int)) == Ok::<_, ZipParseError>(
                Seq::<ExtraFieldV>::empty(),
            ));
            assert(extra_fields_view(fields@) + Seq::<ExtraFieldV>::empty() =~= extra_fields_view(
                fields@,
            ));
        }
        Ok(fields)
    }
}

/// ZIP64 extended information (extra-field tag 0x0001), as far as this
/// engine reads it: each 64-bit field is present exactly when the matching
/// field of the host header was saturated.
#[derive(Debug, Clone, Copy, PartialEq, Eq)]
pub struct Zip64ExtendedInfo {
    pub uncompressed_size: Option<u64>,
    pub compressed_size: Option<u64>,
    pub local_header_offset: Option<u64>,
}

/// The ZIP64 extended information carried by an extra-field body, given
/// which of the host header's fields are saturated. The 64-bit values
/// stand in the fixed order uncompressed size, compressed size, local
/// header offset, and only the saturated ones are present; trailing bytes
/// are ignored. `None` when the body is too short for the required fields.
pub open spec fn spec_parse_zip64_extra(
    data: Seq<u8>,
    unc_sat: bool,
    comp_sat: bool,
    off_sat: bool,
) -> Option<Zip64ExtendedInfo> {
    let o1: int = if unc_sat {
        8int
    } else {
        0int
    };
    let o2: int = o1 + if comp_sat {
        8int
    } else {
        0int
    };
    let needed: int = o2 + if off_sat {
        8int
    } else {
        0int
    };
    if data.len() < needed {
        None
    } else {
        Some(
            Zip64ExtendedInfo {
                uncompressed_size: if unc_sat {
                    Some(le64(data, 0))
                } else {
                    None
                },
                compressed_size: if comp_sat {
                    Some(le64(data, o1))
                } else {
                    None
                },
                local_header_offset: if off_sat {
                    Some(le64(data, o2))
                } else {
                    None
                },
            },
        )
    }
}

impl Zip64ExtendedInfo {
    /// Read the ZIP64 extended information from an extra-field body.
    pub fn parse(data: &[u8], unc_sat: bool, comp_sat: bool, off_sat: bool) -> (r: Option<
        Zip64ExtendedInfo,
    >)
        ensures
            r == spec_parse_zip64_extra(data@, unc_sat, comp_sat, off_sat),
    {
        let o1: usize = if unc_sat {
            8
        } else {
            0
        };
        let o2: usize = o1 + if comp_sat {
            8
        } else {
            0
        };
        let needed: usize = o2 + if off_sat {
            8
        } else {
            0
        };
        if data.len() < needed {
            return None;
        }
        let uncompressed_size = if unc_sat {
            Some(u64_at(data, 0))
        } else {
            None
        };
        let compressed_size = if comp_sat {
            Some(u64_at(data, o1))
        } else {
            None
        };
        let local_header_offset = if off_sat {
            Some(u64_at(data, o2))
        } else {
            None
        };
        Some(Zip64ExtendedInfo { uncompressed_size, compressed_size, local_header_offset })
    }
}

/// Unicode-path extra field (tag 0x7075): a version byte, a CRC-32 over the
/// host header's filename bytes, and a UTF-8 filename.
#[derive(Debug, Clone, PartialEq, Eq)]
pub struct UnicodePathExtraField {
    /// Version of the record; this engine accepts only version 1.
    pub version: u8,
    /// CRC-32/ISO-HDLC that the writer computed over the host filename.
    pub name_crc32: u32,
    /// The UTF-8 filename bytes.
    pub data: Vec<u8>,
    /// The filename decoded from `data`, present exactly when `data` is
    /// valid UTF-8.
    pub decoded_string: Option<String>,
    /// Whether `name_crc32` equals the CRC-32/ISO-HDLC of the host
    /// header's filename bytes.
    pub crc32_matched: bool,
}

/// Spec-level model of a Unicode-path extra field.
#[verifier::ext_equal]
pub ghost struct UnicodePathExtraFieldV {
    pub version: u8,
    pub name_crc32: u32,
    pub data: Seq<u8>,
    pub decoded_string: Option<Seq<char>>,
    pub crc32_matched: bool,
}

impl View for UnicodePathExtraField {
    type V = UnicodePathExtraFieldV;

    open spec fn view(&self) -> UnicodePathExtraFieldV {
        UnicodePathExtraFieldV {
            version: self.version,
            name_crc32: self.name_crc32,
            data: self.data@,
            decoded_string: match self.decoded_string {
                Some(s) => Some(s@),
                None => None,
            },
            crc32_matched: self.crc32_matched,
        }
    }
}

/// The Unicode-path record carried by an extra-field body, for a host
/// header whose filename bytes are `host_filename`. `None` when the body
/// is shorter than five bytes or its version byte is not 1. The decoded
/// string is present exactly when the name bytes are valid UTF-8, and
/// `crc32_matched` holds exactly when the embedded CRC-32 equals the
/// CRC-32/ISO-HDLC of the host filename bytes.
pub open spec fn spec_parse_unicode_path(data: Seq<u8>, host_filename: Seq<u8>) -> Option<
    UnicodePathExtraFieldV,
> {
    if data.len() < 5 || data[0] != 1u8 {
        None
    } else {
        let name = data.skip(5);
        Some(
            UnicodePathExtraFieldV {
                version: 1u8,
                name_crc32: le32(data, 1),
                data: name,
                decoded_string: if valid_utf8(name) {
                    Some(decode_utf8(name))
                } else {
                    None
                },
                crc32_matched: crc32_of(host_filename) == le32(data, 1),
            },
        )
    }
}

impl UnicodePathExtraField {
    /// Read the Unicode-path record from an extra-field body, checking its
    /// embedded CRC-32 against the host header's filename bytes.
    pub fn parse(data: &[u8], host_filename: &[u8]) -> (r: Option<UnicodePathExtraField>)
        ensures
            match r {
                Some(up) => spec_parse_unicode_path(data@, host_filename@) == Some(up@),
                None => spec_parse_unicode_path(data@, host_filename@) is None,
            },
    {
        if data.len() < 5 {
            return None;
        }
        if data[0] != 1 {
            return None;
        }
        let name_crc32 = u32_at(data, 1);
        let name: Vec<u8> = slice_to_vec(&data[5..data.len()]);
        proof {
            assert(name@ =~= data@.skip(5));
        }
        let decoded_string = utf8_to_string(name.as_slice());
        let host_crc = crc32(host_filename);
        let up = UnicodePathExtraField {
            version: 1,
            name_crc32,
            data: name,
            decoded_string,
            crc32_matched: host_crc == name_crc32,
        };
        Some(up)
    }
}


/// The first extra field with the given tag, if any.
pub open spec fn spec_find_extra(efs: Seq<ExtraFieldV>, tag: u16) -> Option<ExtraFieldV>
    decreases efs.len(),
{
    if efs.len() == 0 {
        None
    } else if efs[0].tag == tag {
        Some(efs[0])
    } else {
        spec_find_extra(efs.drop_first(), tag)
    }
}

/// Find the index of the first extra field with the given tag.
#[verifier::loop_isolation(false)]
fn find_extra(efs: &Vec<ExtraField>, tag: u16) -> (r: Option<usize>)
    ensures
        match r {
            Some(i) => i < efs@.len() && spec_find_extra(extra_fields_view(efs@), tag) == Some(
                efs@[i as int]@,
            ),
            None => spec_find_extra(extra_fields_view(efs@), tag) is None,
        },
{
    let ghost all = extra_fields_view(efs@);
    let n = efs.len();
    proof {
        assert(all.skip(0) =~= all);
    }
    for i in 0..n
        invariant
            n == efs@.len(),
            spec_find_extra(all, tag) == spec_find_extra(all.skip(i as int), tag),
    {
        proof {
            assert(all.skip(i as int)[0] == all[i as int]);
        }
        if efs[i].tag == tag {
            return Some(i);
        }
        proof {
            assert(all.skip(i as int).drop_first() =~= all.skip(i + 1));
        }
    }
    proof {
        assert(all.skip(n as int).len() == 0);
    }
    None
}

/// The ZIP64 derived slot of a header: the first 0x0001 extra, read for
/// exactly the saturated host fields.
pub open spec fn spec_zip64_slot(
    efs: Seq<ExtraFieldV>,
    uncompressed_size: u32,
    compressed_size: u32,
    local_header_offset: Option<u32>,
) -> Option<Zip64ExtendedInfo> {
    match spec_find_extra(efs, ZIP64_EXTRA_TAG) {
        None => None,
        Some(ef) => spec_parse_zip64_extra(
            ef.data,
            uncompressed_size == 0xFFFFFFFFu32,
            compressed_size == 0xFFFFFFFFu32,
            local_header_offset == Some(0xFFFFFFFFu32),
        ),
    }
}

/// The Unicode-path derived slot of a header: the first 0x7075 extra,
/// checked against the host filename bytes.
pub open spec fn spec_unicode_path_slot(efs: Seq<ExtraFieldV>, filename: Seq<u8>) -> Option<
    UnicodePathExtraFieldV,
> {
    match spec_find_extra(efs, UNICODE_PATH_EXTRA_TAG) {
        None => None,
        Some(ef) => spec_parse_unicode_path(ef.data, filename),
    }
}

/// Compute both derived slots for a header.
fn derived_slots(
    efs: &Vec<ExtraField>,
    filename: &Vec<u8>,
    uncompressed_size: u32,
    compressed_size: u32,
    local_header_offset: Option<u32>,
) -> (r: (Option<Zip64ExtendedInfo>, Option<UnicodePathExtraField>))
    ensures
        r.0 == spec_zip64_slot(
            extra_fields_view(efs@),
            uncompressed_size,
            compressed_size,
            local_header_offset,
        ),
        match r.1 {
            Some(up) => spec_unicode_path_slot(extra_fields_view(efs@), filename@) == Some(up@),
            None => spec_unicode_path_slot(extra_fields_view(efs@), filename@) is None,
        },
{
    let off_sat = match local_header_offset {
        Some(v) => v == 0xFFFFFFFF,
        None => false,
    };
    let zip64 = match find_extra(efs, ZIP64_EXTRA_TAG) {
        Some(i) => Zip64ExtendedInfo::parse(
            efs[i].data.as_slice(),
            uncompressed_size == 0xFFFFFFFF,
            compressed_size == 0xFFFFFFFF,
            off_sat,
        ),
        None => None,
    };
    let unicode_path = match find_extra(efs, UNICODE_PATH_EXTRA_TAG) {
        Some(i) => UnicodePathExtraField::parse(efs[i].data.as_slice(), filename.as_slice()),
        None => None,
    };
    (zip64, unicode_path)
}

/// Central Directory Header (CDH).
#[derive(Debug, Clone, PartialEq, Eq)]
pub struct CentralDirectoryHeader {
    /// Central file header signature, 0x02014b50.
    pub signature: u32,
    /// Version made by.
    pub version_made_by: u16,
    /// Version needed to extract.
    pub version_needed: u16,
    /// General purpose bit flag.
    pub flags: GeneralPurposeBitFlag,
    /// Compression method.
    pub compression_method: u16,
    /// Last mod file time.
    pub last_mod_time: u16,
    /// Last mod file date.
    pub last_mod_date: u16,
    /// CRC-32 of the uncompressed data.
    pub crc32: u32,
    /// Compressed size.
    pub compressed_size: u32,
    /// Uncompressed size.
    pub uncompressed_size: u32,
    /// Filename length.
    pub filename_length: u16,
    /// Extra field length.
    pub extra_field_length: u16,
    /// File comment length.
    pub file_comment_length: u16,
    /// Disk number start.
    pub disk_number_start: u16,
    /// Internal file attributes.
    pub internal_file_attributes: u16,
    /// External file attributes.
    pub external_file_attributes: u32,
    /// Relative offset of the local header.
    pub local_header_offset: u32,
    /// Filename bytes.
    pub filename: Vec<u8>,
    /// Parsed extra fields.
    pub extra_fields: Vec<ExtraField>,
    /// File comment bytes.
    pub file_comment: Vec<u8>,
    /// Derived: the ZIP64 extended information, when present.
    pub zip64: Option<Zip64ExtendedInfo>,
    /// Derived: the Unicode-path extra field, when present.
    pub unicode_path: Option<UnicodePathExtraField>,
}

/// Spec-level model of a CDH.
#[verifier::ext_equal]
pub ghost struct CentralDirectoryHeaderV {
    pub signature: u32,
    pub version_made_by: u16,
    pub version_needed: u16,
    pub flags: GeneralPurposeBitFlag,
    pub compression_method: u16,
    pub last_mod_time: u16,
    pub last_mod_date: u16,
    pub crc32: u32,
    pub compressed_size: u32,
    pub uncompressed_size: u32,
    pub filename_length: u16,
    pub extra_field_length: u16,
    pub file_comment_length: u16,
    pub disk_number_start: u16,
    pub internal_file_attributes: u16,
    pub external_file_attributes: u32,
    pub local_header_offset: u32,
    pub filename: Seq<u8>,
    pub extra_fields: Seq<ExtraFieldV>,
    pub file_comment: Seq<u8>,
    pub zip64: Option<Zip64ExtendedInfo>,
    pub unicode_path: Option<UnicodePathExtraFieldV>,
}

impl View for CentralDirectoryHeader {
    type V = CentralDirectoryHeaderV;

    open spec fn view(&self) -> CentralDirectoryHeaderV {
        CentralDirectoryHeaderV {
            signature: self.signature,
            version_made_by: self.version_made_by,
            version_needed: self.version_needed,
            flags: self.flags,
            compression_method: self.compression_method,
            last_mod_time: self.last_mod_time,
            last_mod_date: self.last_mod_date,
            crc32: self.crc32,
            compressed_size: self.compressed_size,
            uncompressed_size: self.uncompressed_size,
            filename_length: self.filename_length,
            extra_field_length: self.extra_field_length,
            file_comment_length: self.file_comment_length,
            disk_number_start: self.disk_number_start,
            internal_file_attributes: self.internal_file_attributes,
            external_file_attributes: self.external_file_attributes,
            local_header_offset: self.local_header_offset,
            filename: self.filename@,
            extra_fields: extra_fields_view(self.extra_fields@),
            file_comment: self.file_comment@,
            zip64: self.zip64,
            unicode_path: match self.unicode_path {
                Some(up) => Some(up@),
                None => None,
            },
        }
    }
}

/// Minimum size of a CDH, without its variable-length tail.
pub const CDH_MIN_SIZE: usize = 46;

/// The CDH encoded at the front of `data`, or the error that rejects it:
/// too short for the fixed part, wrong signature, a variable-length tail
/// that overruns `data`, or a malformed extra-field region. The two
/// derived slots are populated from the extras and the filename bytes.
pub open spec fn spec_parse_cdh(data: Seq<u8>) -> Result<CentralDirectoryHeaderV, ZipParseError> {
    if data.len() < 46 {
        Err(ZipParseError::TooShort { expected: 46u64, got: data.len() as u64 })
    } else if le32(data, 0) != 0x02014b50u32 {
        Err(ZipParseError::InvalidSignature { expected: 0x02014b50u32, got: le32(data, 0) })
    } else {
        let fnl = le16(data, 28) as int;
        let efl = le16(data, 30) as int;
        let fcl = le16(data, 32) as int;
        if data.len() < 46 + fnl + efl + fcl {
            Err(
                ZipParseError::TooShort {
                    expected: (46 + fnl + efl + fcl) as u64,
                    got: data.len() as u64,
                },
            )
        } else {
            let filename = data.subrange(46, 46 + fnl);
            let extra_data = data.subrange(46 + fnl, 46 + fnl + efl);
            let file_comment = data.subrange(46 + fnl + efl, 46 + fnl + efl + fcl);
            match spec_parse_extra_fields(extra_data) {
                Err(e) => Err(e),
                Ok(efs) => Ok(
                    CentralDirectoryHeaderV {
                        signature: le32(data, 0),
                        version_made_by: le16(data, 4),
                        version_needed: le16(data, 6),
                        flags: GeneralPurposeBitFlag(le16(data, 8)),
                        compression_method: le16(data, 10),
                        last_mod_time: le16(data, 12),
                        last_mod_date: le16(data, 14),
                        crc32: le32(data, 16),
                        compressed_size: le32(data, 20),
                        uncompressed_size: le32(data, 24),
                        filename_length: le16(data, 28),
                        extra_field_length: le16(data, 30),
                        file_comment_length: le16(data, 32),
                        disk_number_start: le16(data, 34),
                        internal_file_attributes: le16(data, 36),
                        external_file_attributes: le32(data, 38),
                        local_header_offset: le32(data, 42),
                        filename,
                        extra_fields: efs,
                        file_comment,
                        zip64: spec_zip64_slot(
                            efs,
                            le32(data, 24),
                            le32(data, 20),
                            Some(le32(data, 42)),
                        ),
                        unicode_path: spec_unicode_path_slot(efs, filename),
                    },
                ),
            }
        }
    }
}

impl CentralDirectoryHeader {
    /// Total size of this CDH record, including its variable-length tail.
    pub fn len(&self) -> (r: usize)
        ensures
            r == spec_cdh_len(self@),
    {
        CDH_MIN_SIZE + self.filename_length as usize + self.extra_field_length as usize
            + self.file_comment_length as usize
    }

    /// Parse a Central Directory Header from the front of `data`.
    pub fn parse(data: &[u8]) -> (r: Result<CentralDirectoryHeader, ZipParseError>)
        ensures
            match r {
                Ok(h) => spec_parse_cdh(data@) == Ok::<_, ZipParseError>(h@),
                Err(e) => spec_parse_cdh(data@) == Err::<CentralDirectoryHeaderV, _>(e),
            },
    {
        let n = data.len();
        if n < 46 {
            return Err(ZipParseError::TooShort { expected: 46, got: n as u64 });
        }
        let signature = u32_at(data, 0);
        if signature != 0x02014b50 {
            return Err(ZipParseError::InvalidSignature { expected: 0x02014b50, got: signature });
        }
        let filename_length = u16_at(data, 28);
        let extra_field_length = u16_at(data, 30);
        let file_comment_length = u16_at(data, 32);
        let fnl = filename_length as usize;
        let efl = extra_field_length as usize;
        let fcl = file_comment_length as usize;
        if n < 46 + fnl + efl + fcl {
            return Err(
                ZipParseError::TooShort { expected: (46 + fnl + efl + fcl) as u64, got: n as u64 },
            );
        }
        let filename: Vec<u8> = slice_to_vec(&data[46..46 + fnl]);
        let extra_data: Vec<u8> = slice_to_vec(&data[46 + fnl..46 + fnl + efl]);
        let file_comment: Vec<u8> = slice_to_vec(&data[46 + fnl + efl..46 + fnl + efl + fcl]);
        let extra_fields = match ExtraField::parse_all(extra_data.as_slice()) {
            Ok(efs) => efs,
            Err(e) => {
                return Err(e);
            },
        };
        let uncompressed_size = u32_at(data, 24);
        let compressed_size = u32_at(data, 20);
        let local_header_offset = u32_at(data, 42);
        let (zip64, unicode_path) = derived_slots(
            &extra_fields,
            &filename,
            uncompressed_size,
            compressed_size,
            Some(local_header_offset),
        );
        let h = CentralDirectoryHeader {
            signature,
            version_made_by: u16_at(data, 4),
            version_needed: u16_at(data, 6),
            flags: GeneralPurposeBitFlag(u16_at(data, 8)),
            compression_method: u16_at(data, 10),
            last_mod_time: u16_at(data, 12),
            last_mod_date: u16_at(data, 14),
            crc32: u32_at(data, 16),
            compressed_size,
            uncompressed_size,
            filename_length,
            extra_field_length,
            file_comment_length,
            disk_number_start: u16_at(data, 34),
            internal_file_attributes: u16_at(data, 36),
            external_file_attributes: u32_at(data, 38),
            local_header_offset,
            filename,
            extra_fields,
            file_comment,
            zip64,
            unicode_path,
        };
        proof {
            let hv = spec_parse_cdh(data@)->Ok_0;
            assert(h@ =~= hv);
        }
        Ok(h)
    }
}

/// Total size of a CDH record per its declared lengths.
pub open spec fn spec_cdh_len(h: CentralDirectoryHeaderV) -> int {
    46 + h.filename_length + h.extra_field_length + h.file_comment_length
}

/// Local File Header (LFH).
#[derive(Debug, Clone, PartialEq, Eq)]
pub struct LocalFileHeader {
    /// Local file header signature, 0x04034b50.
    pub signature: u32,
    /// Version needed to extract.
    pub version_needed: u16,
    /// General purpose bit flag.
    pub flags: GeneralPurposeBitFlag,
    /// Compression method.
    pub compression_method: u16,
    /// Last mod file time.
    pub last_mod_time: u16,
    /// Last mod file date.
    pub last_mod_date: u16,
    /// CRC-32 of the uncompressed data.
    pub crc32: u32,
    /// Compressed size.
    pub compressed_size: u32,
    /// Uncompressed size.
    pub uncompressed_size: u32,
    /// Filename length.
    pub filename_length: u16,
    /// Extra field length.
    pub extra_field_length: u16,
    /// Filename bytes.
    pub filename: Vec<u8>,
    /// Parsed extra fields.
    pub extra_fields: Vec<ExtraField>,
    /// Derived: the ZIP64 extended information, when present.
    pub zip64: Option<Zip64ExtendedInfo>,
    /// Derived: the Unicode-path extra field, when present.
    pub unicode_path: Option<UnicodePathExtraField>,
}

/// Spec-level model of a LFH.
#[verifier::ext_equal]
pub ghost struct LocalFileHeaderV {
    pub signature: u32,
    pub version_needed: u16,
    pub flags: GeneralPurposeBitFlag,
    pub compression_method: u16,
    pub last_mod_time: u16,
    pub last_mod_date: u16,
    pub crc32: u32,
    pub compressed_size: u32,
    pub uncompressed_size: u32,
    pub filename_length: u16,
    pub extra_field_length: u16,
    pub filename: Seq<u8>,
    pub extra_fields: Seq<ExtraFieldV>,
    pub zip64: Option<Zip64ExtendedInfo>,
    pub unicode_path: Option<UnicodePathExtraFieldV>,
}

impl View for LocalFileHeader {
    type V = LocalFileHeaderV;

    open spec fn view(&self) -> LocalFileHeaderV {
        LocalFileHeaderV {
            signature: self.signature,
            version_needed: self.version_needed,
            flags: self.flags,
            compression_method: self.compression_method,
            last_mod_time: self.last_mod_time,
            last_mod_date: self.last_mod_date,
            crc32: self.crc32,
            compressed_size: self.compressed_size,
            uncompressed_size: self.uncompressed_size,
            filename_length: self.filename_length,
            extra_field_length: self.extra_field_length,
            filename: self.filename@,
            extra_fields: extra_fields_view(self.extra_fields@),
            zip64: self.zip64,
            unicode_path: match self.unicode_path {
                Some(up) => Some(up@),
                None => None,
            },
        }
    }
}

/// Minimum size of a LFH, without its variable-length tail.
pub const LFH_MIN_SIZE: usize = 30;

/// Total size of a LFH record per its declared lengths.
pub open spec fn spec_lfh_len(h: LocalFileHeaderV) -> int {
    30 + h.filename_length + h.extra_field_length
}

/// The LFH encoded at the front of `data`, or the error that rejects it.
pub open spec fn spec_parse_lfh(data: Seq<u8>) -> Result<LocalFileHeaderV, ZipParseError> {
    if data.len() < 30 {
        Err(ZipParseError::TooShort { expected: 30u64, got: data.len() as u64 })
    } else if le32(data, 0) != 0x04034b50u32 {
        Err(ZipParseError::InvalidSignature { expected: 0x04034b50u32, got: le32(data, 0) })
    } else {
        let fnl = le16(data, 26) as int;
        let efl = le16(data, 28) as int;
        if data.len() < 30 + fnl + efl {
            Err(
                ZipParseError::TooShort { expected: (30 + fnl + efl) as u64, got: data.len() as u64 },
            )
        } else {
            let filename = data.subrange(30, 30 + fnl);
            let extra_data = data.subrange(30 + fnl, 30 + fnl + efl);
            match spec_parse_extra_fields(extra_data) {
                Err(e) => Err(e),
                Ok(efs) => Ok(
                    LocalFileHeaderV {
                        signature: le32(data, 0),
                        version_needed: le16(data, 4),
                        flags: GeneralPurposeBitFlag(le16(data, 6)),
                        compression_method: le16(data, 8),
                        last_mod_time: le16(data, 10),
                        last_mod_date: le16(data, 12),
                        crc32: le32(data, 14),
                        compressed_size: le32(data, 18),
                        uncompressed_size: le32(data, 22),
                        filename_length: le16(data, 26),
                        extra_field_length: le16(data, 28),
                        filename,
                        extra_fields: efs,
                        zip64: spec_zip64_slot(efs, le32(data, 22), le32(data, 18), None),
                        unicode_path: spec_unicode_path_slot(efs, filename),
                    },
                ),
            }
        }
    }
}

impl LocalFileHeader {
    /// Total size of this LFH record, including its variable-length tail.
    pub fn len(&self) -> (r: usize)
        ensures
            r == spec_lfh_len(self@),
    {
        LFH_MIN_SIZE + self.filename_length as usize + self.extra_field_length as usize
    }

    /// Parse a Local File Header from the front of `data`.
    pub fn parse(data: &[u8]) -> (r: Result<LocalFileHeader, ZipParseError>)
        ensures
            match r {
                Ok(h) => spec_parse_lfh(data@) == Ok::<_, ZipParseError>(h@),
                Err(e) => spec_parse_lfh(data@) == Err::<LocalFileHeaderV, _>(e),
            },
    {
        let n = data.len();
        if n < 30 {
            return Err(ZipParseError::TooShort { expected: 30, got: n as u64 });
        }
        let signature = u32_at(data, 0);
        if signature != 0x04034b50 {
            return Err(ZipParseError::InvalidSignature { expected: 0x04034b50, got: signature });
        }
        let filename_length = u16_at(data, 26);
        let extra_field_length = u16_at(data, 28);
        let fnl = filename_length as usize;
        let efl = extra_field_length as usize;
        if n < 30 + fnl + efl {
            return Err(ZipParseError::TooShort { expected: (30 + fnl + efl) as u64, got: n as u64 });
        }
        let filename: Vec<u8> = slice_to_vec(&data[30..30 + fnl]);
        let extra_data: Vec<u8> = slice_to_vec(&data[30 + fnl..30 + fnl + efl]);
        let extra_fields = match ExtraField::parse_all(extra_data.as_slice()) {
            Ok(efs) => efs,
            Err(e) => {
                return Err(e);
            },
        };
        let uncompressed_size = u32_at(data, 22);
        let compressed_size = u32_at(data, 18);
        let (zip64, unicode_path) = derived_slots(
            &extra_fields,
            &filename,
            uncompressed_size,
            compressed_size,
            None,
        );
        let h = LocalFileHeader {
            signature,
            version_needed: u16_at(data, 4),
            flags: GeneralPurposeBitFlag(u16_at(data, 6)),
            compression_method: u16_at(data, 8),
            last_mod_time: u16_at(data, 10),
            last_mod_date: u16_at(data, 12),
            crc32: u32_at(data, 14),
            compressed_size,
            uncompressed_size,
            filename_length,
            extra_field_length,
            filename,
            extra_fields,
            zip64,
            unicode_path,
        };
        proof {
            let hv = spec_parse_lfh(data@)->Ok_0;
            assert(h@ =~= hv);
        }
        Ok(h)
    }
}

/// End of Central Directory record (EOCD).
#[derive(Debug, Clone, PartialEq, Eq)]
pub struct EndOfCentralDirectory {
    /// End of central dir signature, 0x06054b50.
    pub signature: u32,
    /// Number of this disk.
    pub disk_number: u16,
    /// Number of the disk with the start of the central directory.
    pub disk_number_with_eocd: u16,
    /// Number of central directory records on this disk.
    pub entries_on_disk: u16,
    /// Total number of central directory records.
    pub total_entries: u16,
    /// Size of the central directory.
    pub central_directory_size: u32,
    /// Offset of the start of the central directory.
    pub central_directory_offset: u32,
    /// Archive comment length.
    pub comment_length: u16,
    /// Archive comment bytes.
    pub comment: Vec<u8>,
}

/// Spec-level model of an EOCD record.
#[verifier::ext_equal]
pub ghost struct EndOfCentralDirectoryV {
    pub signature: u32,
    pub disk_number: u16,
    pub disk_number_with_eocd: u16,
    pub entries_on_disk: u16,
    pub total_entries: u16,
    pub central_directory_size: u32,
    pub central_directory_offset: u32,
    pub comment_length: u16,
    pub comment: Seq<u8>,
}

impl View for EndOfCentralDirectory {
    type V = EndOfCentralDirectoryV;

    open spec fn view(&self) -> EndOfCentralDirectoryV {
        EndOfCentralDirectoryV {
            signature: self.signature,
            disk_number: self.disk_number,
            disk_number_with_eocd: self.disk_number_with_eocd,
            entries_on_disk: self.entries_on_disk,
            total_entries: self.total_entries,
            central_directory_size: self.central_directory_size,
            central_directory_offset: self.central_directory_offset,
            comment_length: self.comment_length,
            comment: self.comment@,
        }
    }
}

/// Minimum size of an EOCD record, without the comment.
pub const EOCD_MIN_SIZE: usize = 22;

/// The EOCD record encoded at the front of `data`, or the error that
/// rejects it: too short, wrong signature, or a declared comment length
/// that overruns the bytes at hand.
pub open spec fn spec_parse_eocd(data: Seq<u8>) -> Result<EndOfCentralDirectoryV, ZipParseError> {
    if data.len() < 22 {
        Err(ZipParseError::TooShort { expected: 22u64, got: data.len() as u64 })
    } else if le32(data, 0) != 0x06054b50u32 {
        Err(ZipParseError::InvalidSignature { expected: 0x06054b50u32, got: le32(data, 0) })
    } else {
        let cl = le16(data, 20) as int;
        if data.len() < 22 + cl {
            Err(ZipParseError::TooShort { expected: (22 + cl) as u64, got: data.len() as u64 })
        } else {
            Ok(
                EndOfCentralDirectoryV {
                    signature: le32(data, 0),
                    disk_number: le16(data, 4),
                    disk_number_with_eocd: le16(data, 6),
                    entries_on_disk: le16(data, 8),
                    total_entries: le16(data, 10),
                    central_directory_size: le32(data, 12),
                    central_directory_offset: le32(data, 16),
                    comment_length: le16(data, 20),
                    comment: data.subrange(22, 22 + cl),
                },
            )
        }
    }
}

impl EndOfCentralDirectory {
    /// Parse an End of Central Directory record from the front of `data`.
    pub fn parse(data: &[u8]) -> (r: Result<EndOfCentralDirectory, ZipParseError>)
        ensures
            match r {
                Ok(h) => spec_parse_eocd(data@) == Ok::<_, ZipParseError>(h@),
                Err(e) => spec_parse_eocd(data@) == Err::<EndOfCentralDirectoryV, _>(e),
            },
    {
        let n = data.len();
        if n < 22 {
            return Err(ZipParseError::TooShort { expected: 22, got: n as u64 });
        }
        let signature = u32_at(data, 0);
        if signature != 0x06054b50 {
            return Err(ZipParseError::InvalidSignature { expected: 0x06054b50, got: signature });
        }
        let comment_length = u16_at(data, 20);
        let cl = comment_length as usize;
        if n < 22 + cl {
            return Err(ZipParseError::TooShort { expected: (22 + cl) as u64, got: n as u64 });
        }
        let comment: Vec<u8> = slice_to_vec(&data[22..22 + cl]);
        let h = EndOfCentralDirectory {
            signature,
            disk_number: u16_at(data, 4),
            disk_number_with_eocd: u16_at(data, 6),
            entries_on_disk: u16_at(data, 8),
            total_entries: u16_at(data, 10),
            central_directory_size: u32_at(data, 12),
            central_directory_offset: u32_at(data, 16),
            comment_length,
            comment,
        };
        proof {
            let hv = spec_parse_eocd(data@)->Ok_0;
            assert(h@ =~= hv);
        }
        Ok(h)
    }
}

/// ZIP64 End of Central Directory Locator.
#[derive(Debug, Clone, Copy, PartialEq, Eq, Structural)]
pub struct Zip64EndOfCentralDirectoryLocator {
    /// Locator signature, 0x07064b50.
    pub signature: u32,
    /// Number of the disk with the ZIP64 EOCD record.
    pub disk_with_eocd: u32,
    /// Offset of the ZIP64 EOCD record.
    pub eocd_offset: u64,
    /// Total number of disks.
    pub total_disks: u32,
}

/// Size of a ZIP64 EOCD locator.
pub const ZIP64_LOCATOR_SIZE: usize = 20;

/// The ZIP64 EOCD locator encoded by `data`, which must be exactly 20
/// bytes and start with the locator signature.
pub open spec fn spec_parse_zip64_locator(data: Seq<u8>) -> Result<
    Zip64EndOfCentralDirectoryLocator,
    ZipParseError,
> {
    if data.len() != 20 {
        Err(ZipParseError::TooShort { expected: 20u64, got: data.len() as u64 })
    } else if le32(data, 0) != 0x07064b50u32 {
        Err(ZipParseError::InvalidSignature { expected: 0x07064b50u32, got: le32(data, 0) })
    } else {
        Ok(
            Zip64EndOfCentralDirectoryLocator {
                signature: le32(data, 0),
                disk_with_eocd: le32(data, 4),
                eocd_offset: le64(data, 8),
                total_disks: le32(data, 16),
            },
        )
    }
}

impl Zip64EndOfCentralDirectoryLocator {
    /// Parse a ZIP64 EOCD locator.
    pub fn parse(data: &[u8]) -> (r: Result<Zip64EndOfCentralDirectoryLocator, ZipParseError>)
        ensures
            r == spec_parse_zip64_locator(data@),
    {
        let n = data.len();
        if n != 20 {
            return Err(ZipParseError::TooShort { expected: 20, got: n as u64 });
        }
        let signature = u32_at(data, 0);
        if signature != 0x07064b50 {
            return Err(ZipParseError::InvalidSignature { expected: 0x07064b50, got: signature });
        }
        Ok(
            Zip64EndOfCentralDirectoryLocator {
                signature,
                disk_with_eocd: u32_at(data, 4),
                eocd_offset: u64_at(data, 8),
                total_disks: u32_at(data, 16),
            },
        )
    }
}

/// ZIP64 End of Central Directory record, fixed part.
#[derive(Debug, Clone, Copy, PartialEq, Eq, Structural)]
pub struct Zip64EndOfCentralDirectoryHeader {
    /// ZIP64 EOCD signature, 0x06064b50.
    pub signature: u32,
    /// Size of the record that follows the first 12 bytes.
    pub size_of_record: u64,
    /// Version made by.
    pub version_made_by: u16,
    /// Version needed to extract.
    pub version_needed: u16,
    /// Number of this disk.
    pub disk_number: u32,
    /// Number of the disk with the start of the central directory.
    pub disk_number_with_eocd: u32,
    /// Entries in the central directory on this disk.
    pub total_entries_on_disk: u64,
    /// Total entries in the central directory.
    pub total_entries: u64,
    /// Size of the central directory.
    pub central_directory_size: u64,
    /// Offset of the start of the central directory.
    pub central_directory_offset: u64,
}

/// Size of the fixed part of a ZIP64 EOCD record.
pub const ZIP64_EOCD_HEADER_SIZE: usize = 56;

/// The fixed part of a ZIP64 EOCD record encoded by `data`, which must be
/// exactly 56 bytes and start with the ZIP64 EOCD signature.
pub open spec fn spec_parse_zip64_eocd_header(data: Seq<u8>) -> Result<
    Zip64EndOfCentralDirectoryHeader,
    ZipParseError,
> {
    if data.len() != 56 {
        Err(ZipParseError::TooShort { expected: 56u64, got: data.len() as u64 })
    } else if le32(data, 0) != 0x06064b50u32 {
        Err(ZipParseError::InvalidSignature { expected: 0x06064b50u32, got: le32(data, 0) })
    } else {
        Ok(
            Zip64EndOfCentralDirectoryHeader {
                signature: le32(data, 0),
                size_of_record: le64(data, 4),
                version_made_by: le16(data, 12),
                version_needed: le16(data, 14),
                disk_number: le32(data, 16),
                disk_number_with_eocd: le32(data, 20),
                total_entries_on_disk: le64(data, 24),
                total_entries: le64(data, 32),
                central_directory_size: le64(data, 40),
                central_directory_offset: le64(data, 48),
            },
        )
    }
}

impl Zip64EndOfCentralDirectoryHeader {
    /// Parse the fixed part of a ZIP64 EOCD record.
    pub fn parse(data: &[u8]) -> (r: Result<Zip64EndOfCentralDirectoryHeader, ZipParseError>)
        ensures
            r == spec_parse_zip64_eocd_header(data@),
    {
        let n = data.len();
        if n != 56 {
            return Err(ZipParseError::TooShort { expected: 56, got: n as u64 });
        }
        let signature = u32_at(data, 0);
        if signature != 0x06064b50 {
            return Err(ZipParseError::InvalidSignature { expected: 0x06064b50, got: signature });
        }
        Ok(
            Zip64EndOfCentralDirectoryHeader {
                signature,
                size_of_record: u64_at(data, 4),
                version_made_by: u16_at(data, 12),
                version_needed: u16_at(data, 14),
                disk_number: u32_at(data, 16),
                disk_number_with_eocd: u32_at(data, 20),
                total_entries_on_disk: u64_at(data, 24),
                total_entries: u64_at(data, 32),
                central_directory_size: u64_at(data, 40),
                central_directory_offset: u64_at(data, 48),
            },
        )
    }
}

/// ZIP64 End of Central Directory record with its extensible data sector.
#[derive(Debug, Clone, PartialEq, Eq)]
pub struct Zip64EndOfCentralDirectory(
    pub Zip64EndOfCentralDirectoryHeader,
    /// Extensible data sector, kept as raw bytes.
    pub Vec<u8>,
);

/// Spec-level model of a ZIP64 EOCD record with its extensible data.
#[verifier::ext_equal]
pub ghost struct Zip64EndOfCentralDirectoryV {
    pub header: Zip64EndOfCentralDirectoryHeader,
    pub extensible_data: Seq<u8>,
}

impl View for Zip64EndOfCentralDirectory {
    type V = Zip64EndOfCentralDirectoryV;

    open spec fn view(&self) -> Zip64EndOfCentralDirectoryV {
        Zip64EndOfCentralDirectoryV { header: self.0, extensible_data: self.1@ }
    }
}

/// A data descriptor that follows an entry's payload when LFH flag bit 3
/// is set. It may or may not be prefixed by the signature 0x08074b50;
/// which layout applies is decided by looking at the four bytes after each
/// candidate layout and asking whether they begin a known section (LFH,
/// CDH, EOCD or ZIP64 EOCD). The descriptor's values are informational;
/// the CDH stays authoritative.
#[derive(Debug, Clone, Copy, PartialEq, Eq)]
pub enum DataDescriptor {
    Standard { signature: Option<u32>, crc32: u32, compressed_size: u32, uncompressed_size: u32 },
    Zip64 { signature: Option<u32>, crc32: u32, compressed_size: u64, uncompressed_size: u64 },
}

/// Bytes needed to inspect a standard data descriptor: the largest layout
/// (signature, CRC-32, two 32-bit sizes) plus the four bytes that follow.
pub const DD_INSPECT_SIZE_STANDARD: usize = 20;

/// Bytes needed to inspect a ZIP64 data descriptor: the largest layout
/// (signature, CRC-32, two 64-bit sizes) plus the four bytes that follow.
pub const DD_INSPECT_SIZE_ZIP64: usize = 28;

/// Whether `value` is the signature of a section that can follow a data
/// descriptor: LFH, CDH, EOCD or ZIP64 EOCD.
pub open spec fn spec_is_next_section_signature(value: u32) -> bool {
    value == 0x04034b50u32 || value == 0x02014b50u32 || value == 0x06054b50u32 || value
        == 0x06064b50u32
}

pub open spec fn dd_is_zip64(d: DataDescriptor) -> bool {
    d is Zip64
}

pub open spec fn dd_crc32(d: DataDescriptor) -> u32 {
    match d {
        DataDescriptor::Standard { crc32, .. } => crc32,
        DataDescriptor::Zip64 { crc32, .. } => crc32,
    }
}

pub open spec fn dd_compressed_size(d: DataDescriptor) -> u64 {
    match d {
        DataDescriptor::Standard { compressed_size, .. } => compressed_size as u64,
        DataDescriptor::Zip64 { compressed_size, .. } => compressed_size,
    }
}

pub open spec fn dd_uncompressed_size(d: DataDescriptor) -> u64 {
    match d {
        DataDescriptor::Standard { uncompressed_size, .. } => uncompressed_size as u64,
        DataDescriptor::Zip64 { uncompressed_size, .. } => uncompressed_size,
    }
}

/// The standard data descriptor encoded at the front of `data` (which
/// holds the descriptor and the four bytes after it), or the error that
/// rejects it. The layout with a signature prefix applies when the four
/// bytes at offset 16 begin a known section; the layout without one when
/// the four bytes at offset 12 do; otherwise the bytes are ambiguous.
pub open spec fn spec_parse_dd_standard(data: Seq<u8>) -> Result<DataDescriptor, ZipParseError> {
    if data.len() < 20 {
        Err(ZipParseError::TooShort { expected: 20u64, got: data.len() as u64 })
    } else if spec_is_next_section_signature(le32(data, 16)) {
        if le32(data, 0) != 0x08074b50u32 {
            Err(ZipParseError::InvalidSignature { expected: 0x08074b50u32, got: le32(data, 0) })
        } else {
            Ok(
                DataDescriptor::Standard {
                    signature: Some(le32(data, 0)),
                    crc32: le32(data, 4),
                    compressed_size: le32(data, 8),
                    uncompressed_size: le32(data, 12),
                },
            )
        }
    } else if spec_is_next_section_signature(le32(data, 12)) {
        Ok(
            DataDescriptor::Standard {
                signature: None,
                crc32: le32(data, 0),
                compressed_size: le32(data, 4),
                uncompressed_size: le32(data, 8),
            },
        )
    } else {
        Err(ZipParseError::AmbiguousDataDescriptor)
    }
}

/// The ZIP64 data descriptor encoded at the front of `data`, decided the
/// same way with the candidate positions at offsets 24 and 20.
pub open spec fn spec_parse_dd_zip64(data: Seq<u8>) -> Result<DataDescriptor, ZipParseError> {
    if data.len() < 28 {
        Err(ZipParseError::TooShort { expected: 28u64, got: data.len() as u64 })
    } else if spec_is_next_section_signature(le32(data, 24)) {
        if le32(data, 0) != 0x08074b50u32 {
            Err(ZipParseError::InvalidSignature { expected: 0x08074b50u32, got: le32(data, 0) })
        } else {
            Ok(
                DataDescriptor::Zip64 {
                    signature: Some(le32(data, 0)),
                    crc32: le32(data, 4),
                    compressed_size: le64(data, 8),
                    uncompressed_size: le64(data, 16),
                },
            )
        }
    } else if spec_is_next_section_signature(le32(data, 20)) {
        Ok(
            DataDescriptor::Zip64 {
                signature: None,
                crc32: le32(data, 0),
                compressed_size: le64(data, 4),
                uncompressed_size: le64(data, 12),
            },
        )
    } else {
        Err(ZipParseError::AmbiguousDataDescriptor)
    }
}

impl DataDescriptor {
    /// Whether this is the ZIP64 form.
    pub fn is_zip64(&self) -> (r: bool)
        ensures
            r == dd_is_zip64(*self),
    {
        match self {
            DataDescriptor::Standard { .. } => false,
            DataDescriptor::Zip64 { .. } => true,
        }
    }

    /// The CRC-32 value.
    pub fn get_crc32(&self) -> (r: u32)
        ensures
            r == dd_crc32(*self),
    {
        match self {
            DataDescriptor::Standard { crc32, .. } => *crc32,
            DataDescriptor::Zip64 { crc32, .. } => *crc32,
        }
    }

    /// The compressed size, widened to 64 bits.
    pub fn get_compressed_size(&self) -> (r: u64)
        ensures
            r == dd_compressed_size(*self),
    {
        match self {
            DataDescriptor::Standard { compressed_size, .. } => *compressed_size as u64,
            DataDescriptor::Zip64 { compressed_size, .. } => *compressed_size,
        }
    }

    /// The uncompressed size, widened to 64 bits.
    pub fn get_uncompressed_size(&self) -> (r: u64)
        ensures
            r == dd_uncompressed_size(*self),
    {
        match self {
            DataDescriptor::Standard { uncompressed_size, .. } => *uncompressed_size as u64,
            DataDescriptor::Zip64 { uncompressed_size, .. } => *uncompressed_size,
        }
    }

    /// Whether `value` begins a section that can follow a data descriptor.
    fn is_next_section_signature(value: u32) -> (r: bool)
        ensures
            r == spec_is_next_section_signature(value),
    {
        value == 0x04034b50 || value == 0x02014b50 || value == 0x06054b50 || value == 0x06064b50
    }

    /// Parse a standard data descriptor together with the four bytes that
    /// follow it.
    pub fn parse_standard(data: &[u8]) -> (r: Result<DataDescriptor, ZipParseError>)
        ensures
            r == spec_parse_dd_standard(data@),
    {
        let n = data.len();
        if n < 20 {
            return Err(ZipParseError::TooShort { expected: 20, got: n as u64 });
        }
        if Self::is_next_section_signature(u32_at(data, 16)) {
            let signature = u32_at(data, 0);
            if signature != 0x08074b50 {
                return Err(
                    ZipParseError::InvalidSignature { expected: 0x08074b50, got: signature },
                );
            }
            Ok(
                DataDescriptor::Standard {
                    signature: Some(signature),
                    crc32: u32_at(data, 4),
                    compressed_size: u32_at(data, 8),
                    uncompressed_size: u32_at(data, 12),
                },
            )
        } else if Self::is_next_section_signature(u32_at(data, 12)) {
            Ok(
                DataDescriptor::Standard {
                    signature: None,
                    crc32: u32_at(data, 0),
                    compressed_size: u32_at(data, 4),
                    uncompressed_size: u32_at(data, 8),
                },
            )
        } else {
            Err(ZipParseError::AmbiguousDataDescriptor)
        }
    }

    /// Parse a ZIP64 data descriptor together with the four bytes that
    /// follow it.
    pub fn parse_zip64(data: &[u8]) -> (r: Result<DataDescriptor, ZipParseError>)
        ensures
            r == spec_parse_dd_zip64(data@),
    {
        let n = data.len();
        if n < 28 {
            return Err(ZipParseError::TooShort { expected: 28, got: n as u64 });
        }
        if Self::is_next_section_signature(u32_at(data, 24)) {
            let signature = u32_at(data, 0);
            if signature != 0x08074b50 {
                return Err(
                    ZipParseError::InvalidSignature { expected: 0x08074b50, got: signature },
                );
            }
            Ok(
                DataDescriptor::Zip64 {
                    signature: Some(signature),
                    crc32: u32_at(data, 4),
                    compressed_size: u64_at(data, 8),
                    uncompressed_size: u64_at(data, 16),
                },
            )
        } else if Self::is_next_section_signature(u32_at(data, 20)) {
            Ok(
                DataDescriptor::Zip64 {
                    signature: None,
                    crc32: u32_at(data, 0),
                    compressed_size: u64_at(data, 4),
                    uncompressed_size: u64_at(data, 12),
                },
            )
        } else {
            Err(ZipParseError::AmbiguousDataDescriptor)
        }
    }
}

/// Random-access source of archive bytes. The parser asks for its total
/// size once and then for byte ranges; a read near the end of the source
/// may return fewer bytes than asked for. Implementations live with the
/// caller (a file, a memory buffer, a remote blob).
pub trait ZipReader {
    /// Total size of the archive in bytes.
    fn get_size(&mut self) -> Result<u64, ZipParseError>;

    /// Read up to `size` bytes starting at `offset`.
    fn read(&mut self, offset: u64, size: u64) -> Result<Vec<u8>, ZipParseError>;
}

/// Receiver for non-fatal anomalies met while walking the central
/// directory. `warn` returns whether the walk should continue.
pub trait WarningSink {
    /// Report an anomaly, tagged with the entry index where one applies.
    fn warn(&mut self, index: Option<u64>, error: ZipParseError) -> bool;
}

/// A warning sink that records every warning and always continues.
#[derive(Debug, Clone)]
pub struct WarningCollector {
    /// The warnings reported so far, in order.
    pub warnings: Vec<(Option<u64>, ZipParseError)>,
}

impl WarningCollector {
    /// An empty collector.
    pub fn new() -> (r: WarningCollector)
        ensures
            r.warnings@.len() == 0,
    {
        WarningCollector { warnings: Vec::new() }
    }
}

impl WarningSink for WarningCollector {
    fn warn(&mut self, index: Option<u64>, error: ZipParseError) -> bool {
        self.warnings.push((index, error));
        true
    }
}

/// One archive member: its central directory header, its local file
/// header, its optional data descriptor, and the position of its payload
/// in the source archive.
#[derive(Debug, Clone, PartialEq, Eq)]
pub struct ZipFileEntry {
    /// The entry's Central Directory Header.
    pub cdh: CentralDirectoryHeader,
    /// The entry's Local File Header.
    pub lfh: LocalFileHeader,
    /// The data descriptor after the payload, when flag bit 3 is set and
    /// it could be read.
    pub descriptor: Option<DataDescriptor>,
    /// Absolute offset of the entry's payload in the source archive.
    pub file_offset: u64,
    /// Size in bytes of the entry's payload.
    pub file_size: u64,
}

/// Spec-level model of an archive member.
#[verifier::ext_equal]
pub ghost struct ZipFileEntryV {
    pub cdh: CentralDirectoryHeaderV,
    pub lfh: LocalFileHeaderV,
    pub descriptor: Option<DataDescriptor>,
    pub file_offset: u64,
    pub file_size: u64,
}

impl View for ZipFileEntry {
    type V = ZipFileEntryV;

    open spec fn view(&self) -> ZipFileEntryV {
        ZipFileEntryV {
            cdh: self.cdh@,
            lfh: self.lfh@,
            descriptor: self.descriptor,
            file_offset: self.file_offset,
            file_size: self.file_size,
        }
    }
}

/// A parsed archive.
#[derive(Debug, Clone)]
pub struct ZipFile {
    /// Total size of the source archive in bytes.
    pub size: u64,
    /// The members, in central-directory order.
    pub entries: Vec<ZipFileEntry>,
    /// The end-of-central-directory record.
    pub eocd: EndOfCentralDirectory,
    /// The ZIP64 end-of-central-directory record and its locator, when the
    /// EOCD carried a saturated field.
    pub zip64_eocd: Option<
        (Zip64EndOfCentralDirectory, Option<Zip64EndOfCentralDirectoryLocator>),
    >,
}

/// Spec-level model of a parsed archive.
#[verifier::ext_equal]
pub ghost struct ZipFileV {
    pub size: u64,
    pub entries: Seq<ZipFileEntryV>,
    pub eocd: EndOfCentralDirectoryV,
    pub zip64_eocd: Option<(Zip64EndOfCentralDirectoryV, Option<Zip64EndOfCentralDirectoryLocator>)>,
}

impl View for ZipFile {
    type V = ZipFileV;

    open spec fn view(&self) -> ZipFileV {
        ZipFileV {
            size: self.size,
            entries: self.entries@.map_values(|e: ZipFileEntry| e@),
            eocd: self.eocd@,
            zip64_eocd: match self.zip64_eocd {
                Some((z, loc)) => Some((z@, loc)),
                None => None,
            },
        }
    }
}

/// The uncompressed size declared for an entry: the ZIP64 extension when
/// present, else the 32-bit CDH field.
pub open spec fn spec_effective_uncompressed_size(cdh: CentralDirectoryHeaderV) -> u64 {
    match cdh.zip64 {
        Some(z) => match z.uncompressed_size {
            Some(v) => v,
            None => cdh.uncompressed_size as u64,
        },
        None => cdh.uncompressed_size as u64,
    }
}

/// The compressed size declared for an entry: the ZIP64 extension when
/// present, else the 32-bit CDH field.
pub open spec fn spec_effective_compressed_size(cdh: CentralDirectoryHeaderV) -> u64 {
    match cdh.zip64 {
        Some(z) => match z.compressed_size {
            Some(v) => v,
            None => cdh.compressed_size as u64,
        },
        None => cdh.compressed_size as u64,
    }
}

/// The local-header offset declared for an entry: the ZIP64 extension when
/// present, else the 32-bit CDH field.
pub open spec fn spec_effective_local_header_offset(cdh: CentralDirectoryHeaderV) -> u64 {
    match cdh.zip64 {
        Some(z) => match z.local_header_offset {
            Some(v) => v,
            None => cdh.local_header_offset as u64,
        },
        None => cdh.local_header_offset as u64,
    }
}

/// The number of central-directory entries the archive declares: from the
/// ZIP64 EOCD record when present, else from the EOCD.
pub open spec fn spec_effective_total_entries(z: ZipFileV) -> u64 {
    match z.zip64_eocd {
        Some((z64, _)) => z64.header.total_entries,
        None => z.eocd.total_entries as u64,
    }
}

/// Well-formedness of one parsed member with respect to an archive of
/// `size` bytes: the headers carry their signatures, the payload position
/// is the declared local-header offset (ZIP64-promoted) plus the local
/// header's full length, the payload size is the declared compressed size
/// (ZIP64-promoted), the declared local-header offset lies within the
/// archive, and a descriptor is only present when flag bit 3 asks for one.
pub open spec fn zip_entry_wf(e: ZipFileEntryV, size: u64) -> bool {
    &&& e.cdh.signature == 0x02014b50u32
    &&& e.lfh.signature == 0x04034b50u32
    &&& e.file_size == spec_effective_compressed_size(e.cdh)
    &&& e.file_offset == spec_effective_local_header_offset(e.cdh) + spec_lfh_len(e.lfh)
    &&& spec_effective_local_header_offset(e.cdh) < size
    &&& (e.descriptor is Some ==> spec_has_data_descriptor(e.lfh.flags))
}

/// Well-formedness of a parsed archive: the records carry their
/// signatures, there are no more entries than the directory declares, and
/// every entry is well-formed.
pub open spec fn zip_file_wf(z: ZipFileV) -> bool {
    &&& z.eocd.signature == 0x06054b50u32
    &&& z.entries.len() <= spec_effective_total_entries(z)
    &&& forall|i: int| 0 <= i < z.entries.len() ==> zip_entry_wf(#[trigger] z.entries[i], z.size)
    &&& match z.zip64_eocd {
        Some((z64, loc)) => {
            &&& z64.header.signature == 0x06064b50u32
            &&& match loc {
                Some(l) => l.signature == 0x07064b50u32,
                None => true,
            }
        },
        None => true,
    }
}

/// Whether position `i` holds the last EOCD signature of `data` that has
/// at least the 22 fixed EOCD bytes after it.
pub open spec fn spec_is_last_eocd_pos(data: Seq<u8>, i: int) -> bool {
    &&& 0 <= i
    &&& i + 22 <= data.len()
    &&& le32(data, i) == 0x06054b50u32
    &&& forall|j: int| i < j && j + 22 <= data.len() ==> le32(data, j) != 0x06054b50u32
}

/// Scan `data` from the end for the last EOCD signature with room for the
/// fixed part of the record.
#[verifier::loop_isolation(false)]
fn find_last_eocd(data: &[u8]) -> (r: Option<usize>)
    ensures
        match r {
            Some(i) => spec_is_last_eocd_pos(data@, i as int),
            None => forall|j: int| 0 <= j && j + 22 <= data@.len() ==> le32(data@, j)
                != 0x06054b50u32,
        },
{
    let n = data.len();
    if n < 22 {
        return None;
    }
    let mut i: usize = n - 21;
    while i > 0
        invariant
            i <= n - 21,
            forall|j: int| i <= j && j + 22 <= data@.len() ==> le32(data@, j) != 0x06054b50u32,
        decreases i,
    {
        i = i - 1;
        if u32_at(data, i) == 0x06054b50 {
            return Some(i);
        }
    }
    None
}

/// Whether position `i` holds the last ZIP64 EOCD signature of `data`
/// that has at least the 56 fixed record bytes after it.
pub open spec fn spec_is_last_zip64_eocd_pos(data: Seq<u8>, i: int) -> bool {
    &&& 0 <= i
    &&& i + 56 <= data.len()
    &&& le32(data, i) == 0x06064b50u32
    &&& forall|j: int| i < j && j + 56 <= data.len() ==> le32(data, j) != 0x06064b50u32
}

/// Scan `data` from the end for the last ZIP64 EOCD signature with room
/// for the fixed part of the record.
#[verifier::loop_isolation(false)]
fn find_last_zip64_eocd(data: &[u8]) -> (r: Option<usize>)
    ensures
        match r {
            Some(i) => spec_is_last_zip64_eocd_pos(data@, i as int),
            None => forall|j: int| 0 <= j && j + 56 <= data@.len() ==> le32(data@, j)
                != 0x06064b50u32,
        },
{
    let n = data.len();
    if n < 56 {
        return None;
    }
    let mut i: usize = n - 55;
    while i > 0
        invariant
            i <= n - 55,
            forall|j: int| i <= j && j + 56 <= data@.len() ==> le32(data@, j) != 0x06064b50u32,
        decreases i,
    {
        i = i - 1;
        if u32_at(data, i) == 0x06064b50 {
            return Some(i);
        }
    }
    None
}

/// EOCD location law: when the backward scan settles on position `i` of
/// the tail buffer and the record there parses, then `i` holds the last
/// EOCD signature of the buffer, the record's declared comment length is
/// the 16-bit field at `i + 20`, and the record with its comment fits
/// within the buffer.
pub proof fn lemma_eocd_location(data: Seq<u8>, i: int)
    requires
        spec_is_last_eocd_pos(data, i),
        spec_parse_eocd(data.skip(i)) is Ok,
    ensures
        le32(data, i) == 0x06054b50u32,
        forall|j: int| i < j && j + 22 <= data.len() ==> le32(data, j) != 0x06054b50u32,
        spec_parse_eocd(data.skip(i))->Ok_0.comment_length == le16(data, i + 20),
        i + 22 + spec_parse_eocd(data.skip(i))->Ok_0.comment_length <= data.len(),
{
    let rest = data.skip(i);
    assert(rest.subrange(20, 22) =~= data.subrange(i + 20, i + 22));
    let e = spec_parse_eocd(rest)->Ok_0;
    assert(e.comment_length == le16(rest, 20));
    assert(rest.len() >= 22 + e.comment_length);
}

/// Bound on the backward scan for a ZIP64 EOCD record when the locator is
/// absent.
pub const ZIP64_FALLBACK_SEARCH_SIZE: u64 = 1024 * 1024;

/// The declared uncompressed size of this header, ZIP64-promoted.
pub(crate) fn effective_uncompressed_size_of(cdh: &CentralDirectoryHeader) -> (r: u64)
    ensures
        r == spec_effective_uncompressed_size(cdh@),
{
    match &cdh.zip64 {
        Some(z) => match z.uncompressed_size {
            Some(v) => v,
            None => cdh.uncompressed_size as u64,
        },
        None => cdh.uncompressed_size as u64,
    }
}

/// The declared compressed size of this header, ZIP64-promoted.
pub(crate) fn effective_compressed_size_of(cdh: &CentralDirectoryHeader) -> (r: u64)
    ensures
        r == spec_effective_compressed_size(cdh@),
{
    match &cdh.zip64 {
        Some(z) => match z.compressed_size {
            Some(v) => v,
            None => cdh.compressed_size as u64,
        },
        None => cdh.compressed_size as u64,
    }
}

/// The declared local-header offset of this header, ZIP64-promoted.
pub(crate) fn effective_local_header_offset_of(cdh: &CentralDirectoryHeader) -> (r: u64)
    ensures
        r == spec_effective_local_header_offset(cdh@),
{
    match &cdh.zip64 {
        Some(z) => match z.local_header_offset {
            Some(v) => v,
            None => cdh.local_header_offset as u64,
        },
        None => cdh.local_header_offset as u64,
    }
}

impl ZipFile {
    /// Resolve one entry from its parsed CDH: fetch and parse its local
    /// file header, locate its payload, and read the data descriptor when
    /// flag bit 3 asks for one. Per-entry anomalies go to the sink; a
    /// reader failure is fatal.
    fn resolve_entry<R: ZipReader, S: WarningSink>(
        reader: &mut R,
        sink: &mut S,
        idx: u64,
        cdh: CentralDirectoryHeader,
        file_size: u64,
    ) -> (r: Result<Option<ZipFileEntry>, ZipParseError>)
        requires
            cdh@.signature == 0x02014b50u32,
        ensures
            match r {
                Ok(Some(e)) => zip_entry_wf(e@, file_size) && e@.cdh == cdh@,
                Ok(None) => true,
                Err(_) => true,
            },
    {
        let loc_off = effective_local_header_offset_of(&cdh);
        if loc_off >= file_size {
            let e = ZipParseError::TooShort { expected: LFH_MIN_SIZE as u64, got: 0 };
            if sink.warn(Some(idx), e) {
                return Ok(None);
            } else {
                return Err(e);
            }
        }
        let lfh_head = match reader.read(loc_off, LFH_MIN_SIZE as u64) {
            Ok(v) => v,
            Err(e) => {
                return Err(e);
            },
        };
        if lfh_head.len() < LFH_MIN_SIZE {
            let e = ZipParseError::TooShort {
                expected: LFH_MIN_SIZE as u64,
                got: lfh_head.len() as u64,
            };
            if sink.warn(Some(idx), e) {
                return Ok(None);
            } else {
                return Err(e);
            }
        }
        let fnl = u16_at(lfh_head.as_slice(), 26) as usize;
        let efl = u16_at(lfh_head.as_slice(), 28) as usize;
        let lfh_full_size = LFH_MIN_SIZE + fnl + efl;
        let lfh_data = match reader.read(loc_off, lfh_full_size as u64) {
            Ok(v) => v,
            Err(e) => {
                return Err(e);
            },
        };
        let lfh = match LocalFileHeader::parse(lfh_data.as_slice()) {
            Ok(h) => h,
            Err(e) => {
                if sink.warn(Some(idx), e) {
                    return Ok(None);
                } else {
                    return Err(e);
                }
            },
        };
        let lfh_len = lfh.len() as u64;
        if loc_off > u64::MAX - lfh_len {
            let e = ZipParseError::OffsetOverflow;
            if sink.warn(Some(idx), e) {
                return Ok(None);
            } else {
                return Err(e);
            }
        }
        let file_offset = loc_off + lfh_len;
        let entry_size = effective_compressed_size_of(&cdh);
        let descriptor = if lfh.flags.has_data_descriptor() {
            let has_zip64_ext = find_extra(&lfh.extra_fields, ZIP64_EXTRA_TAG).is_some()
                || find_extra(&cdh.extra_fields, ZIP64_EXTRA_TAG).is_some();
            if file_offset > u64::MAX - entry_size {
                let e = ZipParseError::OffsetOverflow;
                if sink.warn(Some(idx), e) {
                    None
                } else {
                    return Err(e);
                }
            } else {
                let dd_off = file_offset + entry_size;
                let inspect_size: u64 = if has_zip64_ext {
                    DD_INSPECT_SIZE_ZIP64 as u64
                } else {
                    DD_INSPECT_SIZE_STANDARD as u64
                };
                let dd_data = match reader.read(dd_off, inspect_size) {
                    Ok(v) => v,
                    Err(e) => {
                        return Err(e);
                    },
                };
                let parsed = if has_zip64_ext {
                    DataDescriptor::parse_zip64(dd_data.as_slice())
                } else {
                    DataDescriptor::parse_standard(dd_data.as_slice())
                };
                match parsed {
                    Ok(d) => Some(d),
                    Err(e) => {
                        if sink.warn(Some(idx), e) {
                            None
                        } else {
                            return Err(e);
                        }
                    },
                }
            }
        } else {
            None
        };
        Ok(Some(ZipFileEntry { cdh, lfh, descriptor, file_offset, file_size: entry_size }))
    }

    /// Parse a whole archive through the reader. The tail of the archive
    /// is scanned backward for the last EOCD signature; a saturated EOCD
    /// field sends the parser to the ZIP64 EOCD record, through its
    /// locator or a bounded backward scan; the central directory is then
    /// walked front to back, resolving each entry's local header and
    /// optional data descriptor. Per-entry anomalies are offered to the
    /// warning sink, which decides whether the walk continues; reader
    /// failures and a malformed directory structure are fatal. A returned
    /// archive is well-formed.
    #[verifier::loop_isolation(false)]
    pub fn parse<R: ZipReader, S: WarningSink>(reader: &mut R, sink: &mut S) -> (r: Result<
        ZipFile,
        ZipParseError,
    >)
        ensures
            match r {
                Ok(z) => zip_file_wf(z@),
                Err(_) => true,
            },
    {
        let file_size = match reader.get_size() {
            Ok(v) => v,
            Err(e) => {
                return Err(e);
            },
        };
        let search_size: u64 = if file_size < 65557 {
            file_size
        } else {
            65557
        };
        let search_offset: u64 = file_size - search_size;
        let eocd_data = match reader.read(search_offset, search_size) {
            Ok(v) => v,
            Err(e) => {
                return Err(e);
            },
        };
        let eocd_index = match find_last_eocd(eocd_data.as_slice()) {
            Some(i) => i,
            None => {
                return Err(ZipParseError::EocdNotFound);
            },
        };
        if eocd_index as u64 > u64::MAX - search_offset {
            return Err(ZipParseError::OffsetOverflow);
        }
        let eocd_offset: u64 = search_offset + eocd_index as u64;
        let eocd = match EndOfCentralDirectory::parse(&eocd_data[eocd_index..eocd_data.len()]) {
            Ok(e) => e,
            Err(e) => {
                return Err(e);
            },
        };
        let zip64_eocd = if eocd.total_entries == 0xFFFF || eocd.central_directory_size
            == 0xFFFFFFFF || eocd.central_directory_offset == 0xFFFFFFFF {
            if eocd_offset < ZIP64_LOCATOR_SIZE as u64 {
                return Err(ZipParseError::Zip64EocdNotFound);
            }
            let loc_data = match reader.read(
                eocd_offset - ZIP64_LOCATOR_SIZE as u64,
                ZIP64_LOCATOR_SIZE as u64,
            ) {
                Ok(v) => v,
                Err(e) => {
                    return Err(e);
                },
            };
            let locator = if loc_data.len() == ZIP64_LOCATOR_SIZE && u32_at(loc_data.as_slice(), 0)
                == 0x07064b50 {
                match Zip64EndOfCentralDirectoryLocator::parse(loc_data.as_slice()) {
                    Ok(l) => Some(l),
                    Err(e) => {
                        return Err(e);
                    },
                }
            } else {
                None
            };
            let zip64_off: u64 = match &locator {
                Some(l) => l.eocd_offset,
                None => {
                    let search_start = if eocd_offset > ZIP64_FALLBACK_SEARCH_SIZE {
                        eocd_offset - ZIP64_FALLBACK_SEARCH_SIZE
                    } else {
                        0
                    };
                    let back_size = eocd_offset - search_start;
                    let back_data = match reader.read(search_start, back_size) {
                        Ok(v) => v,
                        Err(e) => {
                            return Err(e);
                        },
                    };
                    match find_last_zip64_eocd(back_data.as_slice()) {
                        Some(i) => {
                            if i as u64 > u64::MAX - search_start {
                                return Err(ZipParseError::OffsetOverflow);
                            }
                            search_start + i as u64
                        },
                        None => {
                            return Err(ZipParseError::Zip64EocdNotFound);
                        },
                    }
                },
            };
            let hdr_data = match reader.read(zip64_off, ZIP64_EOCD_HEADER_SIZE as u64) {
                Ok(v) => v,
                Err(e) => {
                    return Err(e);
                },
            };
            let header = match Zip64EndOfCentralDirectoryHeader::parse(hdr_data.as_slice()) {
                Ok(h) => h,
                Err(e) => {
                    return Err(e);
                },
            };
            let extensible_data = if header.size_of_record > 44 {
                if zip64_off > u64::MAX - ZIP64_EOCD_HEADER_SIZE as u64 {
                    return Err(ZipParseError::OffsetOverflow);
                }
                match reader.read(
                    zip64_off + ZIP64_EOCD_HEADER_SIZE as u64,
                    header.size_of_record - 44,
                ) {
                    Ok(v) => v,
                    Err(e) => {
                        return Err(e);
                    },
                }
            } else {
                Vec::new()
            };
            Some((Zip64EndOfCentralDirectory(header, extensible_data), locator))
        } else {
            None
        };
        let (eff_cd_offset, eff_cd_size, eff_total): (u64, u64, u64) = match &zip64_eocd {
            Some((z, _)) => (
                z.0.central_directory_offset,
                z.0.central_directory_size,
                z.0.total_entries,
            ),
            None => (
                eocd.central_directory_offset as u64,
                eocd.central_directory_size as u64,
                eocd.total_entries as u64,
            ),
        };
        let cd_data = match reader.read(eff_cd_offset, eff_cd_size) {
            Ok(v) => v,
            Err(e) => {
                return Err(e);
            },
        };
        let cd_len = cd_data.len();
        let mut entries: Vec<ZipFileEntry> = Vec::new();
        let mut cdh_offset: usize = 0;
        let mut idx: u64 = 0;
        while idx < eff_total
            invariant
                entries@.len() <= idx,
                idx <= eff_total,
                cdh_offset <= cd_len,
                forall|k: int| 0 <= k < entries@.len() ==> zip_entry_wf(
                    #[trigger] entries@[k]@,
                    file_size,
                ),
            decreases eff_total - idx,
        {
            if cd_len - cdh_offset < CDH_MIN_SIZE {
                return Err(
                    ZipParseError::TooShort {
                        expected: CDH_MIN_SIZE as u64,
                        got: (cd_len - cdh_offset) as u64,
                    },
                );
            }
            let ghost rem = cd_data@.skip(cdh_offset as int);
            let cdh = match CentralDirectoryHeader::parse(&cd_data[cdh_offset..cd_len]) {
                Ok(h) => h,
                Err(e) => {
                    if sink.warn(Some(idx), e) {
                        break ;
                    } else {
                        return Err(e);
                    }
                },
            };
            proof {
                assert(spec_parse_cdh(rem) == Ok::<_, ZipParseError>(cdh@));
                assert(rem.len() >= spec_cdh_len(cdh@));
                assert(cdh@.signature == le32(rem, 0));
            }
            cdh_offset = cdh_offset + cdh.len();
            match Self::resolve_entry(reader, sink, idx, cdh, file_size) {
                Ok(Some(entry)) => {
                    entries.push(entry);
                },
                Ok(None) => {},
                Err(e) => {
                    return Err(e);
                },
            }
            idx = idx + 1;
        }
        let z = ZipFile { size: file_size, entries, eocd, zip64_eocd };
        proof {
            assert(forall|i: int| 0 <= i < z@.entries.len() ==> z@.entries[i]
                == z.entries@[i]@);
            assert(zip_file_wf(z@));
        }
        Ok(z)
    }
}

/// Unicode-path CRC law: a parsed Unicode-path extra is CRC-matched
/// exactly when the CRC-32/ISO-HDLC of the host header's filename bytes
/// equals the record's embedded CRC-32.
pub proof fn lemma_unicode_path_crc(data: Seq<u8>, host_filename: Seq<u8>)
    requires
        spec_parse_unicode_path(data, host_filename) is Some,
    ensures
        ({
            let up = spec_parse_unicode_path(data, host_filename)->0;
            up.crc32_matched <==> crc32_of(host_filename) == up.name_crc32
        }),
{
}

} // verus!
