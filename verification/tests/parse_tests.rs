use bakezip::crc32::crc32;
use bakezip::parse::CentralDirectoryHeader;
use bakezip::parse::DataDescriptor;
use bakezip::parse::EndOfCentralDirectory;
use bakezip::parse::ExtraField;
use bakezip::parse::LocalFileHeader;
use bakezip::parse::UnicodePathExtraField;
use bakezip::parse::WarningCollector;
use bakezip::parse::ZipFile;
use bakezip::parse::ZipParseError;
use bakezip::parse::ZipReader;
use bakezip::parse::parse_u16_le;
use bakezip::parse::parse_u32_le;
use bakezip::parse::parse_u64_le;

struct MemReader {
    data: Vec<u8>,
}

impl ZipReader for MemReader {
    fn get_size(&mut self) -> Result<u64, ZipParseError> {
        Ok(self.data.len() as u64)
    }

    fn read(&mut self, offset: u64, size: u64) -> Result<Vec<u8>, ZipParseError> {
        let offset = offset as usize;
        let size = size as usize;
        if offset >= self.data.len() {
            return Ok(Vec::new());
        }
        let end = std::cmp::min(offset + size, self.data.len());
        Ok(self.data[offset..end].to_vec())
    }
}

#[test]
fn test_parse_u32_le() {
    let data = [0x12, 0x34, 0x56, 0x78];
    assert_eq!(parse_u32_le(&data), 0x78563412);
}

#[test]
fn test_parse_u16_le() {
    let data = [0x12, 0x34];
    assert_eq!(parse_u16_le(&data), 0x3412);
}

#[test]
fn test_parse_u64_le() {
    let data = [0x01, 0x02, 0x03, 0x04, 0x05, 0x06, 0x07, 0x08];
    assert_eq!(parse_u64_le(&data), 0x0807060504030201);
}

#[test]
fn test_parse_lfh_valid() {
    let mut lfh_data = vec![0u8; 30];
    // Set signature
    lfh_data[0..4].copy_from_slice(&0x04034b50u32.to_le_bytes());
    // Set file name and extra field lengths to 0
    lfh_data[26..28].copy_from_slice(&0u16.to_le_bytes());
    lfh_data[28..30].copy_from_slice(&0u16.to_le_bytes());

    let result = LocalFileHeader::parse(&lfh_data);
    assert!(result.is_ok());
    let lfh = result.unwrap();
    assert_eq!(lfh.signature, 0x04034b50);
}

#[test]
fn test_parse_cdh_valid() {
    let mut cdh_data = vec![0u8; 46];
    // Set signature
    cdh_data[0..4].copy_from_slice(&0x02014b50u32.to_le_bytes());
    // Set all lengths to 0
    cdh_data[28..30].copy_from_slice(&0u16.to_le_bytes());
    cdh_data[30..32].copy_from_slice(&0u16.to_le_bytes());
    cdh_data[32..34].copy_from_slice(&0u16.to_le_bytes());

    let result = CentralDirectoryHeader::parse(&cdh_data);
    assert!(result.is_ok());
    let cdh = result.unwrap();
    assert_eq!(cdh.signature, 0x02014b50);
}

#[test]
fn test_parse_eocd_valid() {
    let mut eocd_data = vec![0u8; 22];
    // Set signature
    eocd_data[0..4].copy_from_slice(&0x06054b50u32.to_le_bytes());
    // Set comment length to 0
    eocd_data[20..22].copy_from_slice(&0u16.to_le_bytes());

    let result = EndOfCentralDirectory::parse(&eocd_data);
    assert!(result.is_ok());
    let eocd = result.unwrap();
    assert_eq!(eocd.signature, 0x06054b50);
}

#[test]
fn test_parse_extra_fields() {
    let mut data = vec![0u8; 14];
    // First field: tag=0x0001, size=4, data="test"
    data[0..2].copy_from_slice(&0x0001u16.to_le_bytes());
    data[2..4].copy_from_slice(&4u16.to_le_bytes());
    data[4..8].copy_from_slice(b"test");
    // Second field: tag=0x0002, size=2, data="ab"
    data[8..10].copy_from_slice(&0x0002u16.to_le_bytes());
    data[10..12].copy_from_slice(&2u16.to_le_bytes());
    data[12..14].copy_from_slice(b"ab");

    let result = ExtraField::parse_all(&data);
    assert!(result.is_ok());
    let fields = result.unwrap();
    assert_eq!(fields.len(), 2);
    assert_eq!(fields[0].tag, 0x0001);
    assert_eq!(fields[0].size, 4);
    assert_eq!(fields[0].data, b"test");
    assert_eq!(fields[1].tag, 0x0002);
    assert_eq!(fields[1].size, 2);
    assert_eq!(fields[1].data, b"ab");
}

#[test]
fn test_parse_extra_fields_empty() {
    let data: Vec<u8> = vec![];
    let result = ExtraField::parse_all(&data);
    assert!(result.is_ok());
    let fields = result.unwrap();
    assert_eq!(fields.len(), 0);
}

#[test]
fn test_parse_extra_fields_incomplete() {
    // Declared size overruns the region.
    let mut data = vec![0u8; 6];
    data[0..2].copy_from_slice(&0x0009u16.to_le_bytes());
    data[2..4].copy_from_slice(&8u16.to_le_bytes());
    let result = ExtraField::parse_all(&data);
    match result {
        Err(ZipParseError::IncompleteExtraField { tag }) => assert_eq!(tag, 0x0009),
        other => panic!("Expected IncompleteExtraField, got {:?}", other),
    }
}

#[test]
fn test_parse_extra_fields_trailing() {
    // Two stray bytes after a complete record.
    let mut data = vec![0u8; 6];
    data[0..2].copy_from_slice(&0x0009u16.to_le_bytes());
    data[2..4].copy_from_slice(&0u16.to_le_bytes());
    data[4] = 0xAA;
    data[5] = 0xBB;
    let result = ExtraField::parse_all(&data);
    match result {
        Err(ZipParseError::TrailingExtraBytes { trailing }) => assert_eq!(trailing, 2),
        other => panic!("Expected TrailingExtraBytes, got {:?}", other),
    }
}

#[test]
fn test_parse_lfh_bad_signature() {
    let mut lfh_data = vec![0u8; 30];
    lfh_data[0..4].copy_from_slice(&0x12345678u32.to_le_bytes());
    match LocalFileHeader::parse(&lfh_data) {
        Err(ZipParseError::InvalidSignature { expected, got }) => {
            assert_eq!(expected, 0x04034b50);
            assert_eq!(got, 0x12345678);
        }
        other => panic!("Expected InvalidSignature, got {:?}", other),
    }
}

#[test]
fn test_parse_cdh_too_short() {
    let cdh_data = vec![0u8; 10];
    match CentralDirectoryHeader::parse(&cdh_data) {
        Err(ZipParseError::TooShort { expected, got }) => {
            assert_eq!(expected, 46);
            assert_eq!(got, 10);
        }
        other => panic!("Expected TooShort, got {:?}", other),
    }
}

#[test]
fn test_crc32_check_value() {
    // The CRC-32/ISO-HDLC check value.
    assert_eq!(crc32(b"123456789"), 0xCBF43926);
    assert_eq!(crc32(b""), 0);
}

#[test]
fn test_unicode_path_extra_crc_match() {
    // version 1 | crc32("ascii.txt") | "unicode.txt"
    let mut data = vec![1u8];
    data.extend_from_slice(&crc32(b"ascii.txt").to_le_bytes());
    data.extend_from_slice(b"unicode.txt");
    let up = UnicodePathExtraField::parse(&data, b"ascii.txt").unwrap();
    assert!(up.crc32_matched);
    assert_eq!(up.decoded_string.as_deref(), Some("unicode.txt"));

    // The same record against another host filename does not match.
    let up2 = UnicodePathExtraField::parse(&data, b"other.txt").unwrap();
    assert!(!up2.crc32_matched);
    assert_eq!(up2.decoded_string.as_deref(), Some("unicode.txt"));
}

#[test]
fn test_unicode_path_extra_invalid_utf8() {
    let mut data = vec![1u8];
    data.extend_from_slice(&crc32(b"a").to_le_bytes());
    data.extend_from_slice(&[0x80, 0x81]);
    let up = UnicodePathExtraField::parse(&data, b"a").unwrap();
    assert!(up.crc32_matched);
    assert!(up.decoded_string.is_none());
}

#[test]
fn test_data_descriptor_ambiguous() {
    // Nothing after either candidate layout looks like a section start.
    let data = vec![0u8; 20];
    match DataDescriptor::parse_standard(&data) {
        Err(ZipParseError::AmbiguousDataDescriptor) => {}
        other => panic!("Expected AmbiguousDataDescriptor, got {:?}", other),
    }
}

#[test]
fn test_data_descriptor_without_signature() {
    // crc32 | compressed | uncompressed | next section signature (CDH)
    let mut data = vec![0u8; 20];
    data[0..4].copy_from_slice(&0xAABBCCDDu32.to_le_bytes());
    data[4..8].copy_from_slice(&5u32.to_le_bytes());
    data[8..12].copy_from_slice(&9u32.to_le_bytes());
    data[12..16].copy_from_slice(&0x02014b50u32.to_le_bytes());
    let dd = DataDescriptor::parse_standard(&data).unwrap();
    assert!(!dd.is_zip64());
    assert_eq!(dd.get_crc32(), 0xAABBCCDD);
    assert_eq!(dd.get_compressed_size(), 5);
    assert_eq!(dd.get_uncompressed_size(), 9);
}

#[test]
fn test_data_descriptor_with_signature() {
    // signature | crc32 | compressed | uncompressed | next section signature
    let mut data = vec![0u8; 20];
    data[0..4].copy_from_slice(&0x08074b50u32.to_le_bytes());
    data[4..8].copy_from_slice(&0x11223344u32.to_le_bytes());
    data[8..12].copy_from_slice(&7u32.to_le_bytes());
    data[12..16].copy_from_slice(&8u32.to_le_bytes());
    data[16..20].copy_from_slice(&0x04034b50u32.to_le_bytes());
    let dd = DataDescriptor::parse_standard(&data).unwrap();
    assert_eq!(dd.get_crc32(), 0x11223344);
    assert_eq!(dd.get_compressed_size(), 7);
    assert_eq!(dd.get_uncompressed_size(), 8);
}

#[test]
fn test_data_descriptor_zip64() {
    // crc32 | compressed (8) | uncompressed (8) | next section signature
    let mut data = vec![0u8; 28];
    data[0..4].copy_from_slice(&0x55667788u32.to_le_bytes());
    data[4..12].copy_from_slice(&0x100000001u64.to_le_bytes());
    data[12..20].copy_from_slice(&0x200000002u64.to_le_bytes());
    data[20..24].copy_from_slice(&0x06054b50u32.to_le_bytes());
    let dd = DataDescriptor::parse_zip64(&data).unwrap();
    assert!(dd.is_zip64());
    assert_eq!(dd.get_crc32(), 0x55667788);
    assert_eq!(dd.get_compressed_size(), 0x100000001);
    assert_eq!(dd.get_uncompressed_size(), 0x200000002);
}

/// A minimal stored archive with one entry "test.txt" holding "hello".
fn tiny_archive() -> Vec<u8> {
    let name = b"test.txt";
    let payload = b"hello";
    let mut out: Vec<u8> = Vec::new();
    // LFH at offset 0
    out.extend_from_slice(&0x04034b50u32.to_le_bytes());
    out.extend_from_slice(&20u16.to_le_bytes()); // version needed
    out.extend_from_slice(&0u16.to_le_bytes()); // flags
    out.extend_from_slice(&0u16.to_le_bytes()); // method: stored
    out.extend_from_slice(&0u16.to_le_bytes()); // time
    out.extend_from_slice(&0u16.to_le_bytes()); // date
    out.extend_from_slice(&crc32(payload).to_le_bytes());
    out.extend_from_slice(&(payload.len() as u32).to_le_bytes());
    out.extend_from_slice(&(payload.len() as u32).to_le_bytes());
    out.extend_from_slice(&(name.len() as u16).to_le_bytes());
    out.extend_from_slice(&0u16.to_le_bytes());
    out.extend_from_slice(name);
    out.extend_from_slice(payload);
    let cd_offset = out.len() as u32;
    // CDH
    out.extend_from_slice(&0x02014b50u32.to_le_bytes());
    out.extend_from_slice(&20u16.to_le_bytes()); // version made by
    out.extend_from_slice(&20u16.to_le_bytes()); // version needed
    out.extend_from_slice(&0u16.to_le_bytes()); // flags
    out.extend_from_slice(&0u16.to_le_bytes()); // method
    out.extend_from_slice(&0u16.to_le_bytes()); // time
    out.extend_from_slice(&0u16.to_le_bytes()); // date
    out.extend_from_slice(&crc32(payload).to_le_bytes());
    out.extend_from_slice(&(payload.len() as u32).to_le_bytes());
    out.extend_from_slice(&(payload.len() as u32).to_le_bytes());
    out.extend_from_slice(&(name.len() as u16).to_le_bytes());
    out.extend_from_slice(&0u16.to_le_bytes()); // extra len
    out.extend_from_slice(&0u16.to_le_bytes()); // comment len
    out.extend_from_slice(&0u16.to_le_bytes()); // disk number start
    out.extend_from_slice(&0u16.to_le_bytes()); // internal attrs
    out.extend_from_slice(&0u32.to_le_bytes()); // external attrs
    out.extend_from_slice(&0u32.to_le_bytes()); // local header offset
    out.extend_from_slice(name);
    let cd_size = out.len() as u32 - cd_offset;
    // EOCD
    out.extend_from_slice(&0x06054b50u32.to_le_bytes());
    out.extend_from_slice(&0u16.to_le_bytes());
    out.extend_from_slice(&0u16.to_le_bytes());
    out.extend_from_slice(&1u16.to_le_bytes());
    out.extend_from_slice(&1u16.to_le_bytes());
    out.extend_from_slice(&cd_size.to_le_bytes());
    out.extend_from_slice(&cd_offset.to_le_bytes());
    out.extend_from_slice(&0u16.to_le_bytes());
    out
}

#[test]
fn test_parse_whole_archive() {
    let bytes = tiny_archive();
    let mut reader = MemReader { data: bytes };
    let mut sink = WarningCollector::new();
    let zip = ZipFile::parse(&mut reader, &mut sink).unwrap();
    assert_eq!(zip.entries.len(), 1);
    assert!(sink.warnings.is_empty());
    let entry = &zip.entries[0];
    assert_eq!(entry.cdh.filename, b"test.txt");
    assert_eq!(entry.lfh.filename, b"test.txt");
    assert_eq!(entry.file_offset, 38);
    assert_eq!(entry.file_size, 5);
    assert_eq!(zip.eocd.total_entries, 1);
    assert!(zip.zip64_eocd.is_none());
}

#[test]
fn test_parse_whole_archive_with_comment() {
    // The EOCD is still found when a comment follows it, and the comment
    // is preserved.
    let mut bytes = tiny_archive();
    let n = bytes.len();
    bytes[n - 2..n].copy_from_slice(&5u16.to_le_bytes());
    bytes.extend_from_slice(b"notes");
    let mut reader = MemReader { data: bytes };
    let mut sink = WarningCollector::new();
    let zip = ZipFile::parse(&mut reader, &mut sink).unwrap();
    assert_eq!(zip.entries.len(), 1);
    assert_eq!(zip.eocd.comment, b"notes");
}

#[test]
fn test_parse_no_eocd() {
    let mut reader = MemReader {
        data: vec![0u8; 100],
    };
    let mut sink = WarningCollector::new();
    match ZipFile::parse(&mut reader, &mut sink) {
        Err(ZipParseError::EocdNotFound) => {}
        other => panic!("Expected EocdNotFound, got {:?}", other),
    }
}

#[test]
fn test_parse_zip64_archive() {
    // The EOCD carries saturated fields; the parser follows the locator
    // to the ZIP64 EOCD record and takes the directory coordinates from
    // it.
    let mut bytes = tiny_archive();
    // Drop the plain EOCD; remember the directory coordinates.
    let eocd = bytes.split_off(bytes.len() - 22);
    let cd_size = u32::from_le_bytes([eocd[12], eocd[13], eocd[14], eocd[15]]) as u64;
    let cd_offset = u32::from_le_bytes([eocd[16], eocd[17], eocd[18], eocd[19]]) as u64;
    let zip64_eocd_offset = bytes.len() as u64;
    // ZIP64 EOCD record.
    bytes.extend_from_slice(&0x06064b50u32.to_le_bytes());
    bytes.extend_from_slice(&44u64.to_le_bytes());
    bytes.extend_from_slice(&63u16.to_le_bytes());
    bytes.extend_from_slice(&45u16.to_le_bytes());
    bytes.extend_from_slice(&0u32.to_le_bytes());
    bytes.extend_from_slice(&0u32.to_le_bytes());
    bytes.extend_from_slice(&1u64.to_le_bytes());
    bytes.extend_from_slice(&1u64.to_le_bytes());
    bytes.extend_from_slice(&cd_size.to_le_bytes());
    bytes.extend_from_slice(&cd_offset.to_le_bytes());
    // ZIP64 EOCD locator.
    bytes.extend_from_slice(&0x07064b50u32.to_le_bytes());
    bytes.extend_from_slice(&0u32.to_le_bytes());
    bytes.extend_from_slice(&zip64_eocd_offset.to_le_bytes());
    bytes.extend_from_slice(&1u32.to_le_bytes());
    // EOCD with saturated fields.
    bytes.extend_from_slice(&0x06054b50u32.to_le_bytes());
    bytes.extend_from_slice(&0u16.to_le_bytes());
    bytes.extend_from_slice(&0u16.to_le_bytes());
    bytes.extend_from_slice(&0xFFFFu16.to_le_bytes());
    bytes.extend_from_slice(&0xFFFFu16.to_le_bytes());
    bytes.extend_from_slice(&0xFFFFFFFFu32.to_le_bytes());
    bytes.extend_from_slice(&0xFFFFFFFFu32.to_le_bytes());
    bytes.extend_from_slice(&0u16.to_le_bytes());

    let mut reader = MemReader { data: bytes };
    let mut sink = WarningCollector::new();
    let zip = ZipFile::parse(&mut reader, &mut sink).unwrap();
    assert_eq!(zip.entries.len(), 1);
    assert_eq!(zip.entries[0].cdh.filename, b"test.txt");
    let (zip64, locator) = zip.zip64_eocd.as_ref().unwrap();
    assert_eq!(zip64.0.total_entries, 1);
    assert_eq!(zip64.0.central_directory_offset, cd_offset);
    assert_eq!(locator.unwrap().eocd_offset, zip64_eocd_offset);
}

#[test]
fn test_parse_bad_local_offset_becomes_warning() {
    // A CDH whose local-header offset lies outside the archive is
    // reported to the sink and the entry is skipped; the parse goes on.
    let mut bytes = tiny_archive();
    // The CDH's local_header_offset field sits 4 bytes before its
    // filename, i.e. at cd_offset + 42.
    let cd_offset = 43;
    bytes[cd_offset + 42..cd_offset + 46].copy_from_slice(&0xFFFF0000u32.to_le_bytes());
    let mut reader = MemReader { data: bytes };
    let mut sink = WarningCollector::new();
    let zip = ZipFile::parse(&mut reader, &mut sink).unwrap();
    assert_eq!(zip.entries.len(), 0);
    assert_eq!(sink.warnings.len(), 1);
    assert_eq!(sink.warnings[0].0, Some(0));
}
