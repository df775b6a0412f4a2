use bakezip::crc32::crc32;
use bakezip::inspect::EncodingSelectionStrategy;
use bakezip::inspect::FieldSelectionStrategy;
use bakezip::inspect::InspectConfig;
use bakezip::inspect::WaveDashHandling;
use bakezip::inspect::WaveDashNormalization;
use bakezip::parse::CentralDirectoryHeader;
use bakezip::parse::EndOfCentralDirectory;
use bakezip::parse::GeneralPurposeBitFlag;
use bakezip::parse::LocalFileHeader;
use bakezip::parse::UnicodePathExtraField;
use bakezip::parse::Zip64ExtendedInfo;
use bakezip::parse::ZipFile;
use bakezip::parse::ZipFileEntry;
use bakezip::rebuild::RebuildChunk;
use bakezip::rebuild::rebuild;

fn create_mock_entry(
    filename: &[u8],
    utf8_flag: bool,
    unicode_path: Option<UnicodePathExtraField>,
) -> ZipFileEntry {
    let flags = GeneralPurposeBitFlag(if utf8_flag { 0x0800 } else { 0 });
    let cdh = CentralDirectoryHeader {
        signature: 0x02014b50,
        version_made_by: 0,
        version_needed: 0,
        flags,
        compression_method: 0,
        last_mod_time: 0,
        last_mod_date: 0,
        crc32: 0,
        compressed_size: 0,
        uncompressed_size: 0,
        filename_length: filename.len() as u16,
        extra_field_length: 0,
        file_comment_length: 0,
        disk_number_start: 0,
        internal_file_attributes: 0,
        external_file_attributes: 0,
        local_header_offset: 0,
        filename: filename.to_vec(),
        extra_fields: vec![],
        file_comment: vec![],
        zip64: None,
        unicode_path: unicode_path.clone(),
    };
    let lfh = LocalFileHeader {
        signature: 0x04034b50,
        version_needed: 0,
        flags,
        compression_method: 0,
        last_mod_time: 0,
        last_mod_date: 0,
        crc32: 0,
        compressed_size: 0,
        uncompressed_size: 0,
        filename_length: filename.len() as u16,
        extra_field_length: 0,
        filename: filename.to_vec(),
        extra_fields: vec![],
        zip64: None,
        unicode_path,
    };

    ZipFileEntry {
        cdh,
        lfh,
        descriptor: None,
        file_offset: 0,
        file_size: 0,
    }
}

fn create_mock_zip(entries: Vec<ZipFileEntry>) -> ZipFile {
    ZipFile {
        size: 0,
        eocd: EndOfCentralDirectory {
            signature: 0x06054b50,
            disk_number: 0,
            disk_number_with_eocd: 0,
            entries_on_disk: entries.len() as u16,
            total_entries: entries.len() as u16,
            central_directory_size: 0,
            central_directory_offset: 0,
            comment_length: 0,
            comment: vec![],
        },
        zip64_eocd: None,
        entries,
    }
}

fn default_config() -> InspectConfig {
    InspectConfig {
        encoding: EncodingSelectionStrategy::EntryDetected {
            fallback_encoding: None,
            ignore_utf8_flag: false,
        },
        field_selection_strategy: FieldSelectionStrategy::default(),
        ignore_crc32_mismatch: false,
        needs_original_bytes: false,
        wave_dash_handling: WaveDashHandling::default(),
        wave_dash_normalization: WaveDashNormalization::default(),
    }
}

fn binary_bytes(chunk: &RebuildChunk) -> &Vec<u8> {
    match chunk {
        RebuildChunk::Binary(b) => b,
        RebuildChunk::Reference { .. } => panic!("expected a Binary chunk"),
    }
}

#[test]
fn test_rebuild_empty_zip() {
    let zip = create_mock_zip(vec![]);
    let config = default_config();
    let result = rebuild(&zip, &config, &[]);
    assert!(result.is_ok());
    let (chunks, size) = result.unwrap();
    // EOCD is 22 bytes
    assert_eq!(size, 22);
    assert!(!chunks.is_empty());
}

#[test]
fn test_rebuild_single_entry() {
    let entry = create_mock_entry(b"test.txt", true, None);
    let zip = create_mock_zip(vec![entry]);
    let config = default_config();
    let result = rebuild(&zip, &config, &[]);
    assert!(result.is_ok());
    let (chunks, size) = result.unwrap();
    assert!(size > 22);
    assert!(!chunks.is_empty());
}

#[test]
fn test_rebuild_omit_entry() {
    let entry1 = create_mock_entry(b"test1.txt", true, None);
    let entry2 = create_mock_entry(b"test2.txt", true, None);
    let zip = create_mock_zip(vec![entry1, entry2]);
    let config = default_config();
    // Omit the first entry (index 0)
    let result = rebuild(&zip, &config, &[0]);
    assert!(result.is_ok());
    let (_chunks, size) = result.unwrap();

    // Should contain only one entry + EOCD
    // We can't easily check the exact size without calculating it, but we can check if it's smaller than full rebuild
    let full_result = rebuild(&zip, &config, &[]).unwrap();
    assert!(size < full_result.1);
}

#[test]
fn test_rebuild_sjis_entry_to_utf8() {
    // A Shift_JIS filename, forced: the rebuilt LFH carries the UTF-8
    // bytes of the decoded name and has flag bit 11 set, bit 3 cleared.
    let sjis_bytes = b"\x83\x65\x83\x58\x83\x67.txt";
    let mut entry = create_mock_entry(sjis_bytes, false, None);
    entry.lfh.flags = GeneralPurposeBitFlag(0x0008);
    entry.cdh.flags = GeneralPurposeBitFlag(0x0008);
    entry.file_offset = 1234;
    let zip = create_mock_zip(vec![entry]);
    let config = InspectConfig {
        encoding: EncodingSelectionStrategy::ForceSpecified {
            encoding: "Shift_JIS".to_string(),
            ignore_utf8_flag: false,
        },
        field_selection_strategy: FieldSelectionStrategy::default(),
        ignore_crc32_mismatch: false,
        needs_original_bytes: false,
        wave_dash_handling: WaveDashHandling::default(),
        wave_dash_normalization: WaveDashNormalization::default(),
    };
    let (chunks, _) = rebuild(&zip, &config, &[]).unwrap();
    // chunk 0: rebuilt LFH; chunk 1: payload reference; chunk 2: CDH; chunk 3: EOCD
    assert_eq!(chunks.len(), 4);
    let lfh_bytes = binary_bytes(&chunks[0]);
    let expected_name: &[u8] = &[
        0xE3, 0x83, 0x86, 0xE3, 0x82, 0xB9, 0xE3, 0x83, 0x88, 0x2E, 0x74, 0x78, 0x74,
    ];
    let name_len = u16::from_le_bytes([lfh_bytes[26], lfh_bytes[27]]) as usize;
    assert_eq!(name_len, expected_name.len());
    assert_eq!(&lfh_bytes[30..30 + name_len], expected_name);
    let flags = u16::from_le_bytes([lfh_bytes[6], lfh_bytes[7]]);
    assert_eq!(flags & 0x0800, 0x0800, "UTF-8 flag must be set");
    assert_eq!(flags & 0x0008, 0, "data-descriptor flag must be cleared");
    match &chunks[1] {
        RebuildChunk::Reference { offset, size } => {
            assert_eq!(*offset, 1234);
            assert_eq!(*size, 0);
        }
        other => panic!("expected a Reference chunk, got {:?}", other),
    }
    // The rebuilt CDH carries the same flags and name.
    let cdh_bytes = binary_bytes(&chunks[2]);
    let cdh_flags = u16::from_le_bytes([cdh_bytes[8], cdh_bytes[9]]);
    assert_eq!(cdh_flags & 0x0800, 0x0800);
    assert_eq!(cdh_flags & 0x0008, 0);
    let cdh_name_len = u16::from_le_bytes([cdh_bytes[28], cdh_bytes[29]]) as usize;
    assert_eq!(&cdh_bytes[46..46 + cdh_name_len], expected_name);
}

#[test]
fn test_rebuild_payload_reference_fidelity() {
    // Retained entries reference exactly their payload region in the
    // source archive.
    let mut entry = create_mock_entry(b"data.bin", true, None);
    entry.file_offset = 4321;
    entry.file_size = 99;
    entry.cdh.compressed_size = 99;
    entry.cdh.uncompressed_size = 200;
    let zip = create_mock_zip(vec![entry]);
    let (chunks, _) = rebuild(&zip, &default_config(), &[]).unwrap();
    let mut found = false;
    for chunk in &chunks {
        if let RebuildChunk::Reference { offset, size } = chunk {
            assert_eq!(*offset, 4321);
            assert_eq!(*size, 99);
            found = true;
        }
    }
    assert!(found, "the plan must reference the payload bytes");
}

#[test]
fn test_rebuild_unicode_path_entry() {
    // A CRC-matched Unicode-path extra is selected, its name is emitted,
    // and no 0x7075 extra survives in the rebuilt headers.
    let name_crc = crc32(b"ascii.txt");
    let unicode_path = UnicodePathExtraField {
        version: 1,
        name_crc32: name_crc,
        data: "unicode.txt".as_bytes().to_vec(),
        decoded_string: Some("unicode.txt".to_string()),
        crc32_matched: true,
    };
    let mut entry = create_mock_entry(b"ascii.txt", false, Some(unicode_path));
    // Carry the raw 0x7075 extra too, so the strip is observable.
    let mut extra_data = vec![1u8];
    extra_data.extend_from_slice(&name_crc.to_le_bytes());
    extra_data.extend_from_slice(b"unicode.txt");
    entry.cdh.extra_fields = vec![bakezip::parse::ExtraField {
        tag: 0x7075,
        size: extra_data.len() as u16,
        data: extra_data,
    }];
    let zip = create_mock_zip(vec![entry]);
    let config = InspectConfig {
        encoding: EncodingSelectionStrategy::EntryDetected {
            fallback_encoding: None,
            ignore_utf8_flag: false,
        },
        field_selection_strategy: FieldSelectionStrategy::CdhUnicodeThenCdh,
        ignore_crc32_mismatch: false,
        needs_original_bytes: false,
        wave_dash_handling: WaveDashHandling::default(),
        wave_dash_normalization: WaveDashNormalization::default(),
    };
    let (chunks, _) = rebuild(&zip, &config, &[]).unwrap();
    let lfh_bytes = binary_bytes(&chunks[0]);
    let name_len = u16::from_le_bytes([lfh_bytes[26], lfh_bytes[27]]) as usize;
    assert_eq!(&lfh_bytes[30..30 + name_len], b"unicode.txt");
    let extra_len = u16::from_le_bytes([lfh_bytes[28], lfh_bytes[29]]);
    assert_eq!(extra_len, 0, "no extras survive in the rebuilt LFH");
    let cdh_bytes = binary_bytes(&chunks[2]);
    let cdh_name_len = u16::from_le_bytes([cdh_bytes[28], cdh_bytes[29]]) as usize;
    let cdh_extra_len = u16::from_le_bytes([cdh_bytes[30], cdh_bytes[31]]);
    assert_eq!(&cdh_bytes[46..46 + cdh_name_len], b"unicode.txt");
    assert_eq!(cdh_extra_len, 0, "the 0x7075 extra is stripped");
}

#[test]
fn test_rebuild_zip64_round_trip() {
    // An entry with 64-bit sizes: the rebuilt LFH carries sentinel sizes
    // and a fresh 16-byte 0x0001 extra (uncompressed then compressed),
    // and the archive tail gains a ZIP64 EOCD record and locator before
    // the EOCD.
    let mut entry = create_mock_entry(b"huge.bin", true, None);
    entry.cdh.compressed_size = 0xFFFFFFFF;
    entry.cdh.uncompressed_size = 0xFFFFFFFF;
    entry.cdh.zip64 = Some(Zip64ExtendedInfo {
        uncompressed_size: Some(0x100000000),
        compressed_size: Some(0x100000000),
        local_header_offset: None,
    });
    entry.file_offset = 38;
    entry.file_size = 0x100000000;
    let zip = create_mock_zip(vec![entry]);
    let (chunks, total) = rebuild(&zip, &default_config(), &[]).unwrap();
    // LFH, payload reference, CDH, ZIP64 EOCD, ZIP64 locator, EOCD.
    assert_eq!(chunks.len(), 6);

    let lfh_bytes = binary_bytes(&chunks[0]);
    assert_eq!(
        u32::from_le_bytes([lfh_bytes[18], lfh_bytes[19], lfh_bytes[20], lfh_bytes[21]]),
        0xFFFFFFFF
    );
    assert_eq!(
        u32::from_le_bytes([lfh_bytes[22], lfh_bytes[23], lfh_bytes[24], lfh_bytes[25]]),
        0xFFFFFFFF
    );
    let extra_len = u16::from_le_bytes([lfh_bytes[28], lfh_bytes[29]]);
    assert_eq!(extra_len, 20, "one 0x0001 extra with 16 data bytes");
    let name_len = u16::from_le_bytes([lfh_bytes[26], lfh_bytes[27]]) as usize;
    let extra_start = 30 + name_len;
    let extra = &lfh_bytes[extra_start..extra_start + 20];
    assert_eq!(u16::from_le_bytes([extra[0], extra[1]]), 0x0001);
    assert_eq!(u16::from_le_bytes([extra[2], extra[3]]), 16);
    let mut unc8 = [0u8; 8];
    unc8.copy_from_slice(&extra[4..12]);
    assert_eq!(u64::from_le_bytes(unc8), 0x100000000);
    let mut comp8 = [0u8; 8];
    comp8.copy_from_slice(&extra[12..20]);
    assert_eq!(u64::from_le_bytes(comp8), 0x100000000);

    let zip64_eocd_bytes = binary_bytes(&chunks[3]);
    assert_eq!(
        u32::from_le_bytes([
            zip64_eocd_bytes[0],
            zip64_eocd_bytes[1],
            zip64_eocd_bytes[2],
            zip64_eocd_bytes[3]
        ]),
        0x06064b50
    );
    let locator_bytes = binary_bytes(&chunks[4]);
    assert_eq!(
        u32::from_le_bytes([
            locator_bytes[0],
            locator_bytes[1],
            locator_bytes[2],
            locator_bytes[3]
        ]),
        0x07064b50
    );
    let eocd_bytes = binary_bytes(&chunks[5]);
    assert_eq!(
        u32::from_le_bytes([eocd_bytes[0], eocd_bytes[1], eocd_bytes[2], eocd_bytes[3]]),
        0x06054b50
    );
    // The EOCD's central directory offset is saturated.
    assert_eq!(
        u32::from_le_bytes([eocd_bytes[16], eocd_bytes[17], eocd_bytes[18], eocd_bytes[19]]),
        0xFFFFFFFF
    );
    assert!(total > 0x100000000);
}

#[test]
fn test_rebuild_no_zip64_for_small_entry() {
    // An entry whose sizes fit in 32 bits gets no 0x0001 extra.
    let mut entry = create_mock_entry(b"small.txt", true, None);
    entry.cdh.compressed_size = 10;
    entry.cdh.uncompressed_size = 10;
    let zip = create_mock_zip(vec![entry]);
    let (chunks, _) = rebuild(&zip, &default_config(), &[]).unwrap();
    let lfh_bytes = binary_bytes(&chunks[0]);
    assert_eq!(u16::from_le_bytes([lfh_bytes[28], lfh_bytes[29]]), 0);
    let cdh_bytes = binary_bytes(&chunks[2]);
    assert_eq!(u16::from_le_bytes([cdh_bytes[30], cdh_bytes[31]]), 0);
}

#[test]
fn test_rebuild_preserves_comment() {
    let mut zip = create_mock_zip(vec![]);
    zip.eocd.comment = b"archive comment".to_vec();
    zip.eocd.comment_length = 15;
    let (chunks, total) = rebuild(&zip, &default_config(), &[]).unwrap();
    assert_eq!(total, 37);
    let eocd_bytes = binary_bytes(&chunks[chunks.len() - 1]);
    assert_eq!(&eocd_bytes[22..], b"archive comment");
}

#[test]
fn test_rebuild_version_made_by() {
    // version_made_by keeps the original host byte and forces 6.3.
    let mut entry = create_mock_entry(b"a.txt", true, None);
    entry.cdh.version_made_by = 0x0314; // host 3 (Unix), version 20
    let zip = create_mock_zip(vec![entry]);
    let (chunks, _) = rebuild(&zip, &default_config(), &[]).unwrap();
    let cdh_bytes = binary_bytes(&chunks[2]);
    let vmb = u16::from_le_bytes([cdh_bytes[4], cdh_bytes[5]]);
    assert_eq!(vmb, 0x033F);
}
