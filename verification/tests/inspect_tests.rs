use bakezip::inspect::EncodingSelectionStrategy;
use bakezip::inspect::FieldSelectionStrategy;
use bakezip::inspect::InspectConfig;
use bakezip::inspect::InspectedArchive;
use bakezip::inspect::InspectedFilenameFieldKind;
use bakezip::inspect::WaveDashHandling;
use bakezip::inspect::WaveDashNormalization;
use bakezip::inspect::ZipInspectError;
use bakezip::parse::CentralDirectoryHeader;
use bakezip::parse::EndOfCentralDirectory;
use bakezip::parse::GeneralPurposeBitFlag;
use bakezip::parse::LocalFileHeader;
use bakezip::parse::UnicodePathExtraField;
use bakezip::parse::ZipFile;
use bakezip::parse::Zip64ExtendedInfo;
use bakezip::parse::ZipFileEntry;

fn create_mock_entry(
    filename: &[u8],
    utf8_flag: bool,
    unicode_path: Option<UnicodePathExtraField>,
) -> ZipFileEntry {
    let flags = GeneralPurposeBitFlag(if utf8_flag { 0x0800 } else { 0 });
    let cdh = CentralDirectoryHeader {
        signature: 0x02014b50,
        version_made_by: 0,
        version_needed: 0,
        flags,
        compression_method: 0,
        last_mod_time: 0,
        last_mod_date: 0,
        crc32: 0,
        compressed_size: 0,
        uncompressed_size: 0,
        filename_length: filename.len() as u16,
        extra_field_length: 0,
        file_comment_length: 0,
        disk_number_start: 0,
        internal_file_attributes: 0,
        external_file_attributes: 0,
        local_header_offset: 0,
        filename: filename.to_vec(),
        extra_fields: vec![],
        file_comment: vec![],
        zip64: None,
        unicode_path: unicode_path.clone(),
    };
    let lfh = LocalFileHeader {
        signature: 0x04034b50,
        version_needed: 0,
        flags,
        compression_method: 0,
        last_mod_time: 0,
        last_mod_date: 0,
        crc32: 0,
        compressed_size: 0,
        uncompressed_size: 0,
        filename_length: filename.len() as u16,
        extra_field_length: 0,
        filename: filename.to_vec(),
        extra_fields: vec![],
        zip64: None,
        unicode_path,
    };

    ZipFileEntry {
        cdh,
        lfh,
        descriptor: None,
        file_offset: 0,
        file_size: 0,
    }
}

fn create_mock_zip(entries: Vec<ZipFileEntry>) -> ZipFile {
    ZipFile {
        size: 0,
        eocd: EndOfCentralDirectory {
            signature: 0x06054b50,
            disk_number: 0,
            disk_number_with_eocd: 0,
            entries_on_disk: entries.len() as u16,
            total_entries: entries.len() as u16,
            central_directory_size: 0,
            central_directory_offset: 0,
            comment_length: 0,
            comment: vec![],
        },
        zip64_eocd: None,
        entries,
    }
}

#[test]
fn test_inspect_empty_zip() {
    let zip = create_mock_zip(vec![]);
    let config = InspectConfig {
        encoding: EncodingSelectionStrategy::EntryDetected {
            fallback_encoding: None,
            ignore_utf8_flag: false,
        },
        field_selection_strategy: FieldSelectionStrategy::default(),
        ignore_crc32_mismatch: false,
        needs_original_bytes: false,
        wave_dash_handling: WaveDashHandling::default(),
        wave_dash_normalization: WaveDashNormalization::default(),
    };
    let result = InspectedArchive::inspect(&zip, &config);
    assert!(result.is_ok());
    let inspected = result.unwrap();
    assert_eq!(inspected.entries.len(), 0);
}

#[test]
fn test_inspect_utf8_entry() {
    let entry = create_mock_entry("test.txt".as_bytes(), true, None);
    let zip = create_mock_zip(vec![entry]);
    let config = InspectConfig {
        encoding: EncodingSelectionStrategy::EntryDetected {
            fallback_encoding: None,
            ignore_utf8_flag: false,
        },
        field_selection_strategy: FieldSelectionStrategy::default(),
        ignore_crc32_mismatch: false,
        needs_original_bytes: false,
        wave_dash_handling: WaveDashHandling::default(),
        wave_dash_normalization: WaveDashNormalization::default(),
    };
    let result = InspectedArchive::inspect(&zip, &config);
    assert!(result.is_ok());
    let inspected = result.unwrap();
    assert_eq!(inspected.entries.len(), 1);
    let filename = &inspected.entries[0].filename;
    assert!(filename.utf8_flag);
    assert_eq!(filename.decoded.as_ref().unwrap().string, "test.txt");
    assert_eq!(filename.decoded.as_ref().unwrap().encoding_used, "UTF-8");
}

#[test]
fn test_inspect_sjis_entry() {
    // "テスト.txt" in Shift_JIS
    let sjis_bytes = b"\x83\x65\x83\x58\x83\x67.txt";
    let entry = create_mock_entry(sjis_bytes, false, None);
    let zip = create_mock_zip(vec![entry]);
    let config = InspectConfig {
        encoding: EncodingSelectionStrategy::EntryDetected {
            fallback_encoding: Some("Shift_JIS".to_string()),
            ignore_utf8_flag: false,
        },
        field_selection_strategy: FieldSelectionStrategy::default(),
        ignore_crc32_mismatch: false,
        needs_original_bytes: false,
        wave_dash_handling: WaveDashHandling::default(),
        wave_dash_normalization: WaveDashNormalization::default(),
    };
    let result = InspectedArchive::inspect(&zip, &config);
    assert!(result.is_ok());
    let inspected = result.unwrap();
    assert_eq!(inspected.entries.len(), 1);
    let filename = &inspected.entries[0].filename;
    assert!(!filename.utf8_flag);
    assert_eq!(filename.decoded.as_ref().unwrap().string, "テスト.txt");
    assert_eq!(
        filename.decoded.as_ref().unwrap().encoding_used,
        "Shift_JIS"
    );
}

#[test]
fn test_inspect_unicode_path_extra_field() {
    let unicode_path = UnicodePathExtraField {
        version: 1,
        name_crc32: 0,
        data: "unicode.txt".as_bytes().to_vec(),
        decoded_string: Some("unicode.txt".to_string()),
        crc32_matched: true,
    };
    let entry = create_mock_entry(b"ascii.txt", false, Some(unicode_path));
    let zip = create_mock_zip(vec![entry]);
    let config = InspectConfig {
        encoding: EncodingSelectionStrategy::EntryDetected {
            fallback_encoding: None,
            ignore_utf8_flag: false,
        },
        field_selection_strategy: FieldSelectionStrategy::CdhUnicodeThenCdh,
        ignore_crc32_mismatch: false,
        needs_original_bytes: false,
        wave_dash_handling: WaveDashHandling::default(),
        wave_dash_normalization: WaveDashNormalization::default(),
    };
    let result = InspectedArchive::inspect(&zip, &config);
    assert!(result.is_ok());
    let inspected = result.unwrap();
    assert_eq!(inspected.entries.len(), 1);
    let filename = &inspected.entries[0].filename;
    assert_eq!(
        filename.kind,
        InspectedFilenameFieldKind::CdhUnicodePathExtraField
    );
    assert_eq!(filename.decoded.as_ref().unwrap().string, "unicode.txt");
}

#[test]
fn test_inspect_force_encoding() {
    // "テスト.txt" in Shift_JIS
    let sjis_bytes = b"\x83\x65\x83\x58\x83\x67.txt";
    let entry = create_mock_entry(sjis_bytes, false, None);
    let zip = create_mock_zip(vec![entry]);
    let config = InspectConfig {
        encoding: EncodingSelectionStrategy::ForceSpecified {
            encoding: "Shift_JIS".to_string(),
            ignore_utf8_flag: false,
        },
        field_selection_strategy: FieldSelectionStrategy::default(),
        ignore_crc32_mismatch: false,
        needs_original_bytes: false,
        wave_dash_handling: WaveDashHandling::default(),
        wave_dash_normalization: WaveDashNormalization::default(),
    };
    let result = InspectedArchive::inspect(&zip, &config);
    assert!(result.is_ok());
    let inspected = result.unwrap();
    assert_eq!(inspected.entries.len(), 1);
    let filename = &inspected.entries[0].filename;
    assert_eq!(filename.decoded.as_ref().unwrap().string, "テスト.txt");
    assert_eq!(
        filename.decoded.as_ref().unwrap().encoding_used,
        "Shift_JIS"
    );
}

#[test]
fn test_sjis_wave_dash_behavior() {
    // Wave Dash in Shift_JIS is 0x8160
    let sjis_bytes = b"\x81\x60";

    // Default behavior (DecodeToFullwidthTilde)
    let config_default = InspectConfig {
        encoding: EncodingSelectionStrategy::ForceSpecified {
            encoding: "Shift_JIS".to_string(),
            ignore_utf8_flag: false,
        },
        field_selection_strategy: FieldSelectionStrategy::default(),
        ignore_crc32_mismatch: false,
        needs_original_bytes: false,
        wave_dash_handling: WaveDashHandling::DecodeToFullwidthTilde,
        wave_dash_normalization: WaveDashNormalization::Preserve,
    };

    let entry = create_mock_entry(sjis_bytes, false, None);
    let zip = create_mock_zip(vec![entry.clone()]);

    let result = InspectedArchive::inspect(&zip, &config_default).unwrap();
    let decoded = result.entries[0]
        .filename
        .decoded
        .as_ref()
        .unwrap()
        .string
        .as_str();
    assert_eq!(decoded, "\u{FF5E}"); // Fullwidth Tilde
    assert!(result.contains_sjis_wave_dash);

    // DecodeToWaveDash
    let config_wave_dash = InspectConfig {
        encoding: EncodingSelectionStrategy::ForceSpecified {
            encoding: "Shift_JIS".to_string(),
            ignore_utf8_flag: false,
        },
        field_selection_strategy: FieldSelectionStrategy::default(),
        ignore_crc32_mismatch: false,
        needs_original_bytes: false,
        wave_dash_handling: WaveDashHandling::DecodeToWaveDash,
        wave_dash_normalization: WaveDashNormalization::Preserve,
    };

    let result = InspectedArchive::inspect(&zip, &config_wave_dash).unwrap();
    let decoded = result.entries[0]
        .filename
        .decoded
        .as_ref()
        .unwrap()
        .string
        .as_str();
    assert_eq!(decoded, "\u{301C}"); // Wave Dash
    assert!(result.contains_sjis_wave_dash);
}

#[test]
fn test_wave_dash_normalization() {
    // U+301C Wave Dash
    let wave_dash_str = "\u{301C}";
    let entry_wd = create_mock_entry(wave_dash_str.as_bytes(), true, None);

    // U+FF5E Fullwidth Tilde
    let fullwidth_tilde_str = "\u{FF5E}";
    let entry_ft = create_mock_entry(fullwidth_tilde_str.as_bytes(), true, None);

    let zip = create_mock_zip(vec![entry_wd, entry_ft]);

    // NormalizeToFullwidthTilde
    let config_norm_ft = InspectConfig {
        encoding: EncodingSelectionStrategy::EntryDetected {
            fallback_encoding: None,
            ignore_utf8_flag: false,
        },
        field_selection_strategy: FieldSelectionStrategy::default(),
        ignore_crc32_mismatch: false,
        needs_original_bytes: false,
        wave_dash_handling: WaveDashHandling::default(),
        wave_dash_normalization: WaveDashNormalization::NormalizeToFullwidthTilde,
    };

    let result = InspectedArchive::inspect(&zip, &config_norm_ft).unwrap();
    assert_eq!(
        result.entries[0].filename.decoded.as_ref().unwrap().string,
        "\u{FF5E}"
    );
    assert_eq!(
        result.entries[1].filename.decoded.as_ref().unwrap().string,
        "\u{FF5E}"
    );

    // NormalizeToWaveDash
    let config_norm_wd = InspectConfig {
        encoding: EncodingSelectionStrategy::EntryDetected {
            fallback_encoding: None,
            ignore_utf8_flag: false,
        },
        field_selection_strategy: FieldSelectionStrategy::default(),
        ignore_crc32_mismatch: false,
        needs_original_bytes: false,
        wave_dash_handling: WaveDashHandling::default(),
        wave_dash_normalization: WaveDashNormalization::NormalizeToWaveDash,
    };

    let result = InspectedArchive::inspect(&zip, &config_norm_wd).unwrap();
    assert_eq!(
        result.entries[0].filename.decoded.as_ref().unwrap().string,
        "\u{301C}"
    );
    assert_eq!(
        result.entries[1].filename.decoded.as_ref().unwrap().string,
        "\u{301C}"
    );
}

#[test]
fn test_inspect_other_wave_dash() {
    // UTF-8 Wave Dash (U+301C)
    let wave_dash_str = "\u{301C}";
    let entry = create_mock_entry(wave_dash_str.as_bytes(), true, None);
    let zip = create_mock_zip(vec![entry]);

    let config = InspectConfig {
        encoding: EncodingSelectionStrategy::PreferOverallDetected {
            fallback_encoding: None,
            ignore_utf8_flag: false,
        },
        field_selection_strategy: FieldSelectionStrategy::default(),
        ignore_crc32_mismatch: false,
        needs_original_bytes: false,
        wave_dash_handling: WaveDashHandling::default(),
        wave_dash_normalization: WaveDashNormalization::Preserve,
    };

    let result = InspectedArchive::inspect(&zip, &config).unwrap();

    assert!(result.contains_other_wave_dash);
    assert!(!result.contains_other_fullwidth_tilde);
    assert!(!result.contains_sjis_wave_dash);
}

#[test]
fn test_inspect_other_fullwidth_tilde() {
    // UTF-8 Fullwidth Tilde (U+FF5E)
    let wave_dash_str = "\u{FF5E}";
    let entry = create_mock_entry(wave_dash_str.as_bytes(), true, None);
    let zip = create_mock_zip(vec![entry]);

    let config = InspectConfig {
        encoding: EncodingSelectionStrategy::PreferOverallDetected {
            fallback_encoding: None,
            ignore_utf8_flag: false,
        },
        field_selection_strategy: FieldSelectionStrategy::default(),
        ignore_crc32_mismatch: false,
        needs_original_bytes: false,
        wave_dash_handling: WaveDashHandling::default(),
        wave_dash_normalization: WaveDashNormalization::Preserve,
    };

    let result = InspectedArchive::inspect(&zip, &config).unwrap();

    assert!(result.contains_other_fullwidth_tilde);
    assert!(!result.contains_other_wave_dash);
    assert!(!result.contains_sjis_wave_dash);
}

#[test]
fn test_inspect_unknown_encoding_label() {
    let entry = create_mock_entry(b"test.txt", false, None);
    let zip = create_mock_zip(vec![entry]);
    let config = InspectConfig {
        encoding: EncodingSelectionStrategy::ForceSpecified {
            encoding: "no-such-encoding".to_string(),
            ignore_utf8_flag: false,
        },
        field_selection_strategy: FieldSelectionStrategy::default(),
        ignore_crc32_mismatch: false,
        needs_original_bytes: false,
        wave_dash_handling: WaveDashHandling::default(),
        wave_dash_normalization: WaveDashNormalization::default(),
    };
    match InspectedArchive::inspect(&zip, &config) {
        Err(ZipInspectError::EncodingNotFound(label)) => {
            assert_eq!(label, "no-such-encoding");
        }
        other => panic!("Expected EncodingNotFound, got {:?}", other),
    }
}

#[test]
fn test_inspect_crc_mismatched_unicode_path_skipped() {
    // A Unicode-path extra whose CRC-32 does not match is skipped unless
    // the configuration excuses the mismatch.
    let unicode_path = UnicodePathExtraField {
        version: 1,
        name_crc32: 0xDEADBEEF,
        data: "unicode.txt".as_bytes().to_vec(),
        decoded_string: Some("unicode.txt".to_string()),
        crc32_matched: false,
    };
    let entry = create_mock_entry(b"ascii.txt", false, Some(unicode_path));
    let zip = create_mock_zip(vec![entry]);
    let mut config = InspectConfig {
        encoding: EncodingSelectionStrategy::EntryDetected {
            fallback_encoding: None,
            ignore_utf8_flag: false,
        },
        field_selection_strategy: FieldSelectionStrategy::CdhUnicodeThenCdh,
        ignore_crc32_mismatch: false,
        needs_original_bytes: false,
        wave_dash_handling: WaveDashHandling::default(),
        wave_dash_normalization: WaveDashNormalization::default(),
    };
    let inspected = InspectedArchive::inspect(&zip, &config).unwrap();
    assert_eq!(
        inspected.entries[0].filename.kind,
        InspectedFilenameFieldKind::CdhFilename
    );
    assert_eq!(
        inspected.entries[0].filename.decoded.as_ref().unwrap().string,
        "ascii.txt"
    );

    config.ignore_crc32_mismatch = true;
    let inspected = InspectedArchive::inspect(&zip, &config).unwrap();
    assert_eq!(
        inspected.entries[0].filename.kind,
        InspectedFilenameFieldKind::CdhUnicodePathExtraField
    );
    assert_eq!(
        inspected.entries[0].filename.decoded.as_ref().unwrap().string,
        "unicode.txt"
    );
}

#[test]
fn test_inspect_effective_sizes_from_zip64() {
    let mut entry = create_mock_entry(b"big.bin", true, None);
    entry.cdh.compressed_size = 0xFFFFFFFF;
    entry.cdh.uncompressed_size = 0xFFFFFFFF;
    entry.cdh.zip64 = Some(Zip64ExtendedInfo {
        uncompressed_size: Some(0x100000000),
        compressed_size: Some(0x100000001),
        local_header_offset: None,
    });
    let zip = create_mock_zip(vec![entry]);
    let config = InspectConfig {
        encoding: EncodingSelectionStrategy::EntryDetected {
            fallback_encoding: None,
            ignore_utf8_flag: false,
        },
        field_selection_strategy: FieldSelectionStrategy::default(),
        ignore_crc32_mismatch: false,
        needs_original_bytes: false,
        wave_dash_handling: WaveDashHandling::default(),
        wave_dash_normalization: WaveDashNormalization::default(),
    };
    let inspected = InspectedArchive::inspect(&zip, &config).unwrap();
    assert_eq!(inspected.entries[0].uncompressed_size, 0x100000000);
    assert_eq!(inspected.entries[0].compressed_size, 0x100000001);
}

#[test]
fn test_inspect_detects_single_byte_encoding() {
    // Bytes that are not valid UTF-8: per-entry detection must name some
    // encoding that decodes them cleanly.
    let text = b"caf\xe9 au lait, entr\xe9e, r\xe9sum\xe9, d\xe9j\xe0 vu";
    let entry = create_mock_entry(text, false, None);
    let zip = create_mock_zip(vec![entry]);
    let config = InspectConfig {
        encoding: EncodingSelectionStrategy::EntryDetected {
            fallback_encoding: None,
            ignore_utf8_flag: false,
        },
        field_selection_strategy: FieldSelectionStrategy::default(),
        ignore_crc32_mismatch: false,
        needs_original_bytes: true,
        wave_dash_handling: WaveDashHandling::default(),
        wave_dash_normalization: WaveDashNormalization::default(),
    };
    let inspected = InspectedArchive::inspect(&zip, &config).unwrap();
    let filename = &inspected.entries[0].filename;
    assert!(filename.detected_encoding.is_some());
    let decoded = filename.decoded.as_ref().unwrap();
    assert!(!decoded.has_errors);
    assert!(decoded.string.contains("caf"));
    assert_eq!(filename.original_bytes.as_deref(), Some(&text[..]));
}
