use rush::metadata::decode_metadata;
use rush::metadata::encode_metadata;
use rush::metadata::MetadataError;
use rush::metadata::PluginMetadata;

#[test]
fn round_trip_of_name_and_file() {
    let bytes = encode_metadata("pwd", "libpwd.so").unwrap();
    let (name, file) = decode_metadata(&bytes).unwrap();
    assert_eq!(name, "pwd");
    assert_eq!(file, "libpwd.so");
}

#[test]
fn round_trip_of_non_ascii_names() {
    let bytes = encode_metadata("prompt-é", "lib✓.so").unwrap();
    assert_eq!(bytes.len(), 6 + "prompt-é".len() + "lib✓.so".len());
    let (name, file) = decode_metadata(&bytes).unwrap();
    assert_eq!(name, "prompt-é");
    assert_eq!(file, "lib✓.so");
}

#[test]
fn encode_writes_the_layout() {
    let bytes = encode_metadata("pwd", "x.so").unwrap();
    assert_eq!(
        bytes,
        vec![13, 0, 3, 0, b'p', b'w', b'd', 4, 0, b'x', b'.', b's', b'o']
    );
}

#[test]
fn encode_rejects_empty_name() {
    assert_eq!(encode_metadata("", "x.so"), Err(MetadataError::EmptyName));
}

#[test]
fn encode_rejects_oversized_fields() {
    let name = "n".repeat(40000);
    let file = "f".repeat(30000);
    assert_eq!(encode_metadata(&name, &file), Err(MetadataError::TooLong));
    let fits = "f".repeat(65535 - 6 - 1);
    assert!(encode_metadata("n", &fits).is_ok());
    let over = "f".repeat(65535 - 6);
    assert_eq!(encode_metadata("n", &over), Err(MetadataError::TooLong));
}

#[test]
fn decode_sidecar_in_directory() {
    let bytes = [13u8, 0, 3, 0, b'p', b'w', b'd', 4, 0, b'x', b'.', b's', b'o'];
    let m: PluginMetadata<u32> = PluginMetadata::from_raw_metadata("/d", &bytes).unwrap();
    assert_eq!(m.name, "pwd");
    assert_eq!(m.path, "/d/x.so");
    assert!(m.plugin.is_none());
    assert!(!m.is_loaded());
}

#[test]
fn decode_scenario_bytes_as_listed() {
    // The fourteen-byte total and five-byte file length announce more than the thirteen
    // bytes that follow.
    let bytes = [0x0Eu8, 0, 3, 0, b'p', b'w', b'd', 5, 0, b'x', b'.', b's', b'o'];
    let r: Result<PluginMetadata<u32>, MetadataError> =
        PluginMetadata::from_raw_metadata("/d", &bytes);
    assert_eq!(r.err(), Some(MetadataError::LengthMismatch));
}

#[test]
fn decode_rejects_total_length_mismatch() {
    let mut bytes = encode_metadata("pwd", "x.so").unwrap();
    bytes[0] = 12;
    assert_eq!(decode_metadata(&bytes), Err(MetadataError::LengthMismatch));
    let mut longer = encode_metadata("pwd", "x.so").unwrap();
    longer.push(0);
    assert_eq!(decode_metadata(&longer), Err(MetadataError::LengthMismatch));
}

#[test]
fn decode_rejects_truncated_buffers() {
    assert_eq!(decode_metadata(&[]), Err(MetadataError::Truncated));
    assert_eq!(decode_metadata(&[1]), Err(MetadataError::Truncated));
    assert_eq!(decode_metadata(&[3, 0, 0]), Err(MetadataError::Truncated));
    // The name length runs past the end.
    assert_eq!(
        decode_metadata(&[7, 0, 9, 0, b'a', b'b', b'c']),
        Err(MetadataError::Truncated)
    );
    // The file length runs past the end.
    assert_eq!(
        decode_metadata(&[8, 0, 1, 0, b'a', 9, 0, b'b']),
        Err(MetadataError::Truncated)
    );
}

#[test]
fn decode_rejects_empty_name() {
    assert_eq!(
        decode_metadata(&[8, 0, 0, 0, 2, 0, b'a', b'b']),
        Err(MetadataError::EmptyName)
    );
}

#[test]
fn decode_rejects_invalid_utf8() {
    assert_eq!(
        decode_metadata(&[8, 0, 1, 0, 0xFF, 1, 0, b'b']),
        Err(MetadataError::InvalidUtf8)
    );
    assert_eq!(
        decode_metadata(&[8, 0, 1, 0, b'a', 1, 0, 0xC0]),
        Err(MetadataError::InvalidUtf8)
    );
}

#[test]
fn decode_accepts_empty_file_name() {
    let (name, file) = decode_metadata(&[7, 0, 1, 0, b'a', 0, 0]).unwrap();
    assert_eq!(name, "a");
    assert_eq!(file, "");
}

#[test]
fn describe_names_the_sidecar() {
    assert_eq!(
        MetadataError::Truncated.describe("/d/pwd.metadata"),
        "invalid metadata: /d/pwd.metadata"
    );
}
