use content_search::encoding::write_to_file;
use content_search::encoding::detect_text;
use content_search::encoding::read_to_string;
use content_search::encoding::encode;
use content_search::encoding::requested_encoding;
use content_search::encoding::utf8_label;
use content_search::encoding::EncodeArg;
use content_search::encoding::TextEncoding;
use content_search::encoding::MAX_CODEC_INPUT;

// "日本語のテキストです。これは文字コードの判定のための文章です。" in Shift_JIS.
fn shift_jis_sample() -> Vec<u8> {
    let encoding = TextEncoding::for_label("shift_jis").unwrap();
    encoding.encode("日本語のテキストです。これは文字コードの判定のための文章です。")
}

#[test]
fn an_empty_file_is_empty_utf8() {
    let read = read_to_string(b"");
    assert_eq!(read.content, "");
    assert_eq!(read.encoding, "UTF-8");
}

#[test]
fn an_ascii_file_is_utf8() {
    let read = read_to_string(b"hello, world\n");
    assert_eq!(read.content, "hello, world\n");
    assert_eq!(read.encoding, "UTF-8");
}

#[test]
fn a_utf8_file_is_found_to_be_utf8() {
    let read = read_to_string("grüße aus köln, schöne grüße".as_bytes());
    assert_eq!(read.content, "grüße aus köln, schöne grüße");
    assert_eq!(read.encoding, "UTF-8");
}

#[test]
fn a_shift_jis_file_is_found_and_decoded() {
    let bytes = shift_jis_sample();
    assert_ne!(bytes, "日本語のテキストです。これは文字コードの判定のための文章です。".as_bytes().to_vec());
    let read = read_to_string(&bytes);
    assert_eq!(read.encoding, "Shift_JIS");
    assert_eq!(read.content, "日本語のテキストです。これは文字コードの判定のための文章です。");
}

#[test]
fn a_byte_order_mark_decides_the_encoding() {
    // UTF-16LE with its mark, and a non-ASCII byte so that detection runs.
    let bytes: Vec<u8> = vec![0xff, 0xfe, 0x68, 0x00, 0xe9, 0x00];
    let read = read_to_string(&bytes);
    assert_eq!(read.encoding, "UTF-16LE");
    assert_eq!(read.content, "hé");
}

#[test]
fn detect_looks_at_every_byte() {
    assert!(!TextEncoding::detect(b"").0);
    assert!(!TextEncoding::detect(b"plain\x7f").0);
    assert!(!TextEncoding::detect(b"plain\x1b$B").0);
    assert!(TextEncoding::detect(b"plain\x80").0);
    assert!(TextEncoding::detect(b"\xffplain").0);
    assert!(TextEncoding::detect(&shift_jis_sample()).0);
}

#[test]
fn detect_text_names_an_encoding_only_where_it_detected_one() {
    assert_eq!(detect_text(b"plain"), ("plain".to_string(), None));
    assert_eq!(detect_text(b""), (String::new(), None));
    assert_eq!(detect_text("grüße aus köln, schöne grüße".as_bytes()), ("grüße aus köln, schöne grüße".to_string(), Some("UTF-8".to_string())));
}

#[test]
fn labels_name_encodings() {
    assert_eq!(TextEncoding::for_label("utf-8").unwrap().label(), "UTF-8");
    assert_eq!(TextEncoding::for_label("latin1").unwrap().label(), "windows-1252");
    assert_eq!(TextEncoding::for_label(" SJIS ").unwrap().label(), "Shift_JIS");
    assert!(TextEncoding::for_label("no such encoding").is_none());
    assert!(TextEncoding::for_label("utf8").unwrap().is_utf8());
    assert!(!TextEncoding::for_label("latin1").unwrap().is_utf8());
    assert_eq!(utf8_label(), "UTF-8");
}

#[test]
fn guess_names_the_encoding_of_the_bytes() {
    assert_eq!(TextEncoding::detect(&shift_jis_sample()).1.label(), "Shift_JIS");
}

#[test]
fn decode_gives_text_and_the_encoding_used() {
    let latin = TextEncoding::for_label("latin1").unwrap();
    let (text, used) = latin.decode(b"caf\xe9");
    assert_eq!(text, "café");
    assert_eq!(used.label(), "windows-1252");
    // A byte order mark overrides the encoding asked for.
    let (text, used) = latin.decode(b"\xef\xbb\xbfcaf\xc3\xa9");
    assert_eq!(text, "café");
    assert_eq!(used.label(), "UTF-8");
}

#[test]
fn encode_reads_the_file_under_the_requested_encoding() {
    let arg = EncodeArg { file_path: "/f".to_string(), encoding: "latin1".to_string() };
    assert_eq!(encode(&arg, b"caf\xe9"), Ok("café".to_string()));
    assert_eq!(encode(&arg, b""), Ok(String::new()));
    assert_eq!(requested_encoding(&arg).unwrap().label(), "windows-1252");
}

#[test]
fn encode_refuses_an_unknown_encoding() {
    let arg = EncodeArg { file_path: "/f".to_string(), encoding: "klingon".to_string() };
    assert_eq!(encode(&arg, b"caf\xe9"), Err("Requested encoding is invalid".to_string()));
    assert_eq!(encode(&arg, b""), Err("Requested encoding is invalid".to_string()));
    assert_eq!(requested_encoding(&arg).err(), Some("Requested encoding is invalid".to_string()));
}

#[test]
fn bytes_to_write_are_utf8_unless_another_encoding_is_named() {
    assert_eq!(write_to_file("café", None), "café".as_bytes().to_vec());
    assert_eq!(write_to_file("café", Some("utf-8")), "café".as_bytes().to_vec());
    assert_eq!(write_to_file("café", Some("klingon")), "café".as_bytes().to_vec());
    assert_eq!(write_to_file("café", Some("latin1")), b"caf\xe9".to_vec());
    assert_eq!(write_to_file("", Some("latin1")), Vec::<u8>::new());
}

#[test]
fn the_codec_limit_leaves_room_for_the_buffers() {
    assert!(MAX_CODEC_INPUT.checked_mul(10).unwrap().checked_next_power_of_two().unwrap() <= isize::MAX as usize);
}

#[test]
fn defaults_name_nothing() {
    let read = content_search::encoding::ReadResult::default();
    assert_eq!(read.content, "");
    assert_eq!(read.encoding, "");
    let arg = EncodeArg::default();
    assert_eq!(arg.file_path, "");
    assert_eq!(arg.encoding, "");
}

#[test]
fn every_ascii_byte_is_one_character() {
    let bytes: Vec<u8> = (1u8..=0x7f).collect();
    let read = read_to_string(&bytes);
    let expected: String = bytes.iter().map(|b| *b as char).collect();
    assert_eq!(read.content, expected);
    assert_eq!(read.encoding, "UTF-8");
}
