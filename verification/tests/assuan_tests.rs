use jj_git_util::assuan::decode_assuan_data;
use jj_git_util::assuan::decode_percent;
use jj_git_util::assuan::encode_percent;
use jj_git_util::assuan::find_data_payload;
use jj_git_util::assuan::parse_pinentry_output;
use jj_git_util::assuan::pinentry_request;

#[test]
fn decode_passthrough() {
    assert_eq!(decode_percent(b"hello"), Some(b"hello".to_vec()));
    assert_eq!(decode_percent(b""), Some(vec![]));
}

#[test]
fn decode_escapes() {
    assert_eq!(decode_percent(b"ab%41"), Some(b"abA".to_vec()));
    assert_eq!(decode_percent(b"%25"), Some(b"%".to_vec()));
    assert_eq!(decode_percent(b"%0a%0D"), Some(b"\n\r".to_vec()));
}

#[test]
fn decode_truncated_escape_is_unavailable() {
    assert_eq!(decode_percent(b"ab%4"), None);
    assert_eq!(decode_percent(b"ab%"), None);
    assert_eq!(decode_percent(b"%"), None);
}

#[test]
fn decode_bad_hex_is_unavailable() {
    assert_eq!(decode_percent(b"%zz"), None);
    assert_eq!(decode_percent(b"%4g"), None);
}

#[test]
fn encode_is_canonical() {
    assert_eq!(encode_percent(b"abc"), b"abc".to_vec());
    assert_eq!(encode_percent(b"a%b\n"), b"a%25b%0A".to_vec());
    assert_eq!(encode_percent(&[0u8, 127, 255]), b"%00%7F%FF".to_vec());
}

#[test]
fn decode_then_encode_reproduces_canonical_form() {
    // a valid but non-canonical encoding (lower-case hex, escaped 'A')
    let input = b"%41b%0a";
    let decoded = decode_percent(input).unwrap();
    assert_eq!(decoded, b"Ab\n".to_vec());
    assert_eq!(encode_percent(&decoded), b"Ab%0A".to_vec());
}

#[test]
fn encode_decode_round_trip() {
    let samples: Vec<Vec<u8>> = vec![
        vec![],
        b"plain".to_vec(),
        b"with % and \n and \x00".to_vec(),
        (0u8..=255).collect(),
    ];
    for raw in samples {
        let encoded = encode_percent(&raw);
        assert_eq!(decode_percent(&encoded), Some(raw));
    }
}

#[test]
fn assuan_data_decodes_text() {
    assert_eq!(decode_assuan_data("s3cret"), Some("s3cret".to_string()));
    assert_eq!(decode_assuan_data("caf%C3%A9"), Some("café".to_string()));
}

#[test]
fn assuan_data_rejects_malformed_escape() {
    assert_eq!(decode_assuan_data("ab%4"), None);
}

#[test]
fn assuan_data_rejects_invalid_text() {
    // a lone continuation byte is not valid UTF-8
    assert_eq!(decode_assuan_data("%FF"), None);
}

#[test]
fn finds_first_data_line() {
    assert_eq!(
        find_data_payload(b"OK Pleased to meet you\nD one\nD two\nOK\n"),
        Some(b"one".to_vec())
    );
    assert_eq!(find_data_payload(b"D last-line-no-newline"), Some(b"last-line-no-newline".to_vec()));
    assert_eq!(find_data_payload(b"OK\nERR 83886179 Operation cancelled\n"), None);
    assert_eq!(find_data_payload(b""), None);
}

#[test]
fn parse_full_helper_output() {
    assert_eq!(
        parse_pinentry_output(b"OK Pleased to meet you\nD s3cret\nOK\n"),
        Some("s3cret".to_string())
    );
    assert_eq!(parse_pinentry_output(b"OK\nOK\n"), None);
    // the first data line decides; a later clean one does not rescue it
    assert_eq!(parse_pinentry_output(b"D ab%4\nD ok\n"), None);
}

#[test]
fn request_has_four_lines() {
    let req = pinentry_request("https://example.com/repo.git");
    assert_eq!(
        req,
        "SETTITLE jj passphrase\n\
         SETDESC Enter passphrase for https://example.com/repo.git\n\
         SETPROMPT Passphrase:\n\
         GETPIN\n"
    );
}
