//! The secure-entry helper's line protocol: building the request, locating
//! the data line in the helper's output, and the percent-escape encoding of
//! the secret payload.
//!
//! Response lines are newline-delimited; the line that carries the secret
//! begins with the two-byte data marker `"D "`. Inside the payload each `%`
//! is followed by exactly two hex digits encoding one raw byte; every other
//! byte stands for itself. The decoded bytes must form valid UTF-8 text.

use vstd::prelude::*;
use vstd::string::StringExecFns;
use vstd::string::StringSliceAdditionalSpecFns;
use vstd::utf8::decode_utf8;
use vstd::utf8::valid_utf8;

verus! {

/// ASCII `%`, the escape marker.
pub open spec fn percent_byte() -> u8 {
    37
}

/// `b` is an ASCII hex digit (`0-9`, `A-F`, `a-f`).
pub open spec fn is_hex_digit(b: u8) -> bool {
    (48 <= b && b <= 57) || (65 <= b && b <= 70) || (97 <= b && b <= 102)
}

/// The value of the hex digit `b`.
pub open spec fn hex_val(b: u8) -> u8 {
    if 48 <= b && b <= 57 {
        (b - 48) as u8
    } else if 65 <= b && b <= 70 {
        (b - 55) as u8
    } else {
        (b - 87) as u8
    }
}

/// The upper-case hex digit for a value `d < 16`.
pub open spec fn hex_digit_of(d: u8) -> u8 {
    if d < 10 {
        (48 + d) as u8
    } else {
        (55 + d) as u8
    }
}

/// Every `%` in `s` is followed by exactly two hex digits.
pub open spec fn valid_percent_encoding(s: Seq<u8>) -> bool
    decreases s.len(),
{
    if s.len() == 0 {
        true
    } else if s[0] == percent_byte() {
        s.len() >= 3 && is_hex_digit(s[1]) && is_hex_digit(s[2]) && valid_percent_encoding(
            s.skip(3),
        )
    } else {
        valid_percent_encoding(s.skip(1))
    }
}

/// The bytes that `s` encodes; meaningful when `valid_percent_encoding(s)`.
pub open spec fn decode_percent_spec(s: Seq<u8>) -> Seq<u8>
    decreases s.len(),
{
    if s.len() == 0 {
        Seq::empty()
    } else if s[0] == percent_byte() {
        if s.len() >= 3 {
            seq![((hex_val(s[1]) as int) * 16 + (hex_val(s[2]) as int)) as u8]
                + decode_percent_spec(s.skip(3))
        } else {
            Seq::empty()
        }
    } else {
        seq![s[0]] + decode_percent_spec(s.skip(1))
    }
}

/// A byte is escaped in the canonical encoding iff it is the escape marker
/// itself or lies outside the printable ASCII range.
pub open spec fn needs_escape(b: u8) -> bool {
    b == percent_byte() || b < 32 || b > 126
}

/// The canonical percent encoding of `raw`: printable bytes other than `%`
/// pass through; everything else becomes `%` and two upper-case hex digits.
pub open spec fn encode_percent_spec(raw: Seq<u8>) -> Seq<u8>
    decreases raw.len(),
{
    if raw.len() == 0 {
        Seq::empty()
    } else if needs_escape(raw[0]) {
        seq![percent_byte(), hex_digit_of(raw[0] / 16), hex_digit_of(raw[0] % 16)]
            + encode_percent_spec(raw.drop_first())
    } else {
        seq![raw[0]] + encode_percent_spec(raw.drop_first())
    }
}

fn is_hex_digit_exec(b: u8) -> (r: bool)
    ensures
        r == is_hex_digit(b),
{
    (48 <= b && b <= 57) || (65 <= b && b <= 70) || (97 <= b && b <= 102)
}

fn hex_val_exec(b: u8) -> (v: u8)
    requires
        is_hex_digit(b),
    ensures
        v == hex_val(b),
        v <= 15,
{
    if 48 <= b && b <= 57 {
        b - 48
    } else if 65 <= b && b <= 70 {
        b - 55
    } else {
        b - 87
    }
}

fn hex_digit_of_exec(d: u8) -> (b: u8)
    requires
        d < 16,
    ensures
        b == hex_digit_of(d),
{
    if d < 10 {
        48 + d
    } else {
        55 + d
    }
}

/// Decodes a percent-escaped payload. Returns the raw bytes exactly when
/// every `%` is followed by two hex digits; a truncated or malformed escape
/// yields `None`.
pub fn decode_percent(encoded: &[u8]) -> (r: Option<Vec<u8>>)
    ensures
        r is Some <==> valid_percent_encoding(encoded@),
        r matches Some(v) ==> v@ == decode_percent_spec(encoded@),
{
    let mut out: Vec<u8> = Vec::new();
    let mut i: usize = 0;
    proof {
        assert(encoded@.skip(0) =~= encoded@);
        assert(out@ + decode_percent_spec(encoded@) =~= decode_percent_spec(encoded@));
    }
    while i < encoded.len()
        invariant
            i <= encoded.len(),
            valid_percent_encoding(encoded@) <==> valid_percent_encoding(
                encoded@.skip(i as int),
            ),
            valid_percent_encoding(encoded@) ==> decode_percent_spec(encoded@) == out@
                + decode_percent_spec(encoded@.skip(i as int)),
        decreases encoded.len() - i,
    {
        let b = encoded[i];
        proof {
            assert(encoded@.skip(i as int)[0] == b);
        }
        if b != 37 {
            out.push(b);
            proof {
                assert(encoded@.skip(i as int).skip(1) =~= encoded@.skip(i as int + 1));
            }
            i = i + 1;
        } else {
            if encoded.len() - i < 3 {
                proof {
                    assert(encoded@.skip(i as int).len() < 3);
                }
                return None;
            }
            let h1 = encoded[i + 1];
            let h2 = encoded[i + 2];
            proof {
                assert(encoded@.skip(i as int)[1] == h1);
                assert(encoded@.skip(i as int)[2] == h2);
            }
            if !is_hex_digit_exec(h1) || !is_hex_digit_exec(h2) {
                return None;
            }
            let v1 = hex_val_exec(h1);
            let v2 = hex_val_exec(h2);
            out.push(v1 * 16 + v2);
            proof {
                assert(encoded@.skip(i as int).skip(3) =~= encoded@.skip(i as int + 3));
            }
            i = i + 3;
        }
    }
    proof {
        assert(encoded@.skip(i as int) =~= Seq::<u8>::empty());
    }
    Some(out)
}

/// Produces the canonical percent encoding of `raw`.
pub fn encode_percent(raw: &[u8]) -> (r: Vec<u8>)
    ensures
        r@ == encode_percent_spec(raw@),
{
    let mut out: Vec<u8> = Vec::new();
    let mut i: usize = 0;
    proof {
        assert(raw@.skip(0) =~= raw@);
        assert(out@ + encode_percent_spec(raw@) =~= encode_percent_spec(raw@));
    }
    while i < raw.len()
        invariant
            i <= raw.len(),
            encode_percent_spec(raw@) == out@ + encode_percent_spec(raw@.skip(i as int)),
        decreases raw.len() - i,
    {
        let b = raw[i];
        proof {
            assert(raw@.skip(i as int)[0] == b);
            assert(raw@.skip(i as int).drop_first() =~= raw@.skip(i as int + 1));
        }
        if b == 37 || b < 32 || b > 126 {
            out.push(37);
            out.push(hex_digit_of_exec(b / 16));
            out.push(hex_digit_of_exec(b % 16));
        } else {
            out.push(b);
        }
        i = i + 1;
    }
    proof {
        assert(raw@.skip(i as int) =~= Seq::<u8>::empty());
        assert(out@ + encode_percent_spec(raw@.skip(i as int)) =~= out@);
    }
    out
}

/// Round trip of the percent escaping: the canonical encoding of any byte
/// sequence is itself a valid encoding, and decoding it gives the original
/// bytes back. Hence decoding any valid encoding and re-encoding the result
/// reproduces the canonical form of the same payload.
pub proof fn lemma_percent_round_trip(raw: Seq<u8>)
    ensures
        valid_percent_encoding(encode_percent_spec(raw)),
        decode_percent_spec(encode_percent_spec(raw)) == raw,
    decreases raw.len(),
{
    if raw.len() == 0 {
        assert(decode_percent_spec(encode_percent_spec(raw)) =~= raw);
    } else {
        lemma_percent_round_trip(raw.drop_first());
        let b = raw[0];
        if needs_escape(b) {
            let enc = encode_percent_spec(raw);
            let rest = encode_percent_spec(raw.drop_first());
            assert(enc == seq![percent_byte(), hex_digit_of(b / 16), hex_digit_of(b % 16)]
                + rest);
            assert(enc[0] == percent_byte());
            assert(enc[1] == hex_digit_of(b / 16));
            assert(enc[2] == hex_digit_of(b % 16));
            assert(enc.skip(3) =~= rest);
            assert(is_hex_digit(hex_digit_of(b / 16)));
            assert(is_hex_digit(hex_digit_of(b % 16)));
            assert(hex_val(hex_digit_of(b / 16)) == b / 16);
            assert(hex_val(hex_digit_of(b % 16)) == b % 16);
            assert((hex_val(enc[1]) as int) * 16 + (hex_val(enc[2]) as int) == b as int);
            assert(decode_percent_spec(enc) =~= raw);
        } else {
            let enc = encode_percent_spec(raw);
            let rest = encode_percent_spec(raw.drop_first());
            assert(enc == seq![b] + rest);
            assert(enc[0] == b && b != percent_byte());
            assert(enc.skip(1) =~= rest);
            assert(decode_percent_spec(enc) =~= raw);
        }
    }
}

/// Decoding any valid encoding and re-encoding the result reproduces the
/// canonical form: a valid encoding again, of the very same payload.
pub proof fn lemma_reencode_canonical(s: Seq<u8>)
    requires
        valid_percent_encoding(s),
    ensures
        valid_percent_encoding(encode_percent_spec(decode_percent_spec(s))),
        decode_percent_spec(encode_percent_spec(decode_percent_spec(s))) == decode_percent_spec(
            s,
        ),
{
    lemma_percent_round_trip(decode_percent_spec(s));
}

/// ASCII newline.
pub open spec fn newline_byte() -> u8 {
    10
}

/// The length of the first line of `s` (up to, not including, the first
/// newline, or all of `s` if it has none).
pub open spec fn line_len(s: Seq<u8>) -> nat
    decreases s.len(),
{
    if s.len() == 0 {
        0
    } else if s[0] == newline_byte() {
        0
    } else {
        1 + line_len(s.drop_first())
    }
}

/// `s` begins with the two-byte data marker `"D "`.
pub open spec fn starts_with_data_marker(s: Seq<u8>) -> bool {
    s.len() >= 2 && s[0] == 68 && s[1] == 32
}

/// The payload of the first line of `s` that begins with the data marker,
/// with the marker stripped; `None` if no line carries the marker.
pub open spec fn data_payload(s: Seq<u8>) -> Option<Seq<u8>>
    decreases s.len(),
{
    let l = line_len(s) as int;
    if starts_with_data_marker(s) {
        Some(s.subrange(2, l))
    } else if l < s.len() {
        data_payload(s.skip(l + 1))
    } else {
        None
    }
}

/// A scan that stopped at position `j` found the first line's length.
proof fn lemma_line_len_scan(s: Seq<u8>, j: int)
    requires
        0 <= j <= s.len(),
        forall|k: int| 0 <= k < j ==> s[k] != newline_byte(),
        j == s.len() || s[j] == newline_byte(),
    ensures
        line_len(s) == j,
    decreases j,
{
    if j > 0 {
        lemma_line_len_scan(s.drop_first(), j - 1);
    }
}

/// Extracts the raw payload of the first data line of the helper's output.
pub fn find_data_payload(out: &[u8]) -> (r: Option<Vec<u8>>)
    ensures
        r is Some <==> data_payload(out@) is Some,
        r matches Some(v) ==> data_payload(out@) == Some(v@),
{
    let mut pos: usize = 0;
    proof {
        assert(out@.skip(0) =~= out@);
    }
    while pos < out.len()
        invariant
            pos <= out.len(),
            data_payload(out@) == data_payload(out@.skip(pos as int)),
        decreases out.len() - pos,
    {
        let ghost line = out@.skip(pos as int);
        // find the end of the current line
        let mut j: usize = pos;
        while j < out.len() && out[j] != 10
            invariant
                pos <= j <= out.len(),
                forall|k: int| pos <= k < j ==> out@[k] != newline_byte(),
            decreases out.len() - j,
        {
            j = j + 1;
        }
        proof {
            assert(forall|k: int| 0 <= k < j - pos ==> line[k] == out@[pos + k]);
            lemma_line_len_scan(line, j - pos);
        }
        if out.len() - pos >= 2 && out[pos] == 68 && out[pos + 1] == 32 {
            proof {
                assert(line[0] == 68 && line[1] == 32);
                assert(starts_with_data_marker(line));
            }
            let mut payload: Vec<u8> = Vec::new();
            let mut k: usize = pos + 2;
            while k < j
                invariant
                    pos + 2 <= k <= j <= out.len(),
                    payload@ =~= out@.subrange(pos as int + 2, k as int),
                decreases j - k,
            {
                payload.push(out[k]);
                k = k + 1;
            }
            proof {
                assert(line.subrange(2, line_len(line) as int) =~= out@.subrange(
                    pos as int + 2,
                    j as int,
                ));
            }
            return Some(payload);
        }
        if j == out.len() {
            proof {
                assert(line_len(line) == line.len());
                assert(data_payload(line) is None);
            }
            return None;
        }
        proof {
            assert(line_len(line) < line.len());
            assert(line.skip(line_len(line) as int + 1) =~= out@.skip(j as int + 1));
        }
        pos = j + 1;
    }
    proof {
        let empty = out@.skip(pos as int);
        assert(empty =~= Seq::<u8>::empty());
        assert(data_payload(empty) is None);
    }
    None
}

/// Relies on `String::from_utf8`: it succeeds exactly on valid UTF-8 input
/// and returns the text whose byte encoding is that input.
#[verifier::external_body]
fn string_from_utf8(bytes: Vec<u8>) -> (r: Option<String>)
    ensures
        r is Some <==> valid_utf8(bytes@),
        r matches Some(s) ==> s@ == decode_utf8(bytes@),
{
    String::from_utf8(bytes).ok()
}

/// The secret carried by a data-line payload: the percent escapes decoded,
/// read as UTF-8 text. `None` on any malformed escape or invalid text.
pub open spec fn assuan_data_spec(payload: Seq<u8>) -> Option<Seq<char>> {
    if valid_percent_encoding(payload) && valid_utf8(decode_percent_spec(payload)) {
        Some(decode_utf8(decode_percent_spec(payload)))
    } else {
        None
    }
}

/// Decodes a data-line payload into the secret text.
pub fn decode_assuan_data(encoded: &str) -> (r: Option<String>)
    ensures
        r is Some <==> assuan_data_spec(encoded.spec_bytes()) is Some,
        r matches Some(s) ==> assuan_data_spec(encoded.spec_bytes()) == Some(s@),
{
    let bytes = encoded.as_bytes();
    match decode_percent(bytes) {
        None => None,
        Some(raw) => string_from_utf8(raw),
    }
}

fn decode_payload_bytes(payload: Vec<u8>) -> (r: Option<String>)
    ensures
        r is Some <==> assuan_data_spec(payload@) is Some,
        r matches Some(s) ==> assuan_data_spec(payload@) == Some(s@),
{
    match decode_percent(payload.as_slice()) {
        None => None,
        Some(raw) => string_from_utf8(raw),
    }
}

/// The secret that a full helper response carries: the decoded payload of
/// the first data line, if there is one and it decodes cleanly.
pub open spec fn pinentry_secret(out: Seq<u8>) -> Option<Seq<char>> {
    match data_payload(out) {
        Some(p) => assuan_data_spec(p),
        None => None,
    }
}

/// Parses the secure-entry helper's full output. Every failure — no data
/// line, a malformed escape, invalid text — degrades to `None`, so the
/// caller falls back to the next secret source.
pub fn parse_pinentry_output(out: &[u8]) -> (r: Option<String>)
    ensures
        r is Some <==> pinentry_secret(out@) is Some,
        r matches Some(s) ==> pinentry_secret(out@) == Some(s@),
{
    match find_data_payload(out) {
        None => None,
        Some(payload) => decode_payload_bytes(payload),
    }
}

/// The four-line request written to the secure-entry helper: a title, a
/// description naming the target URL, a prompt label, and the directive
/// asking for the secret.
pub open spec fn pinentry_request_spec(url: Seq<char>) -> Seq<char> {
    "SETTITLE jj passphrase\nSETDESC Enter passphrase for "@ + url
        + "\nSETPROMPT Passphrase:\nGETPIN\n"@
}

/// Builds the request for the given target URL.
pub fn pinentry_request(url: &str) -> (r: String)
    ensures
        r@ == pinentry_request_spec(url@),
{
    let mut s = "SETTITLE jj passphrase\nSETDESC Enter passphrase for ".to_owned();
    s.append(url);
    s.append("\nSETPROMPT Passphrase:\nGETPIN\n");
    proof {
        assert(s@ =~= pinentry_request_spec(url@));
    }
    s
}

} // verus!
