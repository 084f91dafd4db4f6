use vstd::prelude::*;
use vstd::string::*;

use base64::Engine;

use crate::engine::ProofInput;

verus! {

/// A character that may stand unescaped inside a JSON string literal and
/// encodes as a single byte: printable ASCII except the quote and the
/// backslash.  Move tokens, board strings and addresses that passed the
/// rules engine are all of this shape.
pub open spec fn json_plain_char(c: char) -> bool {
    ' ' <= c && c <= '~' && c != '"' && c != '\\'
}

/// A string that may stand unescaped inside a JSON string literal.
pub open spec fn json_plain(s: Seq<char>) -> bool {
    forall|i: int| 0 <= i < s.len() ==> json_plain_char(#[trigger] s[i])
}

fn is_json_plain(s: &str) -> (r: bool)
    ensures
        r == json_plain(s@),
{
    let n = s.unicode_len();
    let mut i: usize = 0;
    while i < n
        invariant
            0 <= i <= n,
            n == s@.len(),
            forall|t: int| 0 <= t < i ==> json_plain_char(#[trigger] s@[t]),
        decreases n - i,
    {
        let c = s.get_char(i);
        if c < ' ' || c > '~' || c == '"' || c == '\\' {
            return false;
        }
        i += 1;
    }
    true
}

/// The bytes of an ASCII string, character for character.
pub open spec fn ascii_of(s: Seq<char>) -> Seq<u8> {
    s.map_values(|c: char| c as u8)
}

/// The bytes of a string of single-byte characters.
fn ascii_bytes(s: &str) -> (r: Vec<u8>)
    requires
        json_plain(s@),
    ensures
        r@ == ascii_of(s@),
{
    proof {
        broadcast use vstd::string::is_ascii_spec_bytes;

        assert(vstd::string::is_ascii(s));
    }
    let r = s.as_bytes_vec();
    proof {
        assert(r@ =~= ascii_of(s@));
    }
    r
}

/// The JSON array the settlement program deserializes its four inputs
/// from, over strings that need no escaping: `["a","b","c","d"]`.
pub open spec fn json_four(a: Seq<char>, b: Seq<char>, c: Seq<char>, d: Seq<char>) -> Seq<u8> {
    seq![91u8, 34u8] + ascii_of(a) + seq![34u8, 44u8, 34u8] + ascii_of(b) + seq![
        34u8,
        44u8,
        34u8,
    ] + ascii_of(c) + seq![34u8, 44u8, 34u8] + ascii_of(d) + seq![34u8, 93u8]
}

/// Serialize a chained proof input as the four-string JSON array, or
/// nothing when a field would need escaping.  Every move token and
/// board the rules engine accepts or renders is plain printable ASCII,
/// so a refusal can only meet a field no valid message produces.
pub fn serialize_proof_input(pi: &ProofInput) -> (r: Option<Vec<u8>>)
    ensures
        match r {
            Some(v) => {
                &&& json_plain(pi.claimed_move@) && json_plain(pi.claimed_board@) && json_plain(
                    pi.prev_move@,
                ) && json_plain(pi.prev_board@)
                &&& v@ == json_four(
                    pi.claimed_move@,
                    pi.claimed_board@,
                    pi.prev_move@,
                    pi.prev_board@,
                )
            },
            None => !(json_plain(pi.claimed_move@) && json_plain(pi.claimed_board@) && json_plain(
                pi.prev_move@,
            ) && json_plain(pi.prev_board@)),
        },
{
    if !is_json_plain(pi.claimed_move.as_str()) {
        return None;
    }
    if !is_json_plain(pi.claimed_board.as_str()) {
        return None;
    }
    if !is_json_plain(pi.prev_move.as_str()) {
        return None;
    }
    if !is_json_plain(pi.prev_board.as_str()) {
        return None;
    }
    let mut v: Vec<u8> = Vec::new();
    v.push(91);
    v.push(34);
    let mut f1 = ascii_bytes(pi.claimed_move.as_str());
    v.append(&mut f1);
    v.push(34);
    v.push(44);
    v.push(34);
    let mut f2 = ascii_bytes(pi.claimed_board.as_str());
    v.append(&mut f2);
    v.push(34);
    v.push(44);
    v.push(34);
    let mut f3 = ascii_bytes(pi.prev_move.as_str());
    v.append(&mut f3);
    v.push(34);
    v.push(44);
    v.push(34);
    let mut f4 = ascii_bytes(pi.prev_board.as_str());
    v.append(&mut f4);
    v.push(34);
    v.push(93);
    proof {
        assert(v@ =~= json_four(
            pi.claimed_move@,
            pi.claimed_board@,
            pi.prev_move@,
            pi.prev_board@,
        ));
    }
    Some(v)
}

/// The standard base64 rendering of a byte string.  A function of the
/// bytes alone.
pub uninterp spec fn b64_of(data: Seq<u8>) -> Seq<char>;

/// Relies on base64: the STANDARD engine's encode renders the bytes
/// alone, four characters for every three bytes begun.
#[verifier::external_body]
pub(crate) fn base64_encode(data: &[u8]) -> (r: String)
    ensures
        r@ == b64_of(data@),
        r@.len() == 4 * ((data@.len() + 2) / 3),
{
    base64::engine::general_purpose::STANDARD.encode(data)
}

/// The content-addressed payload published for a chained proof input:
/// the base64 rendering of its JSON serialization.
pub fn settlement_payload(pi: &ProofInput) -> (r: Option<String>)
    ensures
        match r {
            Some(s) => s@ == b64_of(
                json_four(pi.claimed_move@, pi.claimed_board@, pi.prev_move@, pi.prev_board@),
            ),
            None => !(json_plain(pi.claimed_move@) && json_plain(pi.claimed_board@) && json_plain(
                pi.prev_move@,
            ) && json_plain(pi.prev_board@)),
        },
{
    match serialize_proof_input(pi) {
        Some(v) => Some(base64_encode(v.as_slice())),
        None => None,
    }
}

/// A byte the percent-encoding leaves as it stands: an alphanumeric or
/// one of '-', '.', '_', '~'.
pub open spec fn url_unreserved(b: u8) -> bool {
    (48 <= b && b <= 57) || (65 <= b && b <= 90) || (97 <= b && b <= 122) || b == 45 || b == 46
        || b == 95 || b == 126
}

/// An upper-case hexadecimal digit.
pub open spec fn hex_digit(d: u8) -> char {
    if d < 10 {
        (d + 48) as char
    } else {
        (d + 55) as char
    }
}

/// The percent-encoded form of a byte string: every unreserved byte
/// stands as it is, every other becomes '%' and two upper-case
/// hexadecimal digits.
pub open spec fn urlenc_bytes(bs: Seq<u8>) -> Seq<char>
    decreases bs.len(),
{
    if bs.len() == 0 {
        Seq::empty()
    } else if url_unreserved(bs[0]) {
        seq![bs[0] as char] + urlenc_bytes(bs.drop_first())
    } else {
        seq!['%', hex_digit(bs[0] / 16), hex_digit(bs[0] % 16)] + urlenc_bytes(bs.drop_first())
    }
}

/// Relies on urlencoding::encode: every byte except alphanumerics and
/// '-', '.', '_', '~' becomes '%' and two upper-case hexadecimal digits,
/// determined by the string's bytes alone.
#[verifier::external_body]
pub(crate) fn url_encode(s: &str) -> (r: String)
    ensures
        r@ == urlenc_bytes(s.spec_bytes()),
{
    urlencoding::encode(s).into_owned()
}

/// The notification sent after an accepted in-progress move: who played
/// what, a rendered board image, and the FEN to pass back.
pub open spec fn spec_notification_body(mover: Seq<char>, mv: Seq<char>, fen: Seq<char>) -> Seq<
    char,
> {
    "<body><p>"@ + mover + " played <b>"@ + mv
        + "</p><p><img src=\"https://fen2image.chessvision.ai/"@ + urlenc_bytes(
        vstd::utf8::encode_utf8(fen),
    ) + ".png\"></p><p>Current FEN (to pass in next mail): "@ + fen + "</p></body>"@
}

/// Render the notification body for an accepted in-progress move.
pub fn notification_body(mover: &str, mv: &str, fen: &str) -> (r: String)
    ensures
        r@ == spec_notification_body(mover@, mv@, fen@),
{
    let enc = url_encode(fen);
    let mut s = String::from_str("<body><p>");
    s.append(mover);
    s.append(" played <b>");
    s.append(mv);
    s.append("</p><p><img src=\"https://fen2image.chessvision.ai/");
    s.append(enc.as_str());
    s.append(".png\"></p><p>Current FEN (to pass in next mail): ");
    s.append(fen);
    s.append("</p></body>");
    s
}

/// The subject line of the notification.
pub open spec fn spec_notification_subject(mover: Seq<char>) -> Seq<char> {
    "New valid move from "@ + mover
}

/// Render the subject line of the notification.
pub fn notification_subject(mover: &str) -> (r: String)
    ensures
        r@ == spec_notification_subject(mover@),
{
    let mut s = String::from_str("New valid move from ");
    s.append(mover);
    s
}

} // verus!
