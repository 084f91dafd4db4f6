use vstd::prelude::*;
use vstd::string::*;

use mailparse::MailHeaderMap;

use crate::parse::{field_of, find_field};

verus! {

/// The address list a named header of a raw message carries, as the mail
/// parser reads it: nothing when the message or the header is missing or
/// malformed, or when an entry is a group rather than a single address.
pub uninterp spec fn addrs_of(raw: Seq<u8>, header: Seq<char>) -> Option<Seq<Seq<char>>>;

/// The decoded text of the first subpart of a raw message, if it has one.
pub uninterp spec fn body_text_of(raw: Seq<u8>) -> Option<Seq<char>>;

/// Relies on mailparse: parse_mail, MailHeaderMap::get_first_header and
/// addrparse_header read a header's addresses from the bytes alone.
#[verifier::external_body]
pub(crate) fn mail_header_addrs(raw: &[u8], header: &str) -> (r: Option<Vec<String>>)
    ensures
        match r {
            Some(v) => addrs_of(raw@, header@) == Some(v@.map_values(|s: String| s@)),
            None => addrs_of(raw@, header@) is None,
        },
{
    let mail = mailparse::parse_mail(raw).ok()?;
    let hdr = mail.headers.get_first_header(header)?;
    let list = mailparse::addrparse_header(hdr).ok()?;
    let mut out = Vec::new();
    for a in list.iter() {
        match a {
            mailparse::MailAddr::Single(info) => out.push(info.addr.clone()),
            mailparse::MailAddr::Group(_) => return None,
        }
    }
    Some(out)
}

/// Relies on mailparse: parse_mail and ParsedMail::get_body decode the
/// first subpart's text from the bytes alone.
#[verifier::external_body]
pub(crate) fn mail_body_text(raw: &[u8]) -> (r: Option<String>)
    ensures
        match r {
            Some(s) => body_text_of(raw@) == Some(s@),
            None => body_text_of(raw@) is None,
        },
{
    let mail = mailparse::parse_mail(raw).ok()?;
    let part = mail.subparts.first()?;
    part.get_body().ok()
}

/// The mover: the single "From" address, when that header carries exactly
/// one.
pub open spec fn spec_from_addr(raw: Seq<u8>) -> Option<Seq<char>> {
    match addrs_of(raw, "From"@) {
        Some(l) => if l.len() == 1 {
            Some(l[0])
        } else {
            None
        },
        None => None,
    }
}

/// The opponent: the single "Cc" address, when that header carries
/// exactly one.
pub open spec fn spec_cc_addr(raw: Seq<u8>) -> Option<Seq<char>> {
    match addrs_of(raw, "Cc"@) {
        Some(l) => if l.len() == 1 {
            Some(l[0])
        } else {
            None
        },
        None => None,
    }
}

fn single_addr(raw: &[u8], header: &str) -> (r: Option<String>)
    ensures
        match r {
            Some(a) => addrs_of(raw@, header@) matches Some(l) && l.len() == 1 && l[0] == a@,
            None => !(addrs_of(raw@, header@) matches Some(l) && l.len() == 1),
        },
{
    match mail_header_addrs(raw, header) {
        Some(mut l) => {
            if l.len() == 1 {
                let ghost lv = l@;
                let a = l.remove(0);
                proof {
                    assert(lv.map_values(|s: String| s@)[0] == lv[0]@);
                }
                Some(a)
            } else {
                None
            }
        },
        None => None,
    }
}

/// Both identities of a message: the single "From" address and the single
/// "Cc" address; nothing when either header does not carry exactly one.
pub fn extract_identities(raw: &[u8]) -> (r: Option<(String, String)>)
    ensures
        match r {
            Some(p) => spec_from_addr(raw@) == Some(p.0@) && spec_cc_addr(raw@) == Some(p.1@),
            None => spec_from_addr(raw@) is None || spec_cc_addr(raw@) is None,
        },
{
    let from = single_addr(raw, "From");
    let cc = single_addr(raw, "Cc");
    match (from, cc) {
        (Some(f), Some(c)) => Some((f, c)),
        _ => None,
    }
}

/// The first index at or after `i` holding horizontal whitespace, or the
/// end of the value.
pub open spec fn token_end(v: Seq<char>, i: int) -> int
    decreases v.len() - i,
{
    if i < 0 {
        0
    } else if i >= v.len() {
        v.len() as int
    } else if crate::parse::is_space(v[i]) {
        i
    } else {
        token_end(v, i + 1)
    }
}

/// Whether a field value begins with an address-shaped token: an
/// unbroken run of non-space characters with an interior '@'.
pub open spec fn addr_like(v: Seq<char>) -> bool {
    exists|p: int| 0 < p && p + 1 < token_end(v, 0) && v[p] == '@'
}

fn addr_like_check(v: &str) -> (r: bool)
    ensures
        r == addr_like(v@),
{
    let n = v.unicode_len();
    let mut e: usize = 0;
    while e < n && !crate::parse::is_space_char(v.get_char(e))
        invariant
            0 <= e <= n,
            n == v@.len(),
            token_end(v@, 0) == token_end(v@, e as int),
        decreases n - e,
    {
        e += 1;
    }
    if e < 3 {
        return false;
    }
    let mut p: usize = 1;
    while p < e - 1
        invariant
            1 <= p <= e,
            3 <= e <= n,
            n == v@.len(),
            e == token_end(v@, 0),
            forall|t: int| 0 < t && t < p ==> v@[t] != '@',
        decreases e - p,
    {
        if v.get_char(p) == '@' {
            return true;
        }
        p += 1;
    }
    false
}

/// The protocol fields of a message body.
pub struct ParsedBody {
    pub chess_move: Option<String>,
    pub fen: Option<String>,
    pub new_game: bool,
}

/// The move token of a body: the trimmed rest of the first MOVE line.
pub open spec fn spec_move_field(body: Seq<char>) -> Option<Seq<char>> {
    field_of(body, "MOVE:"@)
}

/// The claimed board of a body: the trimmed rest of the first FEN line.
pub open spec fn spec_fen_field(body: Seq<char>) -> Option<Seq<char>> {
    field_of(body, "FEN:"@)
}

/// Whether a body marks a fresh game: a NEW GAME line whose value looks
/// like an address.
pub open spec fn spec_new_game(body: Seq<char>) -> bool {
    match field_of(body, "NEW GAME:"@) {
        Some(v) => addr_like(v),
        None => false,
    }
}

/// Read the three protocol fields out of a message body.
pub fn parse_mail_body(body: &str) -> (r: ParsedBody)
    ensures
        match r.chess_move {
            Some(v) => spec_move_field(body@) == Some(v@),
            None => spec_move_field(body@) is None,
        },
        match r.fen {
            Some(v) => spec_fen_field(body@) == Some(v@),
            None => spec_fen_field(body@) is None,
        },
        r.new_game == spec_new_game(body@),
{
    proof {
        reveal_strlit("MOVE:");
        reveal_strlit("FEN:");
        reveal_strlit("NEW GAME:");
    }
    let chess_move = find_field(body, "MOVE:");
    let fen = find_field(body, "FEN:");
    let new_game = match find_field(body, "NEW GAME:") {
        Some(v) => addr_like_check(v.as_str()),
        None => false,
    };
    ParsedBody { chess_move, fen, new_game }
}

} // verus!
