//! Text from raw bytes: UTF-8 first, then the two legacy East-Asian
//! encodings the format is found in, through encoding_rs.
use vstd::prelude::*;

verus! {

/// The input bytes fit no supported encoding.
#[derive(Debug, Clone, Copy, PartialEq, Eq, Structural)]
pub struct EncodingError;

/// Inputs longer than this are refused outright rather than decoded; the
/// decoder's worst-case output-size arithmetic must not overflow `usize`.
pub const MAX_DECODE_INPUT: u64 = 0x2000_0000_0000_0000;

/// What encoding_rs's SHIFT_JIS decode yields on given bytes, when it
/// reports no malformed sequences; a function of the bytes alone.
pub uninterp spec fn shift_jis_text(bytes: Seq<u8>) -> Option<Seq<char>>;

/// What encoding_rs's EUC_JP decode yields on given bytes, when it
/// reports no malformed sequences; a function of the bytes alone.
pub uninterp spec fn euc_jp_text(bytes: Seq<u8>) -> Option<Seq<char>>;

/// Relies on `std::str::from_utf8`: succeeds exactly on valid UTF-8, and
/// yields the decoded characters, as vstd's UTF-8 model states them.
#[verifier::external_body]
fn decode_utf8_bytes(bytes: &[u8]) -> (r: Option<String>)
    ensures
        r is Some <==> vstd::utf8::valid_utf8(bytes@),
        r matches Some(s) ==> s@ == vstd::utf8::decode_utf8(bytes@),
{
    match std::str::from_utf8(bytes) {
        Ok(s) => Some(s.to_owned()),
        Err(_) => None,
    }
}

/// Relies on encoding_rs's `SHIFT_JIS.decode`: a pure function of the
/// bytes; the text is handed out only when no sequence was malformed. The
/// input bound keeps its output-size arithmetic from overflowing.
#[verifier::external_body]
fn decode_shift_jis(bytes: &[u8]) -> (r: Option<String>)
    requires
        bytes@.len() <= MAX_DECODE_INPUT,
    ensures
        match r {
            Some(s) => shift_jis_text(bytes@) == Some(s@),
            None => shift_jis_text(bytes@) is None,
        },
{
    let (s, _, malformed) = encoding_rs::SHIFT_JIS.decode(bytes);
    if malformed {
        None
    } else {
        Some(s.into_owned())
    }
}

/// Relies on encoding_rs's `EUC_JP.decode`: a pure function of the bytes;
/// the text is handed out only when no sequence was malformed. The input
/// bound keeps its output-size arithmetic from overflowing.
#[verifier::external_body]
fn decode_euc_jp(bytes: &[u8]) -> (r: Option<String>)
    requires
        bytes@.len() <= MAX_DECODE_INPUT,
    ensures
        match r {
            Some(s) => euc_jp_text(bytes@) == Some(s@),
            None => euc_jp_text(bytes@) is None,
        },
{
    let (s, _, malformed) = encoding_rs::EUC_JP.decode(bytes);
    if malformed {
        None
    } else {
        Some(s.into_owned())
    }
}

/// The text the byte stream decodes to: UTF-8 where the bytes are valid
/// UTF-8, else the first of SHIFT_JIS and EUC_JP that decodes without
/// malformed sequences.
pub open spec fn spec_decoded_text(bytes: Seq<u8>) -> Option<Seq<char>> {
    if vstd::utf8::valid_utf8(bytes) {
        Some(vstd::utf8::decode_utf8(bytes))
    } else if shift_jis_text(bytes) is Some {
        shift_jis_text(bytes)
    } else {
        euc_jp_text(bytes)
    }
}

/// Decodes raw bytes to text, as [`spec_decoded_text`] says; oversize
/// input and bytes no encoding accepts are errors.
pub fn bytes_to_string(bytes: &[u8]) -> (r: Result<String, EncodingError>)
    ensures
        bytes@.len() > MAX_DECODE_INPUT ==> r is Err,
        bytes@.len() <= MAX_DECODE_INPUT ==> match r {
            Ok(s) => spec_decoded_text(bytes@) == Some(s@),
            Err(_) => spec_decoded_text(bytes@) is None,
        },
{
    if bytes.len() as u64 > MAX_DECODE_INPUT {
        return Err(EncodingError);
    }
    match decode_utf8_bytes(bytes) {
        Some(s) => Ok(s),
        None => match decode_shift_jis(bytes) {
            Some(s) => Ok(s),
            None => match decode_euc_jp(bytes) {
                Some(s) => Ok(s),
                None => Err(EncodingError),
            },
        },
    }
}

} // verus!
