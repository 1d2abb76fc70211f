//! JSON Web Keys, as far as this crate writes them.
use vstd::prelude::*;

verus! {

/// A JSON Web Key: the members that a public signing key is written with.
/// It is a plain record, built anew by each export.
#[derive(Debug, PartialEq, Eq)]
pub struct Jwk {
    pub kty: String,
    pub use_: Option<String>,
    pub alg: Option<String>,
    pub crv: Option<String>,
    pub x: Option<String>,
    pub y: Option<String>,
    pub n: Option<String>,
    pub e: Option<String>,
}

/// A `Jwk` as mathematics sees it: each text as its sequence of characters.
pub struct JwkView {
    pub kty: Seq<char>,
    pub use_: Option<Seq<char>>,
    pub alg: Option<Seq<char>>,
    pub crv: Option<Seq<char>>,
    pub x: Option<Seq<char>>,
    pub y: Option<Seq<char>>,
    pub n: Option<Seq<char>>,
    pub e: Option<Seq<char>>,
}

/// The characters of a member that may be absent.
pub open spec fn member_text(member: Option<String>) -> Option<Seq<char>> {
    match member {
        Some(text) => Some(text@),
        None => None,
    }
}

impl View for Jwk {
    type V = JwkView;

    open spec fn view(&self) -> JwkView {
        JwkView {
            kty: self.kty@,
            use_: member_text(self.use_),
            alg: member_text(self.alg),
            crv: member_text(self.crv),
            x: member_text(self.x),
            y: member_text(self.y),
            n: member_text(self.n),
            e: member_text(self.e),
        }
    }
}

/// The text of bytes in base64 with the URL-safe alphabet and no padding
/// (RFC 4648, section 5): what `base64::encode_config` returns for them under
/// `URL_SAFE_NO_PAD`.
pub uninterp spec fn base64url_text(bytes: Seq<u8>) -> Seq<char>;

/// Whether the base64 text of `len` bytes has a length that fits in `usize`.
pub open spec fn base64_fits(len: nat) -> bool {
    len / 3 * 4 + 3 <= usize::MAX
}

/// The number of characters that `len` bytes take in base64 without
/// padding: four for every three bytes, and two or three for a remainder of
/// one or two.
pub open spec fn base64_len(len: nat) -> nat {
    len / 3 * 4 + if len % 3 == 0 {
        0nat
    } else {
        len % 3 + 1
    }
}

/// `base64::encode_config` with `base64::URL_SAFE_NO_PAD`. The encoding is a
/// function of the bytes alone, so it has a name; its length is the one
/// that the crate computes before it encodes. The bound leaves out the
/// lengths on which the crate panics for overflow of that size.
#[verifier::external_body]
pub(crate) fn base64url_encode(bytes: &[u8]) -> (text: String)
    requires
        base64_fits(bytes@.len()),
    ensures
        text@ == base64url_text(bytes@),
        text@.len() == base64_len(bytes@.len()),
{
    base64::encode_config(bytes, base64::URL_SAFE_NO_PAD)
}

/// Whether the base64 text of `len` bytes has a length that fits in `usize`.
pub fn fits_base64(len: usize) -> (fits: bool)
    ensures
        fits == base64_fits(len as nat),
{
    len / 3 <= (usize::MAX - 3) / 4
}

} // verus!
