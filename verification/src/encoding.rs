use vstd::prelude::*;
use base64::Engine;

verus! {

/// The application/x-www-form-urlencoded serialization of the UTF-8 bytes
/// of a string: alphanumerics and `*-._` pass through, a space becomes
/// `+`, every other byte becomes `%XX`. A function of the characters
/// alone.
pub uninterp spec fn form_encoded(s: Seq<char>) -> Seq<char>;

/// Relies on url::form_urlencoded::byte_serialize: the
/// form-urlencoded serialization of the UTF-8 bytes of `s`.
#[verifier::external_body]
pub(crate) fn form_urlencode(s: &str) -> (r: String)
    ensures
        r@ == form_encoded(s@),
{
    url::form_urlencoded::byte_serialize(s.as_bytes()).collect()
}

/// The padded, standard-alphabet base64 encoding of the UTF-8 bytes of a
/// string. A function of the characters alone.
pub uninterp spec fn base64_standard(s: Seq<char>) -> Seq<char>;

/// Relies on base64's general_purpose::STANDARD engine: the padded
/// standard-alphabet base64 encoding of the UTF-8 bytes of `s`.
#[verifier::external_body]
pub(crate) fn base64_standard_encode(s: &str) -> (r: String)
    ensures
        r@ == base64_standard(s@),
{
    base64::engine::general_purpose::STANDARD.encode(s.as_bytes())
}

} // verus!
