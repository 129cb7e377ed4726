//! The digest of the password that the console wants at login.

use vstd::prelude::*;

verus! {

/// The MD5 digest of a text's UTF-8 bytes, as 32 lower-case hexadecimal
/// digits.
pub uninterp spec fn md5_hex(text: Seq<char>) -> Seq<char>;

/// `md5::compute` on the bytes of the text, the digest written with `{:x}`.
/// The digest depends on the text alone; the contract gives it the name
/// [`md5_hex`].
#[verifier::external_body]
fn md5_digest(text: &str) -> (hex: String)
    ensures
        hex@ == md5_hex(text@),
{
    format!("{:x}", md5::compute(text))
}

/// The form in which the console wants a password: its MD5 digest in
/// hexadecimal.
pub fn hashed_password(password: &str) -> (hex: String)
    ensures
        hex@ == md5_hex(password@),
{
    md5_digest(password)
}

} // verus!
