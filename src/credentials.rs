use vstd::prelude::*;

use instant_acme::AccountCredentials;

verus! {

#[verifier::external_type_specification]
#[verifier::external_body]
pub struct ExAccountCredentials(AccountCredentials);

#[verifier::external_type_specification]
#[verifier::external_body]
pub struct ExJsonError(serde_json::Error);

/// Whether `text` is a JSON document that decodes as a stored account
/// credential.
pub uninterp spec fn credentials_decode(text: Seq<char>) -> bool;

/// Relies on `serde_json::from_str` for `AccountCredentials`: whether the
/// text decodes depends on the text alone.
#[verifier::external_body]
fn decode_credentials(text: &str) -> (r: Result<AccountCredentials, serde_json::Error>)
    ensures
        r is Ok <==> credentials_decode(text@),
{
    serde_json::from_str(text)
}

/// Relies on `serde_json::to_string` for `AccountCredentials`: the type's
/// derived `Serialize` has no map and raises no error of its own, so the
/// call succeeds, and its derived `Deserialize` reads the text back (the key
/// is written and read as base64 with the same engine).
#[verifier::external_body]
fn encode_credentials(c: &AccountCredentials) -> (r: Result<String, serde_json::Error>)
    ensures
        r is Ok,
        r is Ok ==> credentials_decode(r->Ok_0@),
{
    serde_json::to_string(c)
}

/// Why a stored account credential could not be read.
#[derive(Debug)]
pub enum CredentialsError {
    /// The stored text is not a credential.
    Malformed(serde_json::Error),
}

/// The account credential stored as `text`, if it decodes as one.
pub fn read_credentials(text: &str) -> (r: Result<AccountCredentials, CredentialsError>)
    ensures
        r is Ok <==> credentials_decode(text@),
        r is Err ==> r->Err_0 is Malformed,
{
    match decode_credentials(text) {
        Ok(c) => Ok(c),
        Err(e) => Err(CredentialsError::Malformed(e)),
    }
}

/// The text under which the credential `c` is stored; `read_credentials`
/// accepts it again.
pub fn write_credentials(c: &AccountCredentials) -> (r: String)
    ensures
        credentials_decode(r@),
{
    match encode_credentials(c) {
        Ok(t) => t,
        Err(_) => {
            assert(false);
            String::new()
        },
    }
}

} // verus!
