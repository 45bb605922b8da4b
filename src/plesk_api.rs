use vstd::prelude::*;
use vstd::string::*;

use crate::acme::ACME_SUBDOMAIN;

verus! {

/// The path of the provider's XML API below its base URL.
pub const PLESK_API_PATH: &'static str = "/enterprise/control/agent.php";

/// Where and as whom to reach the DNS provider's API.
pub struct PleskAPI {
    pub url: String,
    pub site_id: String,
    pub username: String,
    pub password: String,
}

/// A decoded reply of the provider to a DNS request.
#[derive(Debug)]
pub struct PleskDNSResponse {
    pub dns: PleskDNSResponseAction,
}

/// The reply to an add or to a removal of a record; only the one that was
/// asked for is present in a well-formed reply.
#[derive(Debug)]
pub struct PleskDNSResponseAction {
    pub add_rec: Option<PleskDNSResponseResult>,
    pub del_rec: Option<PleskDNSResponseResult>,
}

#[derive(Debug)]
pub struct PleskDNSResponseResult {
    pub result: PleskDNSResponseData,
}

/// The result of one DNS request: `status` is `ok` or `error`; an error
/// carries its text, a successful add the record's identifier.
#[derive(Debug)]
pub struct PleskDNSResponseData {
    pub status: String,
    pub errcode: Option<String>,
    pub errtext: Option<String>,
    pub id: Option<String>,
}

/// Why a DNS request failed.
#[derive(Debug)]
pub enum PleskError {
    /// The provider reported an error, with its text.
    Provider(String),
    /// The reply could not be decoded, with the decoder's reason.
    Decode(String),
    /// The reply decoded but held no result for the request; the raw reply.
    Unrecognized(String),
    /// The result lacks a field that its status calls for.
    MissingField,
    /// The request did not reach the provider, with the reason.
    Transport(String),
}

/// The result reports an error.
pub open spec fn is_error_status(d: PleskDNSResponseData) -> bool {
    d.status@ == "error"@
}

/// The reply holds a result, and it is not an error.
pub open spec fn reply_succeeds(rec: Option<PleskDNSResponseResult>) -> bool {
    match rec {
        Some(x) => !is_error_status(x.result),
        None => false,
    }
}

/// The identifier that a successful add reports.
pub open spec fn reply_id(rec: Option<PleskDNSResponseResult>) -> Option<String> {
    match rec {
        Some(x) => x.result.id,
        None => None,
    }
}

/// The failure `e` is what the reply `rec` (raw text `text`) stands for,
/// when it does not succeed.
pub open spec fn reply_failure(rec: Option<PleskDNSResponseResult>, text: Seq<char>, e: PleskError) -> bool {
    match rec {
        Some(x) => is_error_status(x.result) && match e {
            PleskError::Provider(t) => x.result.errtext == Some(t),
            PleskError::MissingField => x.result.errtext is None,
            _ => false,
        },
        None => match e {
            PleskError::Unrecognized(t) => t@ == text,
            _ => false,
        },
    }
}

/// The message that the provider's error text is reported with.
pub open spec fn provider_message(text: Seq<char>) -> Seq<char> {
    "Plesk API error: "@ + text
}

/// The request body that adds the TXT record `value` to site `site_id`.
pub open spec fn add_request_body(site_id: Seq<char>, value: Seq<char>) -> Seq<char> {
    "<packet><dns><add_rec><site-id>"@ + site_id + "</site-id><type>TXT</type><host>"@
        + ACME_SUBDOMAIN@ + "</host><value>"@ + value + "</value></add_rec></dns></packet>"@
}

/// The request body that deletes the record with identifier `id`.
pub open spec fn remove_request_body(id: Seq<char>) -> Seq<char> {
    "<packet><dns><del_rec><filter><id>"@ + id + "</id></filter></del_rec></dns></packet>"@
}

fn copy_opt(s: &Option<String>) -> (r: Option<String>)
    ensures
        r == *s,
{
    match s {
        Some(x) => Some(x.clone()),
        None => None,
    }
}

/// Reads the result of a reply: `Ok(())` when it is not an error, else the
/// failure it stands for.
fn read_reply(rec: &Option<PleskDNSResponseResult>, response_text: &str) -> (r: Result<(), PleskError>)
    ensures
        match r {
            Ok(()) => reply_succeeds(*rec),
            Err(e) => reply_failure(*rec, response_text@, e),
        },
{
    match rec {
        Some(x) => {
            if x.result.status == String::from_str("error") {
                match &x.result.errtext {
                    Some(t) => Err(PleskError::Provider(t.clone())),
                    None => Err(PleskError::MissingField),
                }
            } else {
                Ok(())
            }
        },
        None => Err(PleskError::Unrecognized(String::from_str(response_text))),
    }
}

impl PleskError {
    /// The error as one line of text; the provider's own text is kept
    /// verbatim.
    pub fn message(&self) -> (r: String)
        ensures
            self is Provider ==> r@ == provider_message(self->Provider_0@),
            self is Decode ==> r@ == self->Decode_0@,
            self is Transport ==> r@ == self->Transport_0@,
            self is Unrecognized ==> r@ == "Response could not be parsed: "@ + self->Unrecognized_0@,
            self is MissingField ==> r@ == "Response lacks a required field"@,
    {
        match self {
            PleskError::Provider(t) => String::from_str("Plesk API error: ").concat(t.as_str()),
            PleskError::Decode(m) => m.clone(),
            PleskError::Unrecognized(t) => String::from_str("Response could not be parsed: ").concat(t.as_str()),
            PleskError::MissingField => String::from_str("Response lacks a required field"),
            PleskError::Transport(m) => m.clone(),
        }
    }
}

impl PleskAPI {
    pub fn new(url: String, site_id: String, username: String, password: String) -> (r: PleskAPI)
        ensures
            r.url == url,
            r.site_id == site_id,
            r.username == username,
            r.password == password,
    {
        PleskAPI { url, site_id, username, password }
    }

    /// The endpoint that every request is posted to.
    pub fn get_api_url(&self) -> (r: String)
        ensures
            r@ == self.url@ + PLESK_API_PATH@,
    {
        let mut r = self.url.clone();
        r.append(PLESK_API_PATH);
        r
    }

    /// The body of the request that publishes `challenge_string` as the
    /// TXT record of the challenge label.
    pub fn add_challenge_request(&self, challenge_string: &str) -> (r: String)
        ensures
            r@ == add_request_body(self.site_id@, challenge_string@),
    {
        let mut r = String::from_str("<packet><dns><add_rec><site-id>");
        r.append(self.site_id.as_str());
        r.append("</site-id><type>TXT</type><host>");
        r.append(ACME_SUBDOMAIN);
        r.append("</host><value>");
        r.append(challenge_string);
        r.append("</value></add_rec></dns></packet>");
        r
    }

    /// The body of the request that deletes the record `record_id`.
    pub fn remove_challenge_request(record_id: &str) -> (r: String)
        ensures
            r@ == remove_request_body(record_id@),
    {
        let mut r = String::from_str("<packet><dns><del_rec><filter><id>");
        r.append(record_id);
        r.append("</id></filter></del_rec></dns></packet>");
        r
    }

    /// What a decoded reply to an add means: the new record's identifier,
    /// unchanged, or the failure it reports. `response_text` is the raw
    /// reply, kept for a reply that holds no add result.
    pub fn add_challenge_result(response: &PleskDNSResponse, response_text: &str) -> (r: Result<String, PleskError>)
        ensures
            match r {
                Ok(id) => reply_succeeds(response.dns.add_rec) && reply_id(response.dns.add_rec) == Some(id),
                Err(PleskError::MissingField) =>
                    reply_failure(response.dns.add_rec, response_text@, PleskError::MissingField)
                    || (reply_succeeds(response.dns.add_rec) && reply_id(response.dns.add_rec) is None),
                Err(e) => reply_failure(response.dns.add_rec, response_text@, e),
            },
    {
        match read_reply(&response.dns.add_rec, response_text) {
            Ok(()) => match &response.dns.add_rec {
                Some(x) => match copy_opt(&x.result.id) {
                    Some(id) => Ok(id),
                    None => Err(PleskError::MissingField),
                },
                None => Err(PleskError::MissingField),
            },
            Err(e) => Err(e),
        }
    }

    /// What a decoded reply to a removal means: success, or the failure it
    /// reports.
    pub fn remove_challenge_result(response: &PleskDNSResponse, response_text: &str) -> (r: Result<(), PleskError>)
        ensures
            match r {
                Ok(()) => reply_succeeds(response.dns.del_rec),
                Err(e) => reply_failure(response.dns.del_rec, response_text@, e),
            },
    {
        read_reply(&response.dns.del_rec, response_text)
    }
}

} // verus!
