use vstd::prelude::*;

verus! {

/// What a run is about: the domain to certify, where to probe the live
/// certificate, where to write the new one, and how early to renew.
#[derive(Debug)]
pub struct CommonSettings {
    pub account_path: String,
    pub certificate_name: String,
    pub domain: String,
    pub check_domain: String,
    pub output_path: String,
    pub renewal_days: u32,
}

/// The account at the certificate authority, where its credential is kept,
/// and how many polls the wait for a ready order may make.
#[derive(Debug)]
pub struct AcmeSettings {
    pub account_id: String,
    pub key_path: String,
    pub max_polls: u32,
}

/// How to reach the DNS provider's API.
#[derive(Debug)]
pub struct PleskSettings {
    pub password: String,
    pub site_id: String,
    pub url: String,
    pub username: String,
}

/// The whole configuration of a run.
#[derive(Debug)]
pub struct Settings {
    pub acme: AcmeSettings,
    pub common: CommonSettings,
    pub plesk: PleskSettings,
}

impl Settings {
    /// The DNS provider's client described by these settings.
    pub fn plesk_api(&self) -> (r: crate::plesk_api::PleskAPI)
        ensures
            r.url == self.plesk.url,
            r.site_id == self.plesk.site_id,
            r.username == self.plesk.username,
            r.password == self.plesk.password,
    {
        crate::plesk_api::PleskAPI::new(
            self.plesk.url.clone(),
            self.plesk.site_id.clone(),
            self.plesk.username.clone(),
            self.plesk.password.clone(),
        )
    }
}

} // verus!
