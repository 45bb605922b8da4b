//! Renewal of a wildcard TLS certificate through the ACME DNS-01 challenge.
//!
//! The library holds the decisions: when a renewal is due, which challenge
//! of an order is answered, how long to wait between polls of an order, what
//! is sent to and read back from the DNS provider, how the account
//! credential is stored, and the state machine that drives one order while
//! keeping at most one TXT record alive. The network, the disk and the clock
//! stay with the caller.

pub mod acme;
pub mod certificate;
pub mod credentials;
pub mod orchestrator;
pub mod plesk_api;
pub mod settings;

pub use acme::{
    Acme, AuthorizationInfo, AuthorizationStatus, Backoff, ChallengeError, ChallengeType, WaitStep,
    ACME_SUBDOMAIN, CERTIFICATE_POLL_SECS, MAX_POLLS,
};
pub use certificate::{renewal_needed, Certificate, ExpiryError, SECONDS_PER_DAY};
pub use credentials::{read_credentials, write_credentials, CredentialsError};
pub use orchestrator::{Action, App, Event, OrderStatus, Outcome, Phase, RunError, RECHECK_SECS};
pub use plesk_api::{
    PleskAPI, PleskDNSResponse, PleskDNSResponseAction, PleskDNSResponseData,
    PleskDNSResponseResult, PleskError,
};
pub use settings::{AcmeSettings, CommonSettings, PleskSettings, Settings};
