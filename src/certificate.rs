use vstd::prelude::*;

verus! {

/// Seconds in one day.
pub const SECONDS_PER_DAY: i64 = 86400;

/// The part of a live certificate that the renewal decision reads: the
/// instant after which it is no longer valid, in seconds since the Unix
/// epoch, when the peer presented a certificate at all.
pub struct Certificate {
    pub not_after: Option<i64>,
}

/// Whether a certificate that ends at `not_after` ends before `days` days
/// from `now`.
pub open spec fn expires_within(not_after: int, days: int, now: int) -> bool {
    not_after < now + days * SECONDS_PER_DAY
}

impl Certificate {
    pub fn new(not_after: Option<i64>) -> (r: Certificate)
        ensures
            r.not_after == not_after,
    {
        Certificate { not_after }
    }

    /// Whether the certificate ends before `days` days from `now` (seconds
    /// since the Unix epoch). Without a peer certificate there is no expiry
    /// to compare, and the check fails instead of answering.
    pub fn expires_in_days(&self, days: u32, now: i64) -> (r: Result<bool, ExpiryError>)
        ensures
            r == match self.not_after {
                Some(t) => Ok(expires_within(t as int, days as int, now as int)),
                None => Err(ExpiryError::NoPeerCertificate),
            },
    {
        match self.not_after {
            Some(t) => {
                let horizon: i128 = now as i128 + (days as i128) * 86400;
                Ok((t as i128) < horizon)
            },
            None => Err(ExpiryError::NoPeerCertificate),
        }
    }
}

/// Why the expiry of the live certificate could not be checked.
#[derive(Clone, Copy, Debug, PartialEq, Eq, Structural)]
pub enum ExpiryError {
    /// The peer presented no certificate.
    NoPeerCertificate,
}

/// Whether a renewal run should go ahead: a renewal is due when the live
/// certificate expires within `days` days of `now`, and also whenever its
/// expiry could not be checked: no certificate could be fetched (`None`), or
/// the peer presented none. A failed check does not hold a renewal back.
pub fn renewal_needed(probe: &Option<Certificate>, days: u32, now: i64) -> (r: bool)
    ensures
        r == match probe {
            Some(c) => match c.not_after {
                Some(t) => expires_within(t as int, days as int, now as int),
                None => true,
            },
            None => true,
        },
{
    match probe {
        Some(c) => match c.expires_in_days(days, now) {
            Ok(due) => due,
            Err(_) => true,
        },
        None => true,
    }
}

} // verus!
