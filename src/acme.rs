use vstd::prelude::*;
use vstd::string::*;

use crate::orchestrator::OrderStatus;

verus! {

/// The label under which the DNS-01 TXT record is published.
pub const ACME_SUBDOMAIN: &'static str = "_acme-challenge";

/// Seconds between two looks for the signed certificate after finalizing.
pub const CERTIFICATE_POLL_SECS: u64 = 5;

/// The wait before the first poll of an order, in seconds.
pub const INITIAL_DELAY_SECS: u64 = 5;

/// From this many polls on, a poll that finds the order not ready is
/// reported at elevated severity.
pub const ELEVATED_AFTER_POLLS: u32 = 9;

/// The largest poll budget whose delays all fit in a `u64`.
pub const MAX_POLLS: u32 = 61;

/// The status of an authorization of an order.
#[derive(Clone, Copy, Debug, PartialEq, Eq, Structural)]
pub enum AuthorizationStatus {
    Pending,
    Valid,
    Invalid,
    Expired,
    Deactivated,
    Revoked,
}

/// The kinds of challenge an authorization may offer.
#[derive(Clone, Copy, Debug, PartialEq, Eq, Structural)]
pub enum ChallengeType {
    Http01,
    Dns01,
    TlsAlpn01,
}

/// What the challenge choice reads from an authorization: its status and
/// the kinds of its challenges, in the authority's order.
pub struct AuthorizationInfo {
    pub status: AuthorizationStatus,
    pub challenges: Vec<ChallengeType>,
}

/// Why no challenge could be chosen.
#[derive(Clone, Copy, Debug, PartialEq, Eq, Structural)]
pub enum ChallengeError {
    /// The first authorization that is not yet valid is in this state,
    /// which the renewal does not handle.
    UnexpectedAuthorization(AuthorizationStatus),
    /// The first pending authorization offers no DNS-01 challenge.
    NoDns01Challenge,
    /// Every authorization is already valid.
    NotFound,
}

/// The domain whose wildcard certificate a run orders.
pub struct Acme {
    pub domain: String,
}

/// Every authorization before position `i` is already valid.
pub open spec fn valid_before(auths: Seq<AuthorizationInfo>, i: int) -> bool {
    forall|k: int| 0 <= k < i ==> #[trigger] auths[k].status == AuthorizationStatus::Valid
}

/// Position `j` holds the first DNS-01 challenge of `kinds`.
pub open spec fn first_dns01(kinds: Seq<ChallengeType>, j: int) -> bool {
    &&& 0 <= j < kinds.len()
    &&& kinds[j] == ChallengeType::Dns01
    &&& forall|k: int| 0 <= k < j ==> #[trigger] kinds[k] != ChallengeType::Dns01
}

/// Position `i` holds the first authorization that is not yet valid.
pub open spec fn first_unsettled(auths: Seq<AuthorizationInfo>, i: int) -> bool {
    &&& 0 <= i < auths.len()
    &&& valid_before(auths, i)
    &&& auths[i].status != AuthorizationStatus::Valid
}

/// The challenge chosen from `auths`: the first DNS-01 challenge of the
/// first authorization that is not yet valid, when that one is pending.
pub open spec fn challenge_choice(auths: Seq<AuthorizationInfo>, r: Result<(usize, usize), ChallengeError>) -> bool {
    match r {
        Ok((i, j)) => first_unsettled(auths, i as int)
            && auths[i as int].status == AuthorizationStatus::Pending
            && first_dns01(auths[i as int].challenges@, j as int),
        Err(ChallengeError::UnexpectedAuthorization(st)) => exists|i: int| #[trigger] first_unsettled(auths, i)
            && auths[i].status != AuthorizationStatus::Pending && st == auths[i].status,
        Err(ChallengeError::NoDns01Challenge) => exists|i: int| #[trigger] first_unsettled(auths, i)
            && auths[i].status == AuthorizationStatus::Pending
            && !auths[i].challenges@.contains(ChallengeType::Dns01),
        Err(ChallengeError::NotFound) => valid_before(auths, auths.len() as int),
    }
}

/// The wait before poll `n` of an order, in seconds: five seconds, doubled
/// after every poll.
pub open spec fn delay_at(n: nat) -> int
    decreases n,
{
    if n == 0 {
        INITIAL_DELAY_SECS as int
    } else {
        2 * delay_at((n - 1) as nat)
    }
}

/// The waits between polls follow `delay_at`: they start at five seconds,
/// each is twice the one before, and so they never shrink.
pub proof fn lemma_delays_double(m: nat, n: nat)
    requires
        m <= n,
    ensures
        delay_at(0) == 5,
        delay_at(n + 1) == 2 * delay_at(n),
        delay_at(m) <= delay_at(n),
        delay_at(n) > 0,
    decreases n,
{
    if n > 0 {
        lemma_delays_double(if m == n { (n - 1) as nat } else { m }, (n - 1) as nat);
    }
}

proof fn lemma_delay_fits_below(n: nat)
    requires
        n < MAX_POLLS,
    ensures
        delay_at(n) <= 5 * 0x1000_0000_0000_0000,
{
    lemma_delay_exact(n);
    if n < 60 {
        vstd::arithmetic::power2::lemma_pow2_strictly_increases(n, 60);
    }
    vstd::arithmetic::power2::lemma2_to64_rest();
}

proof fn lemma_delay_exact(n: nat)
    ensures
        delay_at(n) == 5 * vstd::arithmetic::power2::pow2(n),
    decreases n,
{
    if n > 0 {
        lemma_delay_exact((n - 1) as nat);
        vstd::arithmetic::power2::lemma_pow2_unfold(n);
    } else {
        vstd::arithmetic::power2::lemma2_to64();
    }
}

/// The result of one poll of an order that waits to become ready.
#[derive(Clone, Copy, Debug, PartialEq, Eq, Structural)]
pub enum WaitStep {
    /// The order is ready: the wait is over.
    Ready,
    /// The order is invalid and will not become ready: the wait is over.
    Invalid,
    /// Wait `delay_secs` seconds and poll again; `elevated` asks for the
    /// poll to be reported at elevated severity.
    Retry { delay_secs: u64, elevated: bool },
    /// The poll budget is spent.
    GaveUp,
}

/// The wait for an order to become ready: how many polls were made, and
/// the delay before the next one.
pub struct Backoff {
    pub polls: u32,
    pub delay_secs: u64,
    pub max_polls: u32,
}

impl Backoff {
    pub open spec fn wf(&self) -> bool {
        &&& self.max_polls <= MAX_POLLS
        &&& self.polls < self.max_polls || (self.polls == 0 && self.max_polls == 0)
        &&& self.delay_secs == delay_at(self.polls as nat)
    }

    /// A wait that allows up to `max_polls` polls. An invalid order ends the
    /// wait at once rather than being polled until the budget is spent.
    pub fn new(max_polls: u32) -> (r: Backoff)
        requires
            max_polls <= MAX_POLLS,
        ensures
            r.wf(),
            r.polls == 0,
            r.delay_secs == INITIAL_DELAY_SECS,
            r.max_polls == max_polls,
    {
        Backoff { polls: 0, delay_secs: INITIAL_DELAY_SECS, max_polls }
    }

    /// Takes the status found by the latest poll and says what to do next.
    pub fn observe(&mut self, status: OrderStatus) -> (r: WaitStep)
        requires
            old(self).wf(),
        ensures
            final(self).wf(),
            final(self).max_polls == old(self).max_polls,
            status == OrderStatus::Ready ==> r == WaitStep::Ready && *final(self) == *old(self),
            status == OrderStatus::Invalid ==> r == WaitStep::Invalid && *final(self) == *old(self),
            status != OrderStatus::Ready && status != OrderStatus::Invalid ==> {
                if old(self).polls + 1 >= old(self).max_polls {
                    r == WaitStep::GaveUp && *final(self) == *old(self)
                } else {
                    &&& final(self).polls == old(self).polls + 1
                    &&& final(self).delay_secs == 2 * old(self).delay_secs
                    &&& r == (WaitStep::Retry {
                        delay_secs: final(self).delay_secs,
                        elevated: final(self).polls >= ELEVATED_AFTER_POLLS,
                    })
                }
            },
    {
        match status {
            OrderStatus::Ready => WaitStep::Ready,
            OrderStatus::Invalid => WaitStep::Invalid,
            _ => {
                if self.polls + 1 >= self.max_polls {
                    WaitStep::GaveUp
                } else {
                    proof {
                        lemma_delay_fits_below(self.polls as nat);
                        assert(delay_at((self.polls + 1) as nat) == 2 * delay_at(self.polls as nat));
                    }
                    self.polls = self.polls + 1;
                    self.delay_secs = self.delay_secs * 2;
                    WaitStep::Retry {
                        delay_secs: self.delay_secs,
                        elevated: self.polls >= ELEVATED_AFTER_POLLS,
                    }
                }
            },
        }
    }
}

/// `dir` joined with the relative file name `name`, with one separator.
pub open spec fn join_path(dir: Seq<char>, name: Seq<char>) -> Seq<char> {
    if dir.len() == 0 || dir.last() == '/' {
        dir + name
    } else {
        dir + seq!['/'] + name
    }
}

/// The name of the certificate-chain file for `domain`.
pub open spec fn cert_file_name(domain: Seq<char>) -> Seq<char> {
    "wildcard."@ + domain + ".cert.pem"@
}

/// The name of the private-key file for `domain`.
pub open spec fn key_file_name(domain: Seq<char>) -> Seq<char> {
    "wildcard."@ + domain + ".privkey.pem"@
}

fn join(dir: &str, name: String) -> (r: String)
    ensures
        r@ == join_path(dir@, name@),
{
    let n = dir.unicode_len();
    let mut r = String::from_str(dir);
    if n > 0 && dir.get_char(n - 1) != '/' {
        r.append("/");
        proof {
            reveal_strlit("/");
        }
    }
    r.append(name.as_str());
    r
}

fn file_name(domain: &str, suffix: &str) -> (r: String)
    ensures
        r@ == "wildcard."@ + domain@ + suffix@,
{
    let mut r = String::from_str("wildcard.");
    r.append(domain);
    r.append(suffix);
    r
}

impl Acme {
    pub fn new(domain: String) -> (r: Acme)
        ensures
            r.domain == domain,
    {
        Acme { domain }
    }

    /// The name that is ordered: the wildcard over the domain.
    pub fn get_domain(&self) -> (r: String)
        ensures
            r@ == "*."@ + self.domain@,
    {
        let mut r = String::from_str("*.");
        r.append(self.domain.as_str());
        r
    }

    /// Where the certificate chain is written inside `output_dir`.
    pub fn certificate_path(&self, output_dir: &str) -> (r: String)
        ensures
            r@ == join_path(output_dir@, cert_file_name(self.domain@)),
    {
        join(output_dir, file_name(self.domain.as_str(), ".cert.pem"))
    }

    /// Where the private key is written inside `output_dir`.
    pub fn private_key_path(&self, output_dir: &str) -> (r: String)
        ensures
            r@ == join_path(output_dir@, key_file_name(self.domain@)),
    {
        join(output_dir, file_name(self.domain.as_str(), ".privkey.pem"))
    }

    /// Chooses the challenge to answer: authorizations that are already
    /// valid are passed over; the first other one must be pending, and its
    /// first DNS-01 challenge is chosen, as (authorization, challenge)
    /// positions.
    pub fn get_challenge(auths: &Vec<AuthorizationInfo>) -> (r: Result<(usize, usize), ChallengeError>)
        ensures
            challenge_choice(auths@, r),
    {
        let mut i: usize = 0;
        while i < auths.len()
            invariant
                i <= auths@.len(),
                valid_before(auths@, i as int),
            decreases auths@.len() - i,
        {
            let auth = &auths[i];
            match auth.status {
                AuthorizationStatus::Valid => {},
                AuthorizationStatus::Pending => {
                    let mut j: usize = 0;
                    while j < auth.challenges.len()
                        invariant
                            i < auths@.len(),
                            valid_before(auths@, i as int),
                            *auth == auths@[i as int],
                            auth.status == AuthorizationStatus::Pending,
                            j <= auth.challenges@.len(),
                            forall|k: int| 0 <= k < j ==> #[trigger] auth.challenges@[k] != ChallengeType::Dns01,
                        decreases auth.challenges@.len() - j,
                    {
                        if auth.challenges[j] == ChallengeType::Dns01 {
                            assert(first_unsettled(auths@, i as int));
                            assert(first_dns01(auths@[i as int].challenges@, j as int));
                            return Ok((i, j));
                        }
                        j += 1;
                    }
                    assert(first_unsettled(auths@, i as int));
                    assert(!auth.challenges@.contains(ChallengeType::Dns01));
                    return Err(ChallengeError::NoDns01Challenge);
                },
                st => {
                    assert(first_unsettled(auths@, i as int));
                    return Err(ChallengeError::UnexpectedAuthorization(st));
                },
            }
            i += 1;
        }
        Err(ChallengeError::NotFound)
    }
}

} // verus!
