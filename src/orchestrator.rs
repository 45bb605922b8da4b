use vstd::prelude::*;

verus! {

/// How long to wait, in seconds, before looking at an order again while it
/// is pending with a record already published, or while the authority is
/// still processing it.
pub const RECHECK_SECS: u64 = 2;

/// The status of an order as the certificate authority reports it.
#[derive(Clone, Copy, Debug, PartialEq, Eq, Structural)]
pub enum OrderStatus {
    Pending,
    Ready,
    Processing,
    Valid,
    Invalid,
}

/// Why a run failed.
#[derive(Debug)]
pub enum RunError {
    /// Neither loading nor creating an account worked.
    AccountCreation(String),
    /// The certificate authority failed a request, with its reason.
    Authority(String),
    /// The DNS provider refused to add the record, with its reason.
    DnsProvider(String),
    /// The authority declared the order invalid.
    OrderInvalid,
    /// An event arrived that the current phase does not wait for.
    UnexpectedEvent,
}

/// How a run ended.
#[derive(Debug)]
pub enum Outcome {
    Success,
    Failure(RunError),
}

/// Where a run stands: each phase but the last two waits for the result of
/// the action that led into it.
#[derive(Debug)]
pub enum Phase {
    LoadingAccount,
    CreatingAccount,
    FetchingOrder,
    ComputingValue,
    AddingRecord,
    AwaitingReady,
    Finalizing,
    Sleeping,
    CleaningUp(Outcome),
    Finished(Outcome),
}

/// What the caller reports back after performing an action.
#[derive(Debug)]
pub enum Event {
    /// The action succeeded and has nothing to report.
    Done,
    /// The action failed, with the reason.
    Failed(String),
    /// The order was fetched and has this status.
    Order(OrderStatus),
    /// The TXT value for the DNS-01 challenge was computed.
    DnsValue(String),
    /// The DNS provider added the record under this identifier.
    RecordId(String),
}

/// What the caller is asked to do next.
#[derive(Debug)]
pub enum Action {
    /// Read the stored account credential and log in with it.
    LoadAccount,
    /// Create a new account and store its credential.
    CreateAccount,
    /// Open (or reopen) the order and report its status.
    FetchOrder,
    /// Find the DNS-01 challenge and compute its TXT value.
    ComputeDnsValue,
    /// Publish a TXT record with this value under the challenge label.
    AddRecord(String),
    /// Tell the authority the challenge is in place, and wait until the
    /// order is ready.
    SignalReadyAndWait,
    /// Finalize the order, download the certificate and write it out.
    Finalize,
    /// Wait this many seconds.
    Sleep(u64),
    /// Remove the record with this identifier, if there is one. A failure
    /// here does not change how the run ends.
    RemoveRecord(Option<String>),
    /// The run is over.
    Finish(Outcome),
}

/// One run of the order: its phase and the identifier of the TXT record
/// that is currently published, if any.
pub struct App {
    pub phase: Phase,
    pub record: Option<String>,
}

impl Action {
    pub open spec fn is_add(&self) -> bool {
        self is AddRecord
    }

    pub open spec fn is_remove(&self) -> bool {
        self is RemoveRecord
    }

    pub open spec fn is_create(&self) -> bool {
        self is CreateAccount
    }
}

impl App {
    /// A removal has already been issued: the run is cleaning up or over.
    pub open spec fn removal_issued(&self) -> bool {
        self.phase is CleaningUp || self.phase is Finished
    }

    /// The run may still publish a record: none is published, none is
    /// being added, and the run is not ending.
    pub open spec fn may_add(&self) -> bool {
        self.record is None && !(self.phase is AddingRecord) && !self.removal_issued()
    }

    /// The states a run can reach: no record is held while a record is being
    /// provisioned or after the removal was issued.
    pub open spec fn wf(&self) -> bool {
        &&& (self.phase is ComputingValue || self.phase is AddingRecord) ==> self.record is None
        &&& self.removal_issued() ==> self.record is None
    }
}

/// The step into clean-up: the outstanding record, if any, is handed to a
/// removal and forgotten.
pub open spec fn clean_up(s: App, outcome: Outcome) -> (App, Action) {
    (App { phase: Phase::CleaningUp(outcome), record: None }, Action::RemoveRecord(s.record))
}

/// The state machine of one run: the next state and action after `e`
/// arrives in state `s`.
pub open spec fn step_spec(s: App, e: Event) -> (App, Action) {
    let unexpected = clean_up(s, Outcome::Failure(RunError::UnexpectedEvent));
    match s.phase {
        Phase::LoadingAccount => match e {
            Event::Done => (App { phase: Phase::FetchingOrder, ..s }, Action::FetchOrder),
            Event::Failed(_) => (App { phase: Phase::CreatingAccount, ..s }, Action::CreateAccount),
            _ => unexpected,
        },
        Phase::CreatingAccount => match e {
            Event::Done => (App { phase: Phase::FetchingOrder, ..s }, Action::FetchOrder),
            Event::Failed(m) => clean_up(s, Outcome::Failure(RunError::AccountCreation(m))),
            _ => unexpected,
        },
        Phase::FetchingOrder => match e {
            Event::Order(OrderStatus::Pending) => if s.record is None {
                (App { phase: Phase::ComputingValue, ..s }, Action::ComputeDnsValue)
            } else {
                (App { phase: Phase::Sleeping, ..s }, Action::Sleep(RECHECK_SECS))
            },
            Event::Order(OrderStatus::Ready) => (App { phase: Phase::Finalizing, ..s }, Action::Finalize),
            Event::Order(OrderStatus::Valid) => clean_up(s, Outcome::Success),
            Event::Order(OrderStatus::Invalid) => clean_up(s, Outcome::Failure(RunError::OrderInvalid)),
            Event::Order(OrderStatus::Processing) => (App { phase: Phase::Sleeping, ..s }, Action::Sleep(RECHECK_SECS)),
            Event::Failed(m) => clean_up(s, Outcome::Failure(RunError::Authority(m))),
            _ => unexpected,
        },
        Phase::ComputingValue => match e {
            Event::DnsValue(v) => (App { phase: Phase::AddingRecord, ..s }, Action::AddRecord(v)),
            Event::Failed(m) => clean_up(s, Outcome::Failure(RunError::Authority(m))),
            _ => unexpected,
        },
        Phase::AddingRecord => match e {
            Event::RecordId(id) => (App { phase: Phase::AwaitingReady, record: Some(id) }, Action::SignalReadyAndWait),
            Event::Failed(m) => clean_up(s, Outcome::Failure(RunError::DnsProvider(m))),
            _ => unexpected,
        },
        Phase::AwaitingReady => match e {
            Event::Done => (App { phase: Phase::FetchingOrder, ..s }, Action::FetchOrder),
            Event::Failed(m) => clean_up(s, Outcome::Failure(RunError::Authority(m))),
            _ => unexpected,
        },
        Phase::Finalizing => match e {
            Event::Done => clean_up(s, Outcome::Success),
            Event::Failed(m) => clean_up(s, Outcome::Failure(RunError::Authority(m))),
            _ => unexpected,
        },
        Phase::Sleeping => match e {
            Event::Done => (App { phase: Phase::FetchingOrder, ..s }, Action::FetchOrder),
            _ => unexpected,
        },
        Phase::CleaningUp(o) | Phase::Finished(o) => (App { phase: Phase::Finished(o), record: None }, Action::Finish(o)),
    }
}

/// The state after the machine has consumed `events` from `s`.
pub open spec fn run_state(s: App, events: Seq<Event>) -> App
    decreases events.len(),
{
    if events.len() == 0 {
        s
    } else {
        run_state(step_spec(s, events[0]).0, events.drop_first())
    }
}

/// How many records the machine asks to add while it consumes `events` from `s`.
pub open spec fn adds_in_run(s: App, events: Seq<Event>) -> nat
    decreases events.len(),
{
    if events.len() == 0 {
        0
    } else {
        let (n, a) = step_spec(s, events[0]);
        (if a.is_add() { 1nat } else { 0nat }) + adds_in_run(n, events.drop_first())
    }
}

/// How many removals the machine asks for while it consumes `events` from `s`.
pub open spec fn removes_in_run(s: App, events: Seq<Event>) -> nat
    decreases events.len(),
{
    if events.len() == 0 {
        0
    } else {
        let (n, a) = step_spec(s, events[0]);
        (if a.is_remove() { 1nat } else { 0nat }) + removes_in_run(n, events.drop_first())
    }
}

/// How many account creations the machine asks for while it consumes
/// `events` from `s`.
pub open spec fn creates_in_run(s: App, events: Seq<Event>) -> nat
    decreases events.len(),
{
    if events.len() == 0 {
        0
    } else {
        let (n, a) = step_spec(s, events[0]);
        (if a.is_create() { 1nat } else { 0nat }) + creates_in_run(n, events.drop_first())
    }
}

/// The first state of every run.
pub open spec fn initial() -> App {
    App { phase: Phase::LoadingAccount, record: None }
}

proof fn lemma_step_wf(s: App, e: Event)
    requires
        s.wf(),
    ensures
        step_spec(s, e).0.wf(),
        step_spec(s, e).1.is_add() ==> s.may_add() && !step_spec(s, e).0.may_add(),
        !step_spec(s, e).1.is_add() && !s.may_add() ==> !step_spec(s, e).0.may_add(),
        step_spec(s, e).1.is_remove() <==> (!s.removal_issued() && step_spec(s, e).0.removal_issued()),
        s.removal_issued() ==> step_spec(s, e).0.removal_issued(),
{
}

proof fn lemma_adds_bounded(s: App, events: Seq<Event>)
    requires
        s.wf(),
    ensures
        adds_in_run(s, events) <= (if s.may_add() { 1nat } else { 0nat }),
    decreases events.len(),
{
    if events.len() > 0 {
        lemma_step_wf(s, events[0]);
        lemma_adds_bounded(step_spec(s, events[0]).0, events.drop_first());
    }
}

proof fn lemma_removes_counted(s: App, events: Seq<Event>)
    requires
        s.wf(),
    ensures
        removes_in_run(s, events) + (if s.removal_issued() { 1int } else { 0int })
            == (if run_state(s, events).removal_issued() { 1int } else { 0int }),
    decreases events.len(),
{
    if events.len() > 0 {
        lemma_step_wf(s, events[0]);
        lemma_removes_counted(step_spec(s, events[0]).0, events.drop_first());
    }
}

/// A run never publishes the challenge record twice, whatever the authority
/// and the DNS provider report: at most one add is asked for.
pub proof fn lemma_record_added_at_most_once(events: Seq<Event>)
    ensures
        adds_in_run(initial(), events) <= 1,
{
    lemma_adds_bounded(initial(), events);
}

/// When the order is pending and no record is published yet, the run
/// publishes the computed value, once.
pub proof fn lemma_pending_order_publishes_record(s: App, value: String)
    requires
        s.phase is FetchingOrder,
        s.record is None,
    ensures
        adds_in_run(s, seq![Event::Order(OrderStatus::Pending), Event::DnsValue(value)]) == 1,
        step_spec(step_spec(s, Event::Order(OrderStatus::Pending)).0, Event::DnsValue(value)).1
            == Action::AddRecord(value),
{
    let events = seq![Event::Order(OrderStatus::Pending), Event::DnsValue(value)];
    let s1 = step_spec(s, events[0]).0;
    let rest = events.drop_first();
    assert(rest =~= seq![Event::DnsValue(value)]);
    assert(rest.drop_first().len() == 0);
    assert(adds_in_run(step_spec(s1, rest[0]).0, rest.drop_first()) == 0);
    assert(adds_in_run(s1, rest) == 1);
}

/// Every run asks for at most one removal of the record, and a run that has
/// finished, whether it succeeded, failed or met an invalid order, has asked
/// for exactly one.
pub proof fn lemma_one_removal_per_run(events: Seq<Event>)
    ensures
        removes_in_run(initial(), events) <= 1,
        run_state(initial(), events).phase is Finished ==> removes_in_run(initial(), events) == 1,
{
    lemma_removes_counted(initial(), events);
}

proof fn lemma_no_creation_after_login(s: App, events: Seq<Event>)
    requires
        !(s.phase is LoadingAccount),
    ensures
        creates_in_run(s, events) == 0,
    decreases events.len(),
{
    if events.len() > 0 {
        lemma_no_creation_after_login(step_spec(s, events[0]).0, events.drop_first());
    }
}

/// A run whose stored account credential loads never asks for a new
/// account, whatever happens afterwards.
pub proof fn lemma_loaded_account_not_recreated(events: Seq<Event>)
    requires
        events.len() > 0,
        events[0] is Done,
    ensures
        creates_in_run(initial(), events) == 0,
{
    lemma_no_creation_after_login(step_spec(initial(), events[0]).0, events.drop_first());
}

/// A removal always names the record the run holds, and the run holds no
/// record but the one the DNS provider reported for the add: so the single
/// removal of a run is of the record it added.
pub proof fn lemma_removal_names_added_record(s: App, e: Event)
    ensures
        step_spec(s, e).1 is RemoveRecord ==> step_spec(s, e).1 == Action::RemoveRecord(s.record),
        step_spec(s, e).0.record != s.record ==> step_spec(s, e).0.record is None || (
            s.phase is AddingRecord && e is RecordId && step_spec(s, e).0.record == Some(e->RecordId_0)),
{
}

impl RunError {
    pub fn copy(&self) -> (r: RunError)
        ensures
            r == *self,
    {
        match self {
            RunError::AccountCreation(m) => RunError::AccountCreation(m.clone()),
            RunError::Authority(m) => RunError::Authority(m.clone()),
            RunError::DnsProvider(m) => RunError::DnsProvider(m.clone()),
            RunError::OrderInvalid => RunError::OrderInvalid,
            RunError::UnexpectedEvent => RunError::UnexpectedEvent,
        }
    }
}

impl Outcome {
    pub fn copy(&self) -> (r: Outcome)
        ensures
            r == *self,
    {
        match self {
            Outcome::Success => Outcome::Success,
            Outcome::Failure(e) => Outcome::Failure(e.copy()),
        }
    }
}

impl App {
    /// A run at its start, with no record published; its first action is
    /// `first_action()`.
    pub fn new() -> (r: App)
        ensures
            r == initial(),
            r.wf(),
    {
        App { phase: Phase::LoadingAccount, record: None }
    }

    /// The action that opens every run.
    pub fn first_action() -> (r: Action)
        ensures
            r == Action::LoadAccount,
    {
        Action::LoadAccount
    }

    /// Whether the run is over.
    pub fn is_finished(&self) -> (r: bool)
        ensures
            r == (self.phase is Finished),
    {
        matches!(self.phase, Phase::Finished(_))
    }

    fn clean_up(&mut self, outcome: Outcome) -> (r: Action)
        ensures
            (*final(self), r) == clean_up(*old(self), outcome),
    {
        let record = self.record.take();
        self.phase = Phase::CleaningUp(outcome);
        Action::RemoveRecord(record)
    }

    fn advance(&mut self, phase: Phase, action: Action) -> (r: Action)
        ensures
            *final(self) == (App { phase, ..*old(self) }),
            r == action,
    {
        self.phase = phase;
        action
    }

    /// Feeds the result of the last action into the run and returns the next
    /// action: the whole run is `step_spec` applied event by event.
    pub fn step(&mut self, event: Event) -> (r: Action)
        ensures
            (*final(self), r) == step_spec(*old(self), event),
    {
        match &self.phase {
            Phase::LoadingAccount => match event {
                Event::Done => self.advance(Phase::FetchingOrder, Action::FetchOrder),
                Event::Failed(_) => self.advance(Phase::CreatingAccount, Action::CreateAccount),
                _ => self.clean_up(Outcome::Failure(RunError::UnexpectedEvent)),
            },
            Phase::CreatingAccount => match event {
                Event::Done => self.advance(Phase::FetchingOrder, Action::FetchOrder),
                Event::Failed(m) => self.clean_up(Outcome::Failure(RunError::AccountCreation(m))),
                _ => self.clean_up(Outcome::Failure(RunError::UnexpectedEvent)),
            },
            Phase::FetchingOrder => match event {
                Event::Order(OrderStatus::Pending) => if self.record.is_none() {
                    self.advance(Phase::ComputingValue, Action::ComputeDnsValue)
                } else {
                    self.advance(Phase::Sleeping, Action::Sleep(RECHECK_SECS))
                },
                Event::Order(OrderStatus::Ready) => self.advance(Phase::Finalizing, Action::Finalize),
                Event::Order(OrderStatus::Valid) => self.clean_up(Outcome::Success),
                Event::Order(OrderStatus::Invalid) => self.clean_up(Outcome::Failure(RunError::OrderInvalid)),
                Event::Order(OrderStatus::Processing) => self.advance(Phase::Sleeping, Action::Sleep(RECHECK_SECS)),
                Event::Failed(m) => self.clean_up(Outcome::Failure(RunError::Authority(m))),
                _ => self.clean_up(Outcome::Failure(RunError::UnexpectedEvent)),
            },
            Phase::ComputingValue => match event {
                Event::DnsValue(v) => self.advance(Phase::AddingRecord, Action::AddRecord(v)),
                Event::Failed(m) => self.clean_up(Outcome::Failure(RunError::Authority(m))),
                _ => self.clean_up(Outcome::Failure(RunError::UnexpectedEvent)),
            },
            Phase::AddingRecord => match event {
                Event::RecordId(id) => {
                    self.record = Some(id);
                    self.advance(Phase::AwaitingReady, Action::SignalReadyAndWait)
                },
                Event::Failed(m) => self.clean_up(Outcome::Failure(RunError::DnsProvider(m))),
                _ => self.clean_up(Outcome::Failure(RunError::UnexpectedEvent)),
            },
            Phase::AwaitingReady => match event {
                Event::Done => self.advance(Phase::FetchingOrder, Action::FetchOrder),
                Event::Failed(m) => self.clean_up(Outcome::Failure(RunError::Authority(m))),
                _ => self.clean_up(Outcome::Failure(RunError::UnexpectedEvent)),
            },
            Phase::Finalizing => match event {
                Event::Done => self.clean_up(Outcome::Success),
                Event::Failed(m) => self.clean_up(Outcome::Failure(RunError::Authority(m))),
                _ => self.clean_up(Outcome::Failure(RunError::UnexpectedEvent)),
            },
            Phase::Sleeping => match event {
                Event::Done => self.advance(Phase::FetchingOrder, Action::FetchOrder),
                _ => self.clean_up(Outcome::Failure(RunError::UnexpectedEvent)),
            },
            Phase::CleaningUp(o) | Phase::Finished(o) => {
                let o2 = o.copy();
                let o3 = o.copy();
                self.record = None;
                self.phase = Phase::Finished(o2);
                Action::Finish(o3)
            },
        }
    }
}

} // verus!
