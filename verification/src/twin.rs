//! The coordination loop of the twin agent, as a state machine: each event that
//! the loop's sources deliver is handled to completion and answered with the one
//! action that the caller has to perform before it delivers the next.

use crate::adu::{Adu, AduError, AduView, ReportedPatch, ReportedPatchView, adu_of};
use crate::json::{has_key, json_keys, json_text_strings};
use vstd::prelude::*;
use vstd::string::StringExecFns;

verus! {

/// How many patches the queue of reported properties holds at most.
pub const QUEUE_CAPACITY: usize = 100;

/// How many patches the initial report consists of.
pub const INITIAL_REPORT_LEN: usize = 3;

/// Why the hub has no authenticated connection.
#[derive(Clone, Copy, Debug, PartialEq, Eq, Structural)]
pub enum UnauthenticatedReason {
    ExpiredSasToken,
    DeviceDisabled,
    BadCredential,
    RetryExpired,
    NoNetwork,
    CommunicationError,
}

/// The state of the connection to the hub.
#[derive(Clone, Copy, Debug, PartialEq, Eq, Structural)]
pub enum AuthenticationStatus {
    Authenticated,
    Unauthenticated(UnauthenticatedReason),
}

/// Whether an update of the desired properties holds the changed keys only or
/// the whole document under its root key.
#[derive(Clone, Copy, Debug, PartialEq, Eq, Structural)]
pub enum TwinUpdateState {
    Partial,
    Complete,
}

/// Where the agent stands in its life.
#[derive(Clone, Copy, Debug, PartialEq, Eq, Structural)]
pub enum Phase {
    Starting,
    Connecting,
    Running,
    ShuttingDown,
    Stopped,
    Failed,
}

/// Work outside the state machine that went wrong beyond recovery.
#[derive(Clone, Copy, Debug, PartialEq, Eq, Structural)]
pub enum Failure {
    SignalRegistration,
    ClientConstruction,
    WatchdogNotify,
    ReportForward,
    ChannelClosed,
    MethodDispatch,
}

/// Why the loop ends with an error.
#[derive(Clone, Copy, Debug, PartialEq, Eq, Structural)]
pub enum TwinError {
    /// The hub gave the connection up for a reason that no new token mends.
    NoConnection(UnauthenticatedReason),
    /// Work outside the state machine failed.
    Outside(Failure),
}

/// Why an update of the desired properties was turned down.
#[derive(Clone, Copy, Debug, PartialEq, Eq, Structural)]
pub enum DesiredError {
    /// A complete update without the root key `desired`.
    RootMissing,
}

/// What is written to the result sink of a direct method.
#[derive(Clone, Copy, Debug, PartialEq, Eq, Structural)]
pub enum MethodResponse {
    /// The method ran; its result is the empty document.
    Success,
    /// No method of that name is registered.
    UnknownMethod,
}

/// Where the hub client gets its identity from.
#[derive(Clone, Debug, PartialEq, Eq)]
pub enum ClientSource {
    /// From this connection string.
    ConnectionString(String),
    /// From the identity that the platform provides.
    Identity,
}

/// The name of a reason as the log writes it.
pub open spec fn reason_name(reason: UnauthenticatedReason) -> Seq<char> {
    match reason {
        UnauthenticatedReason::ExpiredSasToken => "ExpiredSasToken"@,
        UnauthenticatedReason::DeviceDisabled => "DeviceDisabled"@,
        UnauthenticatedReason::BadCredential => "BadCredential"@,
        UnauthenticatedReason::RetryExpired => "RetryExpired"@,
        UnauthenticatedReason::NoNetwork => "NoNetwork"@,
        UnauthenticatedReason::CommunicationError => "CommunicationError"@,
    }
}

/// What failed, in the words of the log.
pub open spec fn failure_text(failure: Failure) -> Seq<char> {
    match failure {
        Failure::SignalRegistration => "cannot register the termination signals"@,
        Failure::ClientConstruction => "cannot build the hub client"@,
        Failure::WatchdogNotify => "cannot notify the watchdog"@,
        Failure::ReportForward => "cannot report properties to the hub"@,
        Failure::ChannelClosed => "a notification channel was closed"@,
        Failure::MethodDispatch => "cannot dispatch a direct method"@,
    }
}

/// What the log says of the error that ended the loop.
pub open spec fn twin_error_text(e: TwinError) -> Seq<char> {
    match e {
        TwinError::NoConnection(reason) => "No connection. Reason: "@ + reason_name(reason),
        TwinError::Outside(failure) => failure_text(failure),
    }
}

/// What the log says of an update that was turned down.
pub open spec fn desired_error_text(e: DesiredError) -> Seq<char> {
    match e {
        DesiredError::RootMissing => "handle_desired: 'desired' missing while TwinUpdateState::Complete"@,
    }
}

impl UnauthenticatedReason {
    /// The name of the reason as the log writes it.
    pub fn name(&self) -> (text: &'static str)
        ensures
            text@ == reason_name(*self),
    {
        match self {
            UnauthenticatedReason::ExpiredSasToken => "ExpiredSasToken",
            UnauthenticatedReason::DeviceDisabled => "DeviceDisabled",
            UnauthenticatedReason::BadCredential => "BadCredential",
            UnauthenticatedReason::RetryExpired => "RetryExpired",
            UnauthenticatedReason::NoNetwork => "NoNetwork",
            UnauthenticatedReason::CommunicationError => "CommunicationError",
        }
    }
}

impl Failure {
    /// What failed, in the words of the log.
    pub fn message(&self) -> (text: &'static str)
        ensures
            text@ == failure_text(*self),
    {
        match self {
            Failure::SignalRegistration => "cannot register the termination signals",
            Failure::ClientConstruction => "cannot build the hub client",
            Failure::WatchdogNotify => "cannot notify the watchdog",
            Failure::ReportForward => "cannot report properties to the hub",
            Failure::ChannelClosed => "a notification channel was closed",
            Failure::MethodDispatch => "cannot dispatch a direct method",
        }
    }
}

impl TwinError {
    /// What the log says of this error.
    pub fn message(&self) -> (text: String)
        ensures
            text@ == twin_error_text(*self),
    {
        match self {
            TwinError::NoConnection(reason) => {
                "No connection. Reason: ".to_owned().concat(reason.name())
            },
            TwinError::Outside(failure) => failure.message().to_owned(),
        }
    }
}

impl DesiredError {
    /// What the log says of this error.
    pub fn message(&self) -> (text: String)
        ensures
            text@ == desired_error_text(*self),
    {
        match self {
            DesiredError::RootMissing => {
                "handle_desired: 'desired' missing while TwinUpdateState::Complete".to_owned()
            },
        }
    }
}

/// The period of the watchdog notifications for the deadline that the
/// supervisor declared, both in microseconds: half the deadline, and none where
/// no deadline was declared.
pub open spec fn half_deadline(deadline_micros: Option<u64>) -> Option<u64> {
    match deadline_micros {
        Some(micros) => Some(micros / 2),
        None => None,
    }
}

/// The period of the watchdog notifications for a declared deadline.
pub fn watchdog_interval(deadline_micros: Option<u64>) -> (period: Option<u64>)
    ensures
        period == half_deadline(deadline_micros),
{
    match deadline_micros {
        Some(micros) => Some(micros / 2),
        None => None,
    }
}

/// Where the hub client gets its identity from: from the connection string
/// where one is given, else from the platform.
pub fn client_source(connection_override: Option<String>) -> (source: ClientSource)
    ensures
        match connection_override {
            Some(connection_string) => source == ClientSource::ConnectionString(connection_string),
            None => source == ClientSource::Identity,
        },
{
    match connection_override {
        Some(connection_string) => ClientSource::ConnectionString(connection_string),
        None => ClientSource::Identity,
    }
}

/// The exit code of the process for the outcome of the loop: 0 after a clean
/// shutdown, 1 after an error.
pub fn exit_code(outcome: &Result<(), TwinError>) -> (code: i32)
    ensures
        code == if outcome is Ok { 0i32 } else { 1i32 },
{
    match outcome {
        Ok(_) => 0,
        Err(_) => 1,
    }
}

/// What the loop's sources deliver.
#[derive(Debug, PartialEq, Eq)]
pub enum Event {
    /// The loop was entered.
    Start,
    /// The hub client was constructed.
    Connected,
    /// The watchdog interval elapsed.
    WatchdogTick,
    /// The process was asked to terminate.
    TerminationSignal,
    /// The hub client has shut down.
    ShutdownComplete,
    /// The state of the connection changed.
    ConnectionStatus(AuthenticationStatus),
    /// The desired properties changed.
    DesiredProperties(TwinUpdateState, serde_json::Value),
    /// A direct method was invoked.
    DirectMethod { name: String, payload: serde_json::Value },
    /// The hub client is free to take the next reported patch.
    ReportedReady,
    /// Work outside the state machine failed.
    Failed(Failure),
}

/// What the caller has to do before it delivers the next event.
#[derive(Clone, Debug, PartialEq, Eq)]
pub enum Action {
    /// Nothing: wait for the next event.
    Wait,
    /// Construct the hub client.
    Connect,
    /// Tell the watchdog that the agent is alive.
    NotifyWatchdog,
    /// Stop listening for signals and shut the hub client down.
    Shutdown,
    /// Return from the loop without an error.
    Exit,
    /// Hand this patch to the hub client.
    Report(ReportedPatch),
    /// Write this response to the result sink of the invocation.
    Respond(MethodResponse),
    /// Log that the update was turned down, and go on.
    LogDesiredError(DesiredError),
    /// Return from the loop with this error.
    Fail(TwinError),
}

pub ghost enum ActionView {
    Wait,
    Connect,
    NotifyWatchdog,
    Shutdown,
    Exit,
    Report(ReportedPatchView),
    Respond(MethodResponse),
    LogDesiredError(DesiredError),
    Fail(TwinError),
}

impl View for Action {
    type V = ActionView;

    open spec fn view(&self) -> ActionView {
        match self {
            Action::Wait => ActionView::Wait,
            Action::Connect => ActionView::Connect,
            Action::NotifyWatchdog => ActionView::NotifyWatchdog,
            Action::Shutdown => ActionView::Shutdown,
            Action::Exit => ActionView::Exit,
            Action::Report(patch) => ActionView::Report(patch@),
            Action::Respond(response) => ActionView::Respond(*response),
            Action::LogDesiredError(e) => ActionView::LogDesiredError(*e),
            Action::Fail(e) => ActionView::Fail(*e),
        }
    }
}

/// The state of the coordination loop.
#[derive(Clone, Debug, PartialEq, Eq)]
pub struct Twin {
    pub phase: Phase,
    pub authenticated_once: bool,
    pub module_version: String,
    pub sdk_version: String,
    pub queue: Vec<ReportedPatch>,
    pub adu: Adu,
}

pub ghost struct TwinView {
    pub phase: Phase,
    pub authenticated_once: bool,
    pub module_version: Seq<char>,
    pub sdk_version: Seq<char>,
    pub queue: Seq<ReportedPatchView>,
    pub adu: AduView,
}

/// The views of a sequence of patches.
pub open spec fn patch_views(patches: Seq<ReportedPatch>) -> Seq<ReportedPatchView> {
    Seq::new(patches.len(), |i: int| patches[i]@)
}

/// The views of a sequence of actions.
pub open spec fn action_views(actions: Seq<Action>) -> Seq<ActionView> {
    Seq::new(actions.len(), |i: int| actions[i]@)
}

impl View for Twin {
    type V = TwinView;

    open spec fn view(&self) -> TwinView {
        TwinView {
            phase: self.phase,
            authenticated_once: self.authenticated_once,
            module_version: self.module_version@,
            sdk_version: self.sdk_version@,
            queue: patch_views(self.queue@),
            adu: self.adu@,
        }
    }
}

impl TwinView {
    /// How many patches the queue takes in this state: until the initial report
    /// has been made, room for it is kept free.
    pub open spec fn limit(self) -> nat {
        if self.authenticated_once {
            QUEUE_CAPACITY as nat
        } else {
            (QUEUE_CAPACITY - INITIAL_REPORT_LEN) as nat
        }
    }

    /// The queue is within its limit.
    pub open spec fn wf(self) -> bool {
        self.queue.len() <= self.limit()
    }
}

/// The state in which the agent starts.
pub open spec fn initial_state(module_version: Seq<char>, sdk_version: Seq<char>, adu: AduView) -> TwinView {
    TwinView {
        phase: Phase::Starting,
        authenticated_once: false,
        module_version,
        sdk_version,
        queue: Seq::empty(),
        adu,
    }
}

/// The initial report: the agent's versions, the device inventory, the identity
/// of the update agent.
pub open spec fn initial_report(s: TwinView) -> Seq<ReportedPatchView> {
    seq![
        ReportedPatchView::AgentVersion {
            module_version: s.module_version,
            sdk_version: s.sdk_version,
        },
        ReportedPatchView::DeviceInformation(s.adu.device_info),
        ReportedPatchView::DeviceUpdate(s.adu.device_update),
    ]
}

/// The state after a patch was offered to the queue: appended at the end where
/// the queue is below its limit, otherwise turned away.
pub open spec fn after_enqueue(s: TwinView, patch: ReportedPatchView) -> TwinView {
    if s.queue.len() < s.limit() {
        TwinView { queue: s.queue.push(patch), ..s }
    } else {
        s
    }
}

/// The state after the initial report was enqueued.
pub open spec fn after_init(s: TwinView) -> TwinView {
    TwinView { queue: s.queue + initial_report(s), ..s }
}

/// The state after a change of the connection's state: the first authentication
/// is remembered and enqueues the initial report, nothing else changes anything.
pub open spec fn after_connection_status(s: TwinView, status: AuthenticationStatus) -> TwinView {
    if status == AuthenticationStatus::Authenticated && !s.authenticated_once {
        TwinView { authenticated_once: true, ..after_init(s) }
    } else {
        s
    }
}

/// Whether a change of the connection's state lets the loop go on: it does not
/// where the connection is lost for another reason than an expired token.
pub open spec fn connection_result(status: AuthenticationStatus) -> Result<(), TwinError> {
    match status {
        AuthenticationStatus::Authenticated => Ok(()),
        AuthenticationStatus::Unauthenticated(UnauthenticatedReason::ExpiredSasToken) => Ok(()),
        AuthenticationStatus::Unauthenticated(reason) => Err(TwinError::NoConnection(reason)),
    }
}

/// Whether an update of the desired properties is taken, by the names of the
/// members of its document: a complete one needs the root key `desired`.
pub open spec fn desired_result(state: TwinUpdateState, keys: Set<Seq<char>>) -> Result<
    (),
    DesiredError,
> {
    if state == TwinUpdateState::Complete && !keys.contains("desired"@) {
        Err(DesiredError::RootMissing)
    } else {
        Ok(())
    }
}

/// The response to a direct method of this name.
pub open spec fn method_response(name: Seq<char>) -> MethodResponse {
    if name == "factory_reset"@ {
        MethodResponse::Success
    } else {
        MethodResponse::UnknownMethod
    }
}

/// The state after an event.
pub open spec fn next_state(s: TwinView, e: Event) -> TwinView {
    match (s.phase, e) {
        (Phase::Starting, Event::Start) => TwinView { phase: Phase::Connecting, ..s },
        (Phase::Starting, Event::Failed(_)) => TwinView { phase: Phase::Failed, ..s },
        (Phase::Connecting, Event::Connected) => TwinView { phase: Phase::Running, ..s },
        (Phase::Connecting, Event::Failed(_)) => TwinView { phase: Phase::Failed, ..s },
        (Phase::Running, Event::TerminationSignal) => TwinView { phase: Phase::ShuttingDown, ..s },
        (Phase::Running, Event::ConnectionStatus(status)) => {
            if connection_result(status) is Err {
                TwinView { phase: Phase::Failed, ..s }
            } else {
                after_connection_status(s, status)
            }
        },
        (Phase::Running, Event::ReportedReady) => {
            if s.queue.len() > 0 {
                TwinView { queue: s.queue.drop_first(), ..s }
            } else {
                s
            }
        },
        (Phase::Running, Event::Failed(_)) => TwinView { phase: Phase::Failed, ..s },
        (Phase::ShuttingDown, Event::ShutdownComplete) => TwinView { phase: Phase::Stopped, ..s },
        _ => s,
    }
}

/// The action that answers an event. A direct method is answered in every
/// phase; every other event is answered by `Wait` where the phase has no use
/// for it.
pub open spec fn next_action(s: TwinView, e: Event) -> ActionView {
    match (s.phase, e) {
        (_, Event::DirectMethod { name, payload }) => ActionView::Respond(method_response(name@)),
        (Phase::Starting, Event::Start) => ActionView::Connect,
        (Phase::Starting, Event::Failed(failure)) => ActionView::Fail(TwinError::Outside(failure)),
        (Phase::Connecting, Event::Failed(failure)) => ActionView::Fail(
            TwinError::Outside(failure),
        ),
        (Phase::Running, Event::WatchdogTick) => ActionView::NotifyWatchdog,
        (Phase::Running, Event::TerminationSignal) => ActionView::Shutdown,
        (Phase::Running, Event::ConnectionStatus(status)) => match connection_result(status) {
            Err(e) => ActionView::Fail(e),
            Ok(_) => ActionView::Wait,
        },
        (Phase::Running, Event::DesiredProperties(state, payload)) => match desired_result(
            state,
            json_keys(payload),
        ) {
            Err(e) => ActionView::LogDesiredError(e),
            Ok(_) => ActionView::Wait,
        },
        (Phase::Running, Event::ReportedReady) => {
            if s.queue.len() > 0 {
                ActionView::Report(s.queue[0])
            } else {
                ActionView::Wait
            }
        },
        (Phase::Running, Event::Failed(failure)) => ActionView::Fail(TwinError::Outside(failure)),
        (Phase::ShuttingDown, Event::ShutdownComplete) => ActionView::Exit,
        _ => ActionView::Wait,
    }
}

/// The state after a run of events, each handled in turn.
pub open spec fn state_after(s: TwinView, events: Seq<Event>) -> TwinView
    decreases events.len(),
{
    if events.len() == 0 {
        s
    } else {
        next_state(state_after(s, events.drop_last()), events.last())
    }
}

/// The actions that answer a run of events, one for each.
pub open spec fn actions_of(s: TwinView, events: Seq<Event>) -> Seq<ActionView>
    decreases events.len(),
{
    if events.len() == 0 {
        Seq::empty()
    } else {
        actions_of(s, events.drop_last()).push(
            next_action(state_after(s, events.drop_last()), events.last()),
        )
    }
}

impl Twin {
    /// The agent before its loop is entered, with the update-metadata documents
    /// built from the text of the configuration and the version line.
    pub fn new(module_version: String, sdk_version: String, du_config: &str, sw_versions: &str) -> (r:
        Result<Twin, AduError>)
        ensures
            match r {
                Ok(twin) => {
                    &&& adu_of(json_text_strings(du_config@), sw_versions@) == Ok::<AduView, AduError>(
                        twin@.adu,
                    )
                    &&& twin@ == initial_state(module_version@, sdk_version@, twin@.adu)
                    &&& twin@.wf()
                },
                Err(e) => adu_of(json_text_strings(du_config@), sw_versions@) == Err::<AduView, AduError>(
                    e,
                ),
            },
    {
        match Adu::new(du_config, sw_versions) {
            Ok(adu) => Ok(Twin::with_documents(module_version, sdk_version, adu)),
            Err(e) => Err(e),
        }
    }

    /// The agent before its loop is entered, with documents that are already built.
    pub fn with_documents(module_version: String, sdk_version: String, adu: Adu) -> (twin: Twin)
        ensures
            twin@ == initial_state(module_version@, sdk_version@, adu@),
            twin@.wf(),
    {
        let twin = Twin {
            phase: Phase::Starting,
            authenticated_once: false,
            module_version,
            sdk_version,
            queue: Vec::new(),
            adu,
        };
        assert(twin@.queue =~= Seq::empty());
        twin
    }

    /// Whether the queue is within its limit.
    pub fn is_well_formed(&self) -> (well_formed: bool)
        ensures
            well_formed == self@.wf(),
    {
        if self.authenticated_once {
            self.queue.len() <= QUEUE_CAPACITY
        } else {
            self.queue.len() <= QUEUE_CAPACITY - INITIAL_REPORT_LEN
        }
    }

    /// Whether a patch waits to be handed to the hub client.
    pub fn has_pending(&self) -> (pending: bool)
        ensures
            pending == (self@.queue.len() > 0),
    {
        self.queue.len() > 0
    }

    /// Offers a patch to the queue. A queue at its limit hands the patch back,
    /// for the producer to pause and offer it again; otherwise the patch is
    /// appended at the end.
    pub fn enqueue(&mut self, patch: ReportedPatch) -> (r: Result<(), ReportedPatch>)
        requires
            old(self)@.wf(),
        ensures
            r is Ok <==> old(self)@.queue.len() < old(self)@.limit(),
            r matches Err(returned) ==> returned == patch,
            final(self)@ == after_enqueue(old(self)@, patch@),
            final(self)@.wf(),
    {
        let limit: usize = if self.authenticated_once {
            QUEUE_CAPACITY
        } else {
            QUEUE_CAPACITY - INITIAL_REPORT_LEN
        };
        if self.queue.len() < limit {
            self.queue.push(patch);
            assert(self@.queue =~= old(self)@.queue.push(patch@));
            Ok(())
        } else {
            Err(patch)
        }
    }

    /// Enqueues the initial report.
    fn init(&mut self)
        requires
            old(self)@.queue.len() + INITIAL_REPORT_LEN <= QUEUE_CAPACITY,
        ensures
            final(self)@ == after_init(old(self)@),
    {
        let versions = ReportedPatch::AgentVersion {
            module_version: self.module_version.clone(),
            sdk_version: self.sdk_version.clone(),
        };
        let (device_info, device_update) = self.adu.report_initial_state();
        self.queue.push(versions);
        self.queue.push(device_info);
        self.queue.push(device_update);
        assert(self@.queue =~= old(self)@.queue + initial_report(old(self)@));
    }

    /// Handles a change of the connection's state. The first authentication is
    /// remembered and enqueues the initial report; a later one changes nothing.
    /// A connection lost to an expired token is passed over; lost for any other
    /// reason it is an error, and nothing changes.
    pub fn handle_connection_status(&mut self, status: AuthenticationStatus) -> (r: Result<
        (),
        TwinError,
    >)
        requires
            old(self)@.wf(),
        ensures
            r == connection_result(status),
            final(self)@ == after_connection_status(old(self)@, status),
            final(self)@.wf(),
    {
        match status {
            AuthenticationStatus::Authenticated => {
                if !self.authenticated_once {
                    self.init();
                    self.authenticated_once = true;
                }
                Ok(())
            },
            AuthenticationStatus::Unauthenticated(reason) => {
                match reason {
                    UnauthenticatedReason::ExpiredSasToken => Ok(()),
                    _ => Err(TwinError::NoConnection(reason)),
                }
            },
        }
    }

    /// Handles an update of the desired properties. No key is owned by a feature
    /// yet, so a partial update is taken as it is; a complete one is turned down
    /// where the root key `desired` is missing.
    pub fn handle_desired(&self, state: TwinUpdateState, desired: &serde_json::Value) -> (r: Result<
        (),
        DesiredError,
    >)
        ensures
            r == desired_result(state, json_keys(*desired)),
    {
        match state {
            TwinUpdateState::Partial => Ok(()),
            TwinUpdateState::Complete => {
                if has_key(desired, "desired") {
                    Ok(())
                } else {
                    Err(DesiredError::RootMissing)
                }
            },
        }
    }

    /// Answers a direct method: `factory_reset` succeeds with the empty document,
    /// every other name is unknown.
    pub fn handle_method(&self, name: &str, payload: &serde_json::Value) -> (response: MethodResponse)
        ensures
            response == method_response(name@),
    {
        if name.to_owned() == "factory_reset".to_owned() {
            MethodResponse::Success
        } else {
            MethodResponse::UnknownMethod
        }
    }

    /// Handles one event to completion and says what the caller has to do.
    pub fn step(&mut self, event: &Event) -> (action: Action)
        requires
            old(self)@.wf(),
        ensures
            final(self)@ == next_state(old(self)@, *event),
            action@ == next_action(old(self)@, *event),
            final(self)@.wf(),
    {
        if let Event::DirectMethod { name, payload } = event {
            return Action::Respond(self.handle_method(name.as_str(), payload));
        }
        match self.phase {
            Phase::Starting => match event {
                Event::Start => {
                    self.phase = Phase::Connecting;
                    Action::Connect
                },
                Event::Failed(failure) => {
                    self.phase = Phase::Failed;
                    Action::Fail(TwinError::Outside(*failure))
                },
                _ => Action::Wait,
            },
            Phase::Connecting => match event {
                Event::Connected => {
                    self.phase = Phase::Running;
                    Action::Wait
                },
                Event::Failed(failure) => {
                    self.phase = Phase::Failed;
                    Action::Fail(TwinError::Outside(*failure))
                },
                _ => Action::Wait,
            },
            Phase::Running => match event {
                Event::WatchdogTick => Action::NotifyWatchdog,
                Event::TerminationSignal => {
                    self.phase = Phase::ShuttingDown;
                    Action::Shutdown
                },
                Event::ConnectionStatus(status) => match self.handle_connection_status(*status) {
                    Ok(_) => Action::Wait,
                    Err(e) => {
                        self.phase = Phase::Failed;
                        Action::Fail(e)
                    },
                },
                Event::DesiredProperties(state, payload) => match self.handle_desired(
                    *state,
                    payload,
                ) {
                    Ok(_) => Action::Wait,
                    Err(e) => Action::LogDesiredError(e),
                },
                Event::ReportedReady => {
                    if self.queue.len() > 0 {
                        let patch = self.queue.remove(0);
                        assert(self@.queue =~= old(self)@.queue.drop_first());
                        Action::Report(patch)
                    } else {
                        Action::Wait
                    }
                },
                Event::Failed(failure) => {
                    self.phase = Phase::Failed;
                    Action::Fail(TwinError::Outside(*failure))
                },
                _ => Action::Wait,
            },
            Phase::ShuttingDown => match event {
                Event::ShutdownComplete => {
                    self.phase = Phase::Stopped;
                    Action::Exit
                },
                _ => Action::Wait,
            },
            _ => Action::Wait,
        }
    }

    /// Handles a run of events, each to completion before the next, and gives
    /// the actions that answer them, one for each event and in their order.
    pub fn run(&mut self, events: &Vec<Event>) -> (actions: Vec<Action>)
        requires
            old(self)@.wf(),
        ensures
            final(self)@ == state_after(old(self)@, events@),
            action_views(actions@) == actions_of(old(self)@, events@),
            final(self)@.wf(),
    {
        let ghost start = self@;
        let mut actions: Vec<Action> = Vec::new();
        let mut i: usize = 0;
        assert(events@.take(0) =~= Seq::<Event>::empty());
        assert(action_views(actions@) =~= Seq::<ActionView>::empty());
        while i < events.len()
            invariant
                0 <= i <= events.len(),
                self@.wf(),
                self@ == state_after(start, events@.take(i as int)),
                action_views(actions@) == actions_of(start, events@.take(i as int)),
            decreases events.len() - i,
        {
            let ghost before = action_views(actions@);
            let action = self.step(&events[i]);
            actions.push(action);
            proof {
                assert(events@.take(i + 1).drop_last() =~= events@.take(i as int));
                assert(events@.take(i + 1).last() == events@[i as int]);
                assert(action_views(actions@) =~= before.push(action@));
            }
            i = i + 1;
        }
        assert(events@.take(events.len() as int) =~= events@);
        actions
    }
}

} // verus!
