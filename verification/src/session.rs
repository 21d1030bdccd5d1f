//! One request to the strip: what to ask it, in which order, and what to show in the end.
use vstd::prelude::*;
use crate::action::Action;
use crate::config::{Config, ConfigView};
use crate::control::{payload, Payload};
use crate::output::{failure, offline, Output, OutputView};
use crate::state::State;
use crate::text::starts_with;

verus! {

/// How long one call to the strip may take, in seconds.
pub const CALL_TIMEOUT_SECS: u64 = 4;

/// How long a whole request may take, in seconds.
pub const REQUEST_TIMEOUT_SECS: u64 = 8;

/// An error that the strip answers with.
#[derive(Debug)]
pub enum TapoResponseError {
    /// It does not accept the credentials.
    Unauthorized { kind: String, description: String },
    /// Anything else.
    Other,
}

/// Why a call to the strip failed.
#[derive(Debug)]
pub enum Error {
    /// The strip answered with an error.
    Tapo(TapoResponseError),
    /// The transport failed: while connecting, by a timeout, or otherwise.
    Http { is_connect: bool, is_timeout: bool },
    /// There is no such device.
    DeviceNotFound,
    /// Anything else.
    Other,
}

/// The status line for a failed call.
pub open spec fn error_line(err: Error) -> OutputView {
    match err {
        Error::Http { is_connect, is_timeout } if is_connect || is_timeout => {
            crate::output::unreachable_line()
        },
        Error::DeviceNotFound => crate::output::unreachable_line(),
        Error::Tapo(TapoResponseError::Unauthorized { .. }) => crate::output::failed(
            "Tapo authentication failed. Check the credentials in waybar/tapo.json."@,
        ),
        _ => crate::output::failed(
            "Tapo request failed. Check the device, credentials and local connection."@,
        ),
    }
}

/// Reports a failed call, without anything of what the error says.
pub fn api_error(err: Error) -> (r: Output)
    ensures
        r@ == error_line(err),
{
    match err {
        Error::Http { is_connect, is_timeout } => if is_connect || is_timeout {
            offline()
        } else {
            failure("Tapo request failed. Check the device, credentials and local connection.")
        },
        Error::DeviceNotFound => offline(),
        Error::Tapo(TapoResponseError::Unauthorized { .. }) => failure(
            "Tapo authentication failed. Check the credentials in waybar/tapo.json.",
        ),
        _ => failure("Tapo request failed. Check the device, credentials and local connection."),
    }
}

/// How far a request has come.
#[derive(Clone, Copy, PartialEq, Eq, Debug, Structural)]
pub enum Phase {
    /// The strip is being connected to.
    Connecting,
    /// The first report is awaited.
    Inspecting,
    /// A change is being sent.
    Sending,
    /// The report after the change is awaited.
    Confirming,
}

/// A request under way.
#[derive(Clone, Copy, PartialEq, Eq, Debug, Structural)]
pub struct Session {
    pub action: Action,
    pub phase: Phase,
}

/// A call to the strip.
pub enum Call {
    /// Connect to the address in the settings, with the credentials in them.
    Connect(Config),
    /// Ask for a report.
    GetInfo,
    /// Send a change.
    SetInfo(Payload),
}

/// The model of a [`Call`].
pub enum CallView {
    Connect(ConfigView),
    GetInfo,
    SetInfo(Payload),
}

impl View for Call {
    type V = CallView;

    open spec fn view(&self) -> CallView {
        match self {
            Call::Connect(cfg) => CallView::Connect(cfg@),
            Call::GetInfo => CallView::GetInfo,
            Call::SetInfo(p) => CallView::SetInfo(*p),
        }
    }
}

/// What came of a call.
#[derive(Debug)]
pub enum Event {
    Connected,
    Info(State),
    Sent,
    /// The call failed.
    Failed(Error),
    /// The request as a whole ran out of time.
    TimedOut,
}

/// What to do next.
pub enum Turn {
    /// Make a call and hand its event to the session.
    Call(Session, Call),
    /// Show a status line.
    Done(Output),
}

/// The model of a [`Turn`].
pub enum TurnView {
    Call(Session, CallView),
    Done(OutputView),
}

impl View for Turn {
    type V = TurnView;

    open spec fn view(&self) -> TurnView {
        match self {
            Turn::Call(session, call) => TurnView::Call(*session, call@),
            Turn::Done(out) => TurnView::Done(out@),
        }
    }
}

/// What to do first: report an unusable configuration, or connect with its settings.
pub open spec fn opening(cfg: Result<Config, &'static str>, action: Action) -> TurnView {
    match cfg {
        Ok(cfg) => TurnView::Call(
            Session { action, phase: Phase::Connecting },
            CallView::Connect(cfg@),
        ),
        Err(reason) => TurnView::Done(crate::output::failed(reason@)),
    }
}

/// Whether a report comes from a strip of the supported model.
pub open spec fn supported(state: State) -> bool {
    "L900"@.is_prefix_of(state.model@)
}

impl Session {
    /// The session in a later phase.
    pub open spec fn at(self, phase: Phase) -> Session {
        Session { action: self.action, phase }
    }

    /// Whether an event can come of the call that the session awaits.
    pub open spec fn spec_awaits(self, event: Event) -> bool {
        match event {
            Event::Connected => self.phase == Phase::Connecting,
            Event::Info(_) => self.phase == Phase::Inspecting || self.phase == Phase::Confirming,
            Event::Sent => self.phase == Phase::Sending,
            Event::Failed(_) | Event::TimedOut => true,
        }
    }

    /// What to do on the first report.
    pub open spec fn inspected(self, state: State) -> TurnView {
        if !supported(state) {
            TurnView::Done(
                crate::output::failed("This module is configured for an L900 LED strip."@),
            )
        } else if self.action == Action::Status {
            TurnView::Done(state.status())
        } else {
            match crate::control::change(&state, self.action) {
                Ok(p) => TurnView::Call(self.at(Phase::Sending), CallView::SetInfo(p)),
                Err(reason) => TurnView::Done(crate::output::failed(reason)),
            }
        }
    }

    /// What to do on an event.
    pub open spec fn turn(self, event: Event) -> TurnView {
        match event {
            Event::Connected => TurnView::Call(self.at(Phase::Inspecting), CallView::GetInfo),
            Event::Info(state) => if self.phase == Phase::Inspecting {
                self.inspected(state)
            } else {
                TurnView::Done(state.status())
            },
            Event::Sent => TurnView::Call(self.at(Phase::Confirming), CallView::GetInfo),
            Event::Failed(err) => TurnView::Done(error_line(err)),
            Event::TimedOut => TurnView::Done(crate::output::unreachable_line()),
        }
    }

    /// Tells whether an event can come of the call that the session awaits.
    pub fn awaits(&self, event: &Event) -> (r: bool)
        ensures
            r == self.spec_awaits(*event),
    {
        match event {
            Event::Connected => self.phase == Phase::Connecting,
            Event::Info(_) => self.phase == Phase::Inspecting || self.phase == Phase::Confirming,
            Event::Sent => self.phase == Phase::Sending,
            Event::Failed(_) | Event::TimedOut => true,
        }
    }

    /// Decides what to do on an event.
    pub fn request(self, event: Event) -> (r: Turn)
        requires
            self.spec_awaits(event),
        ensures
            r@ == self.turn(event),
    {
        match event {
            Event::Connected => Turn::Call(
                Session { action: self.action, phase: Phase::Inspecting },
                Call::GetInfo,
            ),
            Event::Info(state) => {
                if self.phase != Phase::Inspecting {
                    return Turn::Done(state.describe());
                }
                if !starts_with(state.model.as_str(), "L900") {
                    return Turn::Done(failure("This module is configured for an L900 LED strip."));
                }
                if self.action == Action::Status {
                    return Turn::Done(state.describe());
                }
                match payload(&state, self.action) {
                    Ok(p) => Turn::Call(
                        Session { action: self.action, phase: Phase::Sending },
                        Call::SetInfo(p),
                    ),
                    Err(reason) => Turn::Done(failure(reason)),
                }
            },
            Event::Sent => Turn::Call(
                Session { action: self.action, phase: Phase::Confirming },
                Call::GetInfo,
            ),
            Event::Failed(err) => Turn::Done(api_error(err)),
            Event::TimedOut => Turn::Done(offline()),
        }
    }
}

/// Begins a request with what came of reading the configuration.
pub fn query(cfg: Result<Config, &'static str>, action: Action) -> (r: Turn)
    ensures
        r@ == opening(cfg, action),
{
    match cfg {
        Ok(cfg) => Turn::Call(Session { action, phase: Phase::Connecting }, Call::Connect(cfg)),
        Err(reason) => Turn::Done(failure(reason)),
    }
}

/// Where a request stands after some events.
pub open spec fn run(turn: TurnView, events: Seq<Event>) -> TurnView
    decreases events.len(),
{
    match turn {
        TurnView::Call(session, _) if events.len() > 0 => run(
            session.turn(events.first()),
            events.drop_first(),
        ),
        _ => turn,
    }
}

/// Whether each of some events can come of the call that a request awaits at that point.
pub open spec fn plausible(turn: TurnView, events: Seq<Event>) -> bool
    decreases events.len(),
{
    match turn {
        TurnView::Call(session, _) if events.len() > 0 => {
            &&& session.spec_awaits(events.first())
            &&& plausible(session.turn(events.first()), events.drop_first())
        },
        _ => true,
    }
}

/// The place of a phase, from 0.
pub open spec fn phase_rank(phase: Phase) -> int {
    match phase {
        Phase::Connecting => 0,
        Phase::Inspecting => 1,
        Phase::Sending => 2,
        Phase::Confirming => 3,
    }
}

/// The status line that a request shows, once it has one.
pub open spec fn shown(turn: TurnView) -> Option<OutputView> {
    match turn {
        TurnView::Done(line) => Some(line),
        TurnView::Call(_, _) => None,
    }
}

/// What a request shows does not depend on the settings it connects with: neither the address nor
/// the credentials are exposed. Nor does any call after the first depend on them.
pub proof fn settings_are_never_shown(
    cfg1: Config,
    cfg2: Config,
    action: Action,
    events: Seq<Event>,
)
    ensures
        shown(run(opening(Ok(cfg1), action), events)) == shown(
            run(opening(Ok(cfg2), action), events),
        ),
        events.len() > 0 ==> run(opening(Ok(cfg1), action), events) == run(
            opening(Ok(cfg2), action),
            events,
        ),
{
}

/// What is shown of a rejected login does not depend on what the strip says about it.
pub proof fn rejections_are_never_shown(
    kind1: String,
    description1: String,
    kind2: String,
    description2: String,
)
    ensures
        error_line(
            Error::Tapo(
                TapoResponseError::Unauthorized { kind: kind1, description: description1 },
            ),
        ) == error_line(
            Error::Tapo(
                TapoResponseError::Unauthorized { kind: kind2, description: description2 },
            ),
        ),
{
}

/// Every failed call is reported as a failure or as an unreachable strip.
pub proof fn errors_are_reported(err: Error)
    ensures
        crate::output::reports_failure(error_line(err)),
{
}

/// Each call takes a request to a later phase and keeps its action.
pub proof fn calls_advance(session: Session, event: Event)
    requires
        session.spec_awaits(event),
    ensures
        session.turn(event) matches TurnView::Call(next, _) ==> {
            &&& next.action == session.action
            &&& phase_rank(next.phase) == phase_rank(session.phase) + 1
        },
{
}

/// A request ends after at most four events.
pub proof fn requests_end(cfg: Result<Config, &'static str>, action: Action, events: Seq<Event>)
    requires
        plausible(opening(cfg, action), events),
        events.len() >= 4,
    ensures
        run(opening(cfg, action), events) is Done,
{
    if cfg is Ok {
        sessions_end(
            Session { action, phase: Phase::Connecting },
            CallView::Connect(cfg->Ok_0@),
            events,
        );
    }
}

proof fn run_stays_done(turn: TurnView, events: Seq<Event>)
    requires
        turn is Done,
    ensures
        run(turn, events) == turn,
{
}

proof fn sessions_end(session: Session, call: CallView, events: Seq<Event>)
    requires
        plausible(TurnView::Call(session, call), events),
        events.len() + phase_rank(session.phase) >= 4,
    ensures
        run(TurnView::Call(session, call), events) is Done,
    decreases events.len(),
{
    if events.len() > 0 {
        calls_advance(session, events.first());
        if let TurnView::Call(next, next_call) = session.turn(events.first()) {
            sessions_end(next, next_call, events.drop_first());
        } else {
            run_stays_done(session.turn(events.first()), events.drop_first());
        }
    }
}

proof fn phase_counts_the_events(session: Session, call: CallView, events: Seq<Event>)
    requires
        plausible(TurnView::Call(session, call), events),
        call is SetInfo ==> session.phase == Phase::Sending,
        call is Connect ==> session.phase == Phase::Connecting,
    ensures
        run(TurnView::Call(session, call), events) matches TurnView::Call(last, last_call) ==> {
            &&& last.action == session.action
            &&& phase_rank(last.phase) == phase_rank(session.phase) + events.len()
            &&& last_call is SetInfo ==> last.phase == Phase::Sending
            &&& last_call is Connect ==> last.phase == Phase::Connecting
        },
    decreases events.len(),
{
    if events.len() > 0 {
        calls_advance(session, events.first());
        if let TurnView::Call(next, next_call) = session.turn(events.first()) {
            phase_counts_the_events(next, next_call, events.drop_first());
        } else {
            run_stays_done(session.turn(events.first()), events.drop_first());
        }
    }
}

/// A request connects once, at its start, and with just the settings of the configuration.
pub proof fn requests_connect_with_the_settings(
    cfg: Result<Config, &'static str>,
    action: Action,
    events: Seq<Event>,
    settings: ConfigView,
)
    requires
        plausible(opening(cfg, action), events),
        run(opening(cfg, action), events) matches TurnView::Call(_, call) && call
            == CallView::Connect(settings),
    ensures
        events.len() == 0,
        cfg matches Ok(c) && c@ == settings,
{
    if let Ok(c) = cfg {
        phase_counts_the_events(
            Session { action, phase: Phase::Connecting },
            CallView::Connect(c@),
            events,
        );
    }
}

/// A request sends a change only once: after connecting and after the first report. The report is
/// of a supported strip, the action is not the status, and the change is the one that the action
/// makes to the reported state.
pub proof fn changes_follow_the_report(
    cfg: Result<Config, &'static str>,
    action: Action,
    events: Seq<Event>,
    p: Payload,
)
    requires
        plausible(opening(cfg, action), events),
        run(opening(cfg, action), events) matches TurnView::Call(_, call) && call
            == CallView::SetInfo(p),
    ensures
        events.len() == 2,
        events[0] is Connected,
        action != Action::Status,
        events[1] matches Event::Info(state) && supported(state) && crate::control::change(
            &state,
            action,
        ) == Ok::<Payload, Seq<char>>(p),
{
    let first = Session { action, phase: Phase::Connecting };
    let connect = CallView::Connect(cfg->Ok_0@);
    phase_counts_the_events(first, connect, events);
    let rest = events.drop_first();
    if let TurnView::Call(second, call) = first.turn(events[0]) {
        assert(run(TurnView::Call(first, connect), events) == run(
            first.turn(events[0]),
            rest,
        ));
        assert(rest[0] == events[1]);
        assert(run(first.turn(events[0]), rest) == run(second.turn(events[1]), rest.drop_first()));
        assert(rest.drop_first().len() == 0);
    } else {
        run_stays_done(first.turn(events[0]), rest);
    }
}

proof fn two_events(session: Session, call: CallView, a: Event, b: Event)
    requires
        session.phase == Phase::Connecting,
        a is Connected,
    ensures
        run(TurnView::Call(session, call), seq![a, b]) == session.at(Phase::Inspecting).turn(b),
{
    let events = seq![a, b];
    let rest = events.drop_first();
    assert(run(TurnView::Call(session, call), events) == run(session.turn(a), rest));
    assert(rest[0] == b);
    assert(run(session.turn(a), rest) == run(
        session.at(Phase::Inspecting).turn(b),
        rest.drop_first(),
    ));
    assert(rest.drop_first().len() == 0);
}

/// A request for the status of a supported strip shows its report.
pub proof fn status_request_shows_the_report(cfg: Config, state: State)
    requires
        supported(state),
    ensures
        run(opening(Ok(cfg), Action::Status), seq![Event::Connected, Event::Info(state)])
            == TurnView::Done(state.status()),
{
    two_events(
        Session { action: Action::Status, phase: Phase::Connecting },
        CallView::Connect(cfg@),
        Event::Connected,
        Event::Info(state),
    );
}

/// A control request sends the change of its action and shows what the strip reports then.
pub proof fn control_request_sends_and_confirms(
    cfg: Config,
    action: Action,
    before: State,
    later: State,
    p: Payload,
)
    requires
        action != Action::Status,
        supported(before),
        crate::control::change(&before, action) == Ok::<Payload, Seq<char>>(p),
    ensures
        run(opening(Ok(cfg), action), seq![Event::Connected, Event::Info(before)])
            == TurnView::Call(Session { action, phase: Phase::Sending }, CallView::SetInfo(p)),
        run(
            TurnView::Call(Session { action, phase: Phase::Sending }, CallView::SetInfo(p)),
            seq![Event::Sent, Event::Info(later)],
        ) == TurnView::Done(later.status()),
{
    two_events(
        Session { action, phase: Phase::Connecting },
        CallView::Connect(cfg@),
        Event::Connected,
        Event::Info(before),
    );
    let events = seq![Event::Sent, Event::Info(later)];
    let sending = Session { action, phase: Phase::Sending };
    let rest = events.drop_first();
    assert(run(TurnView::Call(sending, CallView::SetInfo(p)), events) == run(
        sending.turn(Event::Sent),
        rest,
    ));
    assert(rest[0] == Event::Info(later));
    run_stays_done(sending.at(Phase::Confirming).turn(Event::Info(later)), rest.drop_first());
}

/// A request that the strip's state or model does not allow ends with the reason and sends
/// nothing.
pub proof fn refused_request_sends_nothing(cfg: Config, action: Action, state: State)
    requires
        !supported(state) || (action != Action::Status && crate::control::change(
            &state,
            action,
        ) is Err),
    ensures
        run(opening(Ok(cfg), action), seq![Event::Connected, Event::Info(state)])
            == TurnView::Done(
            crate::output::failed(
                if !supported(state) {
                    "This module is configured for an L900 LED strip."@
                } else {
                    crate::control::change(&state, action)->Err_0
                },
            ),
        ),
{
    two_events(
        Session { action, phase: Phase::Connecting },
        CallView::Connect(cfg@),
        Event::Connected,
        Event::Info(state),
    );
}

/// A request that runs out of time shows the strip as unreachable, whatever its phase.
pub proof fn timeouts_show_offline(session: Session)
    ensures
        session.turn(Event::TimedOut) == TurnView::Done(crate::output::unreachable_line()),
{
}

/// A strip is supported exactly when its model begins with `L900`.
pub proof fn supported_models(state: State)
    ensures
        supported(state) <==> state.model@.len() >= 4 && state.model@[0] == 'L' && state.model@[1]
            == '9' && state.model@[2] == '0' && state.model@[3] == '0',
{
    reveal_strlit("L900");
    let prefix = "L900"@;
    assert(prefix =~= seq!['L', '9', '0', '0']);
    if state.model@.len() >= 4 && state.model@[0] == 'L' && state.model@[1] == '9'
        && state.model@[2] == '0' && state.model@[3] == '0' {
        assert(prefix =~= state.model@.subrange(0, 4));
    }
    if supported(state) {
        assert(prefix == state.model@.subrange(0, 4));
        assert(prefix[0] == state.model@[0] && prefix[1] == state.model@[1] && prefix[2]
            == state.model@[2] && prefix[3] == state.model@[3]);
    }
}

/// A failed call shows the strip as unreachable if it failed while connecting, by a timeout, or
/// for want of the device; it shows a failed login as such, and any other failure in general terms.
pub proof fn failed_calls_are_told_apart(
    is_connect: bool,
    is_timeout: bool,
    kind: String,
    description: String,
)
    ensures
        error_line(Error::Http { is_connect, is_timeout }) == (if is_connect || is_timeout {
            crate::output::unreachable_line()
        } else {
            crate::output::failed(
                "Tapo request failed. Check the device, credentials and local connection."@,
            )
        }),
        error_line(Error::DeviceNotFound) == crate::output::unreachable_line(),
        error_line(Error::Tapo(TapoResponseError::Unauthorized { kind, description }))
            == crate::output::failed(
            "Tapo authentication failed. Check the credentials in waybar/tapo.json."@,
        ),
        error_line(Error::Tapo(TapoResponseError::Other)) == crate::output::failed(
            "Tapo request failed. Check the device, credentials and local connection."@,
        ),
        error_line(Error::Other) == crate::output::failed(
            "Tapo request failed. Check the device, credentials and local connection."@,
        ),
{
}

/// A request for an action begins by connecting for that action, or, without settings, ends with
/// the reason.
pub proof fn requests_begin_by_connecting(cfg: Config, reason: &'static str, action: Action)
    ensures
        opening(Ok(cfg), action) == TurnView::Call(
            Session { action, phase: Phase::Connecting },
            CallView::Connect(cfg@),
        ),
        opening(Err(reason), action) == TurnView::Done(crate::output::failed(reason@)),
{
}

/// A session asks for a report as soon as it is connected, and again as soon as it has sent a
/// change; it shows the second report as it is.
pub proof fn reports_are_asked_for(session: Session, state: State)
    ensures
        session.turn(Event::Connected) == TurnView::Call(
            Session { action: session.action, phase: Phase::Inspecting },
            CallView::GetInfo,
        ),
        session.turn(Event::Sent) == TurnView::Call(
            Session { action: session.action, phase: Phase::Confirming },
            CallView::GetInfo,
        ),
        session.phase == Phase::Confirming ==> session.turn(Event::Info(state)) == TurnView::Done(
            state.status(),
        ),
{
}

/// A session shows a failed call as that failure, in whatever phase.
pub proof fn failed_calls_end_the_session(session: Session, err: Error)
    ensures
        session.turn(Event::Failed(err)) == TurnView::Done(error_line(err)),
{
}

/// An event is awaited exactly when it answers the call that the phase stands for, or ends the
/// session.
pub proof fn events_answer_their_call(session: Session, state: State, err: Error)
    ensures
        session.spec_awaits(Event::Connected) <==> session.phase == Phase::Connecting,
        session.spec_awaits(Event::Info(state)) <==> session.phase == Phase::Inspecting
            || session.phase == Phase::Confirming,
        session.spec_awaits(Event::Sent) <==> session.phase == Phase::Sending,
        session.spec_awaits(Event::Failed(err)),
        session.spec_awaits(Event::TimedOut),
{
}

/// Two calls that run out of time use up the time of a whole request, which is eight seconds.
pub proof fn calls_fit_in_a_request(calls: nat)
    ensures
        calls * CALL_TIMEOUT_SECS <= REQUEST_TIMEOUT_SECS <==> calls <= 2,
        REQUEST_TIMEOUT_SECS == 8,
{
}

/// The models of calls and turns are those of what they hold.
pub proof fn turns_are_what_they_hold(session: Session, cfg: Config, p: Payload, out: Output)
    ensures
        Turn::Call(session, Call::Connect(cfg))@ == TurnView::Call(
            session,
            CallView::Connect(cfg@),
        ),
        Turn::Call(session, Call::GetInfo)@ == TurnView::Call(session, CallView::GetInfo),
        Turn::Call(session, Call::SetInfo(p))@ == TurnView::Call(session, CallView::SetInfo(p)),
        Turn::Done(out)@ == TurnView::Done(out@),
{
}

} // verus!
