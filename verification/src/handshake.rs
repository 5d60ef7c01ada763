//! The paced negotiation that precedes free-running relay on the interrupt
//! channel pair.
//!
//! The coordinator is a state machine. It never touches a socket or a clock:
//! each call of [`HandshakeCoordinator::step`] takes the outcome of the last
//! operation and the current time, and answers with the next operation to
//! perform. Whoever owns the sockets performs it and reports back; a
//! transport failure is not reported but ends the session there.
use vstd::prelude::*;
use crate::address::{replace_mac, rewritten, Address};

verus! {

/// How long the console is given to send its first packet before the
/// controller side is served again, in milliseconds.
pub const FIRST_PACKET_TIMEOUT_MS: u64 = 1000;

/// Period of the paced exchange, and the budget of one wait for an
/// acknowledgement, in milliseconds.
pub const PACE_MS: u64 = 66;

/// Pause before the last drain, in milliseconds.
pub const MENU_PAUSE_MS: u64 = 5000;

/// Offset of the byte that marks a light command in a console packet.
pub const LIGHT_MARKER_OFFSET: usize = 11;

/// Value of that byte in a light command.
pub const LIGHT_MARKER: u8 = 0x30;

/// Offset of the byte that carries the acknowledgement bit in a controller
/// packet.
pub const ACK_OFFSET: usize = 14;

/// A console packet that commands the player lights: it has a byte 11, and
/// that byte is 0x30.
pub open spec fn is_light_command(packet: Seq<u8>) -> bool {
    packet.len() > 11 && packet[11] == 0x30
}

/// A controller packet that acknowledges a command: it has a byte 14, and
/// the top bit of that byte is set.
pub open spec fn is_ack(packet: Seq<u8>) -> bool {
    packet.len() > 14 && packet[14] >= 0x80
}

/// The wait for an acknowledgement that began at `start_ms` has used up its
/// budget at `now_ms`.
pub open spec fn ack_wait_expired(start_ms: u64, now_ms: u64) -> bool {
    now_ms - start_ms > 66
}

/// Whether `packet` commands the player lights.
pub fn light_command(packet: &Vec<u8>) -> (out: bool)
    ensures
        out == is_light_command(packet@),
{
    packet.len() > LIGHT_MARKER_OFFSET && packet[LIGHT_MARKER_OFFSET] == LIGHT_MARKER
}

/// Whether `packet` carries the acknowledgement bit.
pub fn ack(packet: &Vec<u8>) -> (out: bool)
    ensures
        out == is_ack(packet@),
{
    if packet.len() > ACK_OFFSET {
        let b: u8 = packet[ACK_OFFSET];
        assert((b & 0x80 != 0) == (b >= 0x80)) by (bit_vector);
        b & 0x80 != 0
    } else {
        false
    }
}

/// The phases of the negotiation, and the two ways it ends.
#[derive(Clone, Copy, Debug, PartialEq, Eq, Structural)]
pub enum Phase {
    /// Controller packets are passed on until the console speaks.
    Drain,
    /// The console's first packet is passed to the controller.
    Capture,
    /// Packets are exchanged at the paced rate.
    PacedExchange,
    /// The backlog of the controller side is thrown away.
    Done,
    /// The negotiation is over; relay may begin.
    Finished,
    /// An outcome was reported that answers no pending operation.
    Failed,
}

/// What the coordinator is waiting for.
#[derive(Clone, Copy, Debug, PartialEq, Eq, Structural)]
pub enum Stage {
    /// Drain: a packet from the controller.
    DrainReceive,
    /// Drain: the end of the send of that packet to the console.
    DrainForward,
    /// Drain: the console's first packet, or the timeout.
    AwaitConsole,
    /// Capture: the end of the send of the console's first packet.
    Capture,
    /// Exchange: a packet from the controller.
    PacedReceive,
    /// Exchange: the end of the send of that packet to the console.
    PacedForward,
    /// Exchange: a reply of the console, if one is there.
    PacedPoll,
    /// Exchange: the end of the send of that reply to the controller.
    PacedReply,
    /// Exchange: the end of the pause after the reply.
    PacedReplyPause,
    /// Exchange: the controller's acknowledgement.
    AckWait,
    /// Exchange: the end of the send of the acknowledgement to the console.
    PacedAck,
    /// Exchange: the end of the pause that keeps the rate.
    PacedCadence,
    /// Done: the next packet of the controller's backlog, if one is there.
    DrainBacklog,
    /// Done: the end of the pause before the last drain.
    MenuPause,
    /// Done: the next packet of what came during the pause, if any.
    FinalDrain,
    /// Nothing: the negotiation is over.
    Finished,
    /// Nothing: the negotiation was aborted.
    Failed,
}

/// The phase that a stage belongs to.
pub open spec fn phase_of(stage: Stage) -> Phase {
    match stage {
        Stage::DrainReceive | Stage::DrainForward | Stage::AwaitConsole => Phase::Drain,
        Stage::Capture => Phase::Capture,
        Stage::PacedReceive
        | Stage::PacedForward
        | Stage::PacedPoll
        | Stage::PacedReply
        | Stage::PacedReplyPause
        | Stage::AckWait
        | Stage::PacedAck
        | Stage::PacedCadence => Phase::PacedExchange,
        Stage::DrainBacklog | Stage::MenuPause | Stage::FinalDrain => Phase::Done,
        Stage::Finished => Phase::Finished,
        Stage::Failed => Phase::Failed,
    }
}

/// The stages of one exchange round that follow a reply of the console.
pub open spec fn in_reply_round(stage: Stage) -> bool {
    stage == Stage::PacedReply || stage == Stage::PacedReplyPause || stage == Stage::AckWait
        || stage == Stage::PacedAck
}

/// The outcome of the operation that the coordinator asked for.
#[derive(Clone, Debug, PartialEq, Eq)]
pub enum Event {
    /// A packet came from the controller.
    ControllerPacket(Vec<u8>),
    /// A packet came from the console.
    ConsolePacket(Vec<u8>),
    /// No packet was there: the timeout ran out, or the poll found nothing.
    Nothing,
    /// The send is through.
    Sent,
    /// The pause is over.
    Slept,
}

/// An [`Event`] with its packet as a sequence of bytes.
pub enum EventView {
    ControllerPacket(Seq<u8>),
    ConsolePacket(Seq<u8>),
    Nothing,
    Sent,
    Slept,
}

impl View for Event {
    type V = EventView;

    open spec fn view(&self) -> EventView {
        match *self {
            Event::ControllerPacket(p) => EventView::ControllerPacket(p@),
            Event::ConsolePacket(p) => EventView::ConsolePacket(p@),
            Event::Nothing => EventView::Nothing,
            Event::Sent => EventView::Sent,
            Event::Slept => EventView::Slept,
        }
    }
}

/// The operation to perform next.
#[derive(Clone, Debug, PartialEq, Eq)]
pub enum Action {
    /// Wait for one packet from the controller.
    ReceiveController,
    /// Take one packet from the controller if one is there, without waiting.
    PollController,
    /// Wait for one packet from the console, this many milliseconds at most.
    WaitConsole(u64),
    /// Take one packet from the console if one is there, without waiting.
    PollConsole,
    /// Send these bytes to the controller.
    SendController(Vec<u8>),
    /// Send these bytes to the console.
    SendConsole(Vec<u8>),
    /// Pause for this many milliseconds.
    Sleep(u64),
    /// Nothing more: begin the relay.
    Finish,
    /// Nothing more: give up the session.
    Abort,
}

/// An [`Action`] with its packet as a sequence of bytes.
pub enum ActionView {
    ReceiveController,
    PollController,
    WaitConsole(u64),
    PollConsole,
    SendController(Seq<u8>),
    SendConsole(Seq<u8>),
    Sleep(u64),
    Finish,
    Abort,
}

impl View for Action {
    type V = ActionView;

    open spec fn view(&self) -> ActionView {
        match *self {
            Action::ReceiveController => ActionView::ReceiveController,
            Action::PollController => ActionView::PollController,
            Action::WaitConsole(ms) => ActionView::WaitConsole(ms),
            Action::PollConsole => ActionView::PollConsole,
            Action::SendController(p) => ActionView::SendController(p@),
            Action::SendConsole(p) => ActionView::SendConsole(p@),
            Action::Sleep(ms) => ActionView::Sleep(ms),
            Action::Finish => ActionView::Finish,
            Action::Abort => ActionView::Abort,
        }
    }
}

/// The coordinator as a mathematical value.
pub struct HandshakeModel {
    pub stage: Stage,
    /// The console's reply of this round was a light command.
    pub light_seen: bool,
    /// When the current wait for an acknowledgement began.
    pub ack_wait_start_ms: u64,
    /// The controller's address, looked for in controller packets.
    pub find: Seq<u8>,
    /// The address put in its place.
    pub replace: Seq<u8>,
}

impl HandshakeModel {
    /// The same coordinator at another stage.
    pub open spec fn at(self, stage: Stage) -> Self {
        HandshakeModel { stage, ..self }
    }
}

/// The coordinator after `event` at `now_ms`, and the operation it asks for.
pub open spec fn transition(m: HandshakeModel, event: EventView, now_ms: u64) -> (
    HandshakeModel,
    ActionView,
) {
    match (m.stage, event) {
        (Stage::DrainReceive, EventView::ControllerPacket(p)) => (
            m.at(Stage::DrainForward),
            ActionView::SendConsole(p),
        ),
        (Stage::DrainForward, EventView::Sent) => (
            m.at(Stage::AwaitConsole),
            ActionView::WaitConsole(1000),
        ),
        (Stage::AwaitConsole, EventView::Nothing) => (
            m.at(Stage::DrainReceive),
            ActionView::ReceiveController,
        ),
        (Stage::AwaitConsole, EventView::ConsolePacket(p)) => (
            m.at(Stage::Capture),
            ActionView::SendController(p),
        ),
        (Stage::Capture, EventView::Sent) => (
            m.at(Stage::PacedReceive),
            ActionView::ReceiveController,
        ),
        (Stage::PacedReceive, EventView::ControllerPacket(p)) => (
            m.at(Stage::PacedForward),
            ActionView::SendConsole(rewritten(p, m.find, m.replace)),
        ),
        (Stage::PacedForward, EventView::Sent) => (
            m.at(Stage::PacedPoll),
            ActionView::PollConsole,
        ),
        (Stage::PacedPoll, EventView::ConsolePacket(p)) => (
            HandshakeModel { stage: Stage::PacedReply, light_seen: is_light_command(p), ..m },
            ActionView::SendController(p),
        ),
        (Stage::PacedPoll, EventView::Nothing) => (
            HandshakeModel { stage: Stage::PacedCadence, light_seen: false, ..m },
            ActionView::Sleep(66),
        ),
        (Stage::PacedReply, EventView::Sent) => (
            m.at(Stage::PacedReplyPause),
            ActionView::Sleep(66),
        ),
        (Stage::PacedReplyPause, EventView::Slept) => (
            HandshakeModel { stage: Stage::AckWait, ack_wait_start_ms: now_ms, ..m },
            ActionView::ReceiveController,
        ),
        (Stage::AckWait, EventView::ControllerPacket(p)) => if is_ack(p) {
            (m.at(Stage::PacedAck), ActionView::SendConsole(p))
        } else if !ack_wait_expired(m.ack_wait_start_ms, now_ms) {
            (m, ActionView::ReceiveController)
        } else if m.light_seen {
            (m.at(Stage::DrainBacklog), ActionView::PollController)
        } else {
            (m.at(Stage::PacedReceive), ActionView::ReceiveController)
        },
        (Stage::PacedAck, EventView::Sent) => if m.light_seen {
            (m.at(Stage::DrainBacklog), ActionView::PollController)
        } else {
            (m.at(Stage::PacedCadence), ActionView::Sleep(66))
        },
        (Stage::PacedCadence, EventView::Slept) => (
            m.at(Stage::PacedReceive),
            ActionView::ReceiveController,
        ),
        (Stage::DrainBacklog, EventView::ControllerPacket(_)) => (m, ActionView::PollController),
        (Stage::DrainBacklog, EventView::Nothing) => (
            m.at(Stage::MenuPause),
            ActionView::Sleep(5000),
        ),
        (Stage::MenuPause, EventView::Slept) => (
            m.at(Stage::FinalDrain),
            ActionView::PollController,
        ),
        (Stage::FinalDrain, EventView::ControllerPacket(_)) => (m, ActionView::PollController),
        (Stage::FinalDrain, EventView::Nothing) => (m.at(Stage::Finished), ActionView::Finish),
        (Stage::Finished, _) => (m, ActionView::Finish),
        _ => (m.at(Stage::Failed), ActionView::Abort),
    }
}

/// The state of one negotiation.
pub struct HandshakeCoordinator {
    stage: Stage,
    light_seen: bool,
    ack_wait_start_ms: u64,
    controller_address: Address,
    console_address: Address,
}

impl View for HandshakeCoordinator {
    type V = HandshakeModel;

    closed spec fn view(&self) -> HandshakeModel {
        HandshakeModel {
            stage: self.stage,
            light_seen: self.light_seen,
            ack_wait_start_ms: self.ack_wait_start_ms,
            find: self.controller_address@,
            replace: self.console_address@,
        }
    }
}

impl HandshakeCoordinator {
    /// A coordinator at the start of the drain phase, which waits for the
    /// first packet of the controller. In controller packets of the paced
    /// exchange it will put `console_address` where `controller_address`
    /// stands.
    pub fn new(controller_address: Address, console_address: Address) -> (out: Self)
        ensures
            out@ == (HandshakeModel {
                stage: Stage::DrainReceive,
                light_seen: false,
                ack_wait_start_ms: 0,
                find: controller_address@,
                replace: console_address@,
            }),
    {
        HandshakeCoordinator {
            stage: Stage::DrainReceive,
            light_seen: false,
            ack_wait_start_ms: 0,
            controller_address,
            console_address,
        }
    }

    /// The first operation of every negotiation: wait for a controller packet.
    pub fn first_action() -> (out: Action)
        ensures
            out@ == ActionView::ReceiveController,
    {
        Action::ReceiveController
    }

    /// What the coordinator is waiting for.
    pub fn stage(&self) -> (out: Stage)
        ensures
            out == self@.stage,
    {
        self.stage
    }

    /// The phase of the negotiation.
    pub fn phase(&self) -> (out: Phase)
        ensures
            out == phase_of(self@.stage),
    {
        match self.stage {
            Stage::DrainReceive | Stage::DrainForward | Stage::AwaitConsole => Phase::Drain,
            Stage::Capture => Phase::Capture,
            Stage::PacedReceive
            | Stage::PacedForward
            | Stage::PacedPoll
            | Stage::PacedReply
            | Stage::PacedReplyPause
            | Stage::AckWait
            | Stage::PacedAck
            | Stage::PacedCadence => Phase::PacedExchange,
            Stage::DrainBacklog | Stage::MenuPause | Stage::FinalDrain => Phase::Done,
            Stage::Finished => Phase::Finished,
            Stage::Failed => Phase::Failed,
        }
    }

    /// Whether the console's reply of the current round was a light command.
    pub fn light_seen(&self) -> (out: bool)
        ensures
            out == self@.light_seen,
    {
        self.light_seen
    }

    /// Takes the outcome of the operation asked for last, and the time in
    /// milliseconds on a clock that does not go back, and answers with the
    /// next operation. An outcome that answers no pending operation aborts
    /// the negotiation.
    pub fn step(&mut self, event: Event, now_ms: u64) -> (action: Action)
        ensures
            final(self)@ == transition(old(self)@, event@, now_ms).0,
            action@ == transition(old(self)@, event@, now_ms).1,
    {
        match (self.stage, event) {
            (Stage::DrainReceive, Event::ControllerPacket(p)) => {
                self.stage = Stage::DrainForward;
                Action::SendConsole(p)
            },
            (Stage::DrainForward, Event::Sent) => {
                self.stage = Stage::AwaitConsole;
                Action::WaitConsole(FIRST_PACKET_TIMEOUT_MS)
            },
            (Stage::AwaitConsole, Event::Nothing) => {
                self.stage = Stage::DrainReceive;
                Action::ReceiveController
            },
            (Stage::AwaitConsole, Event::ConsolePacket(p)) => {
                self.stage = Stage::Capture;
                Action::SendController(p)
            },
            (Stage::Capture, Event::Sent) => {
                self.stage = Stage::PacedReceive;
                Action::ReceiveController
            },
            (Stage::PacedReceive, Event::ControllerPacket(p)) => {
                let mut packet = p;
                replace_mac(&mut packet, &self.controller_address, &self.console_address);
                self.stage = Stage::PacedForward;
                Action::SendConsole(packet)
            },
            (Stage::PacedForward, Event::Sent) => {
                self.stage = Stage::PacedPoll;
                Action::PollConsole
            },
            (Stage::PacedPoll, Event::ConsolePacket(p)) => {
                self.light_seen = light_command(&p);
                self.stage = Stage::PacedReply;
                Action::SendController(p)
            },
            (Stage::PacedPoll, Event::Nothing) => {
                self.light_seen = false;
                self.stage = Stage::PacedCadence;
                Action::Sleep(PACE_MS)
            },
            (Stage::PacedReply, Event::Sent) => {
                self.stage = Stage::PacedReplyPause;
                Action::Sleep(PACE_MS)
            },
            (Stage::PacedReplyPause, Event::Slept) => {
                self.ack_wait_start_ms = now_ms;
                self.stage = Stage::AckWait;
                Action::ReceiveController
            },
            (Stage::AckWait, Event::ControllerPacket(p)) => {
                if ack(&p) {
                    self.stage = Stage::PacedAck;
                    Action::SendConsole(p)
                } else if !(now_ms > self.ack_wait_start_ms && now_ms - self.ack_wait_start_ms
                    > PACE_MS) {
                    Action::ReceiveController
                } else if self.light_seen {
                    self.stage = Stage::DrainBacklog;
                    Action::PollController
                } else {
                    self.stage = Stage::PacedReceive;
                    Action::ReceiveController
                }
            },
            (Stage::PacedAck, Event::Sent) => {
                if self.light_seen {
                    self.stage = Stage::DrainBacklog;
                    Action::PollController
                } else {
                    self.stage = Stage::PacedCadence;
                    Action::Sleep(PACE_MS)
                }
            },
            (Stage::PacedCadence, Event::Slept) => {
                self.stage = Stage::PacedReceive;
                Action::ReceiveController
            },
            (Stage::DrainBacklog, Event::ControllerPacket(_)) => Action::PollController,
            (Stage::DrainBacklog, Event::Nothing) => {
                self.stage = Stage::MenuPause;
                Action::Sleep(MENU_PAUSE_MS)
            },
            (Stage::MenuPause, Event::Slept) => {
                self.stage = Stage::FinalDrain;
                Action::PollController
            },
            (Stage::FinalDrain, Event::ControllerPacket(_)) => Action::PollController,
            (Stage::FinalDrain, Event::Nothing) => {
                self.stage = Stage::Finished;
                Action::Finish
            },
            (Stage::Finished, _) => Action::Finish,
            _ => {
                self.stage = Stage::Failed;
                Action::Abort
            },
        }
    }
}

/// The transition of `m` on `event` at `now_ms`: the state that follows.
pub open spec fn next_state(m: HandshakeModel, event: EventView, now_ms: u64) -> HandshakeModel {
    transition(m, event, now_ms).0
}

/// The transition of `m` on `event` at `now_ms`: the operation asked for.
pub open spec fn next_action(m: HandshakeModel, event: EventView, now_ms: u64) -> ActionView {
    transition(m, event, now_ms).1
}

/// The two addresses never change.
pub proof fn law_addresses_fixed(m: HandshakeModel, event: EventView, now_ms: u64)
    ensures
        next_state(m, event, now_ms).find == m.find,
        next_state(m, event, now_ms).replace == m.replace,
{
}

/// In the drain phase a controller packet is only ever expected when it will
/// be passed on: whenever a controller packet leaves the coordinator in the
/// drain phase, the operation asked for is the send of exactly that packet
/// to the console.
pub proof fn law_drain_forwards_controller_packets(m: HandshakeModel, p: Seq<u8>, now_ms: u64)
    ensures
        m.stage == Stage::DrainReceive ==> next_state(m, EventView::ControllerPacket(p), now_ms).stage
            == Stage::DrainForward && next_action(m, EventView::ControllerPacket(p), now_ms)
            == ActionView::SendConsole(p),
        phase_of(next_state(m, EventView::ControllerPacket(p), now_ms).stage) == Phase::Drain
            ==> m.stage == Stage::DrainReceive,
{
}

/// The drain phase ends exactly when a packet of the console is captured,
/// that packet goes to the controller as it is, and the paced exchange is
/// entered from nowhere but the capture, when that send is through.
pub proof fn law_exchange_begins_on_capture(m: HandshakeModel, event: EventView, now_ms: u64)
    ensures
        phase_of(m.stage) == Phase::Drain ==> (phase_of(next_state(m, event, now_ms).stage)
            == Phase::Capture <==> m.stage == Stage::AwaitConsole
            && event is ConsolePacket),
        phase_of(m.stage) == Phase::Drain ==> phase_of(next_state(m, event, now_ms).stage)
            == Phase::Drain || phase_of(next_state(m, event, now_ms).stage) == Phase::Capture
            || phase_of(next_state(m, event, now_ms).stage) == Phase::Failed,
        m.stage == Stage::AwaitConsole && event is ConsolePacket ==> next_action(
            m,
            event,
            now_ms,
        ) == ActionView::SendController(event->ConsolePacket_0),
        phase_of(m.stage) != Phase::PacedExchange && phase_of(
            next_state(m, event, now_ms).stage,
        ) == Phase::PacedExchange ==> m.stage == Stage::Capture && event is Sent,
        m.stage == Stage::Capture && event is Sent ==> next_state(m, event, now_ms).stage
            == Stage::PacedReceive,
{
}

/// In the paced exchange every controller packet goes to the console with
/// the controller's address replaced.
pub proof fn law_exchange_rewrites_address(m: HandshakeModel, p: Seq<u8>, now_ms: u64)
    requires
        m.stage == Stage::PacedReceive,
    ensures
        next_action(m, EventView::ControllerPacket(p), now_ms) == ActionView::SendConsole(
            rewritten(p, m.find, m.replace),
        ),
        next_state(m, EventView::ControllerPacket(p), now_ms).stage == Stage::PacedForward,
{
}

/// A reply of the console is a light command exactly if the coordinator
/// records one, and it goes to the controller as it is.
pub proof fn law_light_command_recorded(m: HandshakeModel, p: Seq<u8>, now_ms: u64)
    requires
        m.stage == Stage::PacedPoll,
    ensures
        next_state(m, EventView::ConsolePacket(p), now_ms).light_seen == is_light_command(p),
        next_state(m, EventView::ConsolePacket(p), now_ms).stage == Stage::PacedReply,
        next_action(m, EventView::ConsolePacket(p), now_ms) == ActionView::SendController(p),
{
}

/// Once a light command is recorded, the round it came in is the last: the
/// coordinator stays in that round with the record kept, or leaves the
/// exchange. It leaves when the acknowledgement has gone to the console, and
/// also when a packet that is no acknowledgement comes after the budget of
/// the wait is used up.
pub proof fn law_light_command_ends_exchange(m: HandshakeModel, event: EventView, now_ms: u64)
    requires
        in_reply_round(m.stage),
        m.light_seen,
    ensures
        (in_reply_round(next_state(m, event, now_ms).stage) && next_state(
            m,
            event,
            now_ms,
        ).light_seen) || next_state(m, event, now_ms).stage == Stage::DrainBacklog || next_state(
            m,
            event,
            now_ms,
        ).stage == Stage::Failed,
        m.stage == Stage::PacedAck && event is Sent ==> next_state(m, event, now_ms).stage
            == Stage::DrainBacklog,
        m.stage == Stage::AckWait && event is ControllerPacket && !is_ack(
            event->ControllerPacket_0,
        ) && ack_wait_expired(m.ack_wait_start_ms, now_ms) ==> next_state(m, event, now_ms).stage
            == Stage::DrainBacklog,
        m.stage == Stage::AckWait && event is ControllerPacket && is_ack(
            event->ControllerPacket_0,
        ) ==> next_state(m, event, now_ms).stage == Stage::PacedAck && next_action(
            m,
            event,
            now_ms,
        ) == ActionView::SendConsole(event->ControllerPacket_0),
{
}

/// One outcome and the time at which it is reported.
pub struct Timed {
    pub event: EventView,
    pub now_ms: u64,
}

/// The coordinator after a whole series of outcomes.
pub open spec fn state_after(m: HandshakeModel, trace: Seq<Timed>) -> HandshakeModel
    decreases trace.len(),
{
    if trace.len() == 0 {
        m
    } else {
        next_state(state_after(m, trace.drop_last()), trace.last().event, trace.last().now_ms)
    }
}

/// The packets that the coordinator asked to send to the console during a
/// series of outcomes, in order.
pub open spec fn console_sends(m: HandshakeModel, trace: Seq<Timed>) -> Seq<Seq<u8>>
    decreases trace.len(),
{
    if trace.len() == 0 {
        Seq::empty()
    } else {
        let earlier = console_sends(m, trace.drop_last());
        match next_action(
            state_after(m, trace.drop_last()),
            trace.last().event,
            trace.last().now_ms,
        ) {
            ActionView::SendConsole(p) => earlier.push(p),
            _ => earlier,
        }
    }
}

/// The packets that came from the controller during a series of outcomes, in
/// order.
pub open spec fn controller_packets(trace: Seq<Timed>) -> Seq<Seq<u8>>
    decreases trace.len(),
{
    if trace.len() == 0 {
        Seq::empty()
    } else {
        match trace.last().event {
            EventView::ControllerPacket(p) => controller_packets(trace.drop_last()).push(p),
            _ => controller_packets(trace.drop_last()),
        }
    }
}

/// Up to the capture of the console's first packet, every packet that came
/// from the controller has been passed to the console, as it came, once, and
/// in the order of arrival.
pub proof fn law_drain_forwards_everything(m: HandshakeModel, trace: Seq<Timed>)
    requires
        phase_of(m.stage) == Phase::Drain,
        phase_of(state_after(m, trace).stage) == Phase::Drain || phase_of(
            state_after(m, trace).stage,
        ) == Phase::Capture,
    ensures
        console_sends(m, trace) == controller_packets(trace),
    decreases trace.len(),
{
    if trace.len() > 0 {
        let before = state_after(m, trace.drop_last());
        assert(phase_of(before.stage) == Phase::Drain);
        law_drain_forwards_everything(m, trace.drop_last());
    }
}

/// The round in which a light command was recorded is the last one for
/// good: whatever is reported from then on, the coordinator is still in that
/// round with the record kept, or it has left the exchange and does not come
/// back to it.
pub proof fn law_light_command_is_last_round(m: HandshakeModel, trace: Seq<Timed>)
    requires
        in_reply_round(m.stage),
        m.light_seen,
    ensures
        (in_reply_round(state_after(m, trace).stage) && state_after(m, trace).light_seen)
            || phase_of(state_after(m, trace).stage) == Phase::Done || phase_of(
            state_after(m, trace).stage,
        ) == Phase::Finished || phase_of(state_after(m, trace).stage) == Phase::Failed,
    decreases trace.len(),
{
    if trace.len() > 0 {
        law_light_command_is_last_round(m, trace.drop_last());
    }
}

/// A negotiation that is over, or was aborted, stays so.
pub proof fn law_ends_are_final(m: HandshakeModel, event: EventView, now_ms: u64)
    ensures
        m.stage == Stage::Finished ==> next_state(m, event, now_ms).stage == Stage::Finished,
        m.stage == Stage::Failed ==> next_state(m, event, now_ms).stage == Stage::Failed,
{
}

} // verus!
