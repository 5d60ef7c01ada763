//! Steady-state forwarding between the two ends of a channel pair.
//!
//! Each pair is relayed in both directions, and each direction is a small
//! state machine of its own: it is told what the last socket operation gave
//! and answers with the next one. A packet that came in is handed to the
//! machine and comes back with the order to send it.
use vstd::prelude::*;

verus! {

/// The two subchannels of a connection.
#[derive(Clone, Copy, Debug, PartialEq, Eq, Structural)]
pub enum Channel {
    /// Configuration and commands, at a low rate.
    Control,
    /// Input reports, rumble and lights, at a high rate.
    Interrupt,
}

/// The two ends of a channel pair.
#[derive(Clone, Copy, Debug, PartialEq, Eq, Structural)]
pub enum End {
    /// The socket that faces the controller.
    Controller,
    /// The socket that faces the console.
    Console,
}

/// How one channel pair is relayed.
#[derive(Clone, Copy, Debug, PartialEq, Eq, Structural)]
pub enum RelayMode {
    /// Receive, send, repeat, on the shared scheduler.
    Cooperative,
    /// Blocking receive and spun send on a context of its own.
    LowLatency,
}

/// What one direction is waiting for.
#[derive(Clone, Copy, Debug, PartialEq, Eq, Structural)]
pub enum RelayStage {
    /// A packet from the source.
    Receiving,
    /// The end of the send of the last packet to the sink.
    Sending,
    /// Nothing: the source has closed.
    Closed,
    /// Nothing: an outcome was reported that answers no pending operation.
    Failed,
}

/// The outcome of the operation asked for last.
#[derive(Clone, Debug, PartialEq, Eq)]
pub enum RelayEvent {
    /// These bytes came from the source; none at all if it has closed.
    Received(Vec<u8>),
    /// The send is through.
    Sent,
    /// The sink cannot take the packet right now.
    SendPending,
}

/// A [`RelayEvent`] with its packet as a sequence of bytes.
pub enum RelayEventView {
    Received(Seq<u8>),
    Sent,
    SendPending,
}

impl View for RelayEvent {
    type V = RelayEventView;

    open spec fn view(&self) -> RelayEventView {
        match *self {
            RelayEvent::Received(p) => RelayEventView::Received(p@),
            RelayEvent::Sent => RelayEventView::Sent,
            RelayEvent::SendPending => RelayEventView::SendPending,
        }
    }
}

/// The operation to perform next.
#[derive(Clone, Debug, PartialEq, Eq)]
pub enum RelayAction {
    /// Receive one packet from the source.
    Receive,
    /// Send these bytes to the sink.
    Send(Vec<u8>),
    /// Try the same send again, at once.
    SendAgain,
    /// End this direction without an error.
    Stop,
    /// End this direction with an error.
    Abort,
}

/// A [`RelayAction`] with its packet as a sequence of bytes.
pub enum RelayActionView {
    Receive,
    Send(Seq<u8>),
    SendAgain,
    Stop,
    Abort,
}

impl View for RelayAction {
    type V = RelayActionView;

    open spec fn view(&self) -> RelayActionView {
        match *self {
            RelayAction::Receive => RelayActionView::Receive,
            RelayAction::Send(p) => RelayActionView::Send(p@),
            RelayAction::SendAgain => RelayActionView::SendAgain,
            RelayAction::Stop => RelayActionView::Stop,
            RelayAction::Abort => RelayActionView::Abort,
        }
    }
}

/// What becomes of a received packet.
#[derive(Clone, Copy, Debug, PartialEq, Eq, Structural)]
pub enum Verdict {
    /// It is sent on.
    Forward,
    /// It is dropped, and the direction goes on.
    Skip,
    /// It is dropped, and the direction ends.
    Close,
}

/// What becomes of a packet of `len` bytes: every packet that has bytes is
/// sent on; an empty one is skipped in cooperative mode and ends a
/// low-latency direction.
pub open spec fn verdict(mode: RelayMode, len: nat) -> Verdict {
    if len > 0 {
        Verdict::Forward
    } else if mode == RelayMode::Cooperative {
        Verdict::Skip
    } else {
        Verdict::Close
    }
}

/// The stage that follows `stage` on `event`, and the operation asked for.
pub open spec fn relay_transition(mode: RelayMode, stage: RelayStage, event: RelayEventView) -> (
    RelayStage,
    RelayActionView,
) {
    match (stage, event) {
        (RelayStage::Receiving, RelayEventView::Received(p)) => match verdict(mode, p.len()) {
            Verdict::Forward => (RelayStage::Sending, RelayActionView::Send(p)),
            Verdict::Skip => (RelayStage::Receiving, RelayActionView::Receive),
            Verdict::Close => (RelayStage::Closed, RelayActionView::Stop),
        },
        (RelayStage::Sending, RelayEventView::Sent) => (
            RelayStage::Receiving,
            RelayActionView::Receive,
        ),
        (RelayStage::Sending, RelayEventView::SendPending) => (
            RelayStage::Sending,
            RelayActionView::SendAgain,
        ),
        (RelayStage::Closed, _) => (RelayStage::Closed, RelayActionView::Stop),
        _ => (RelayStage::Failed, RelayActionView::Abort),
    }
}

/// The mode in which a channel's pair is relayed: the control pair
/// cooperatively, the interrupt pair with low latency.
pub fn mode_for(channel: Channel) -> (out: RelayMode)
    ensures
        out == (match channel {
            Channel::Control => RelayMode::Cooperative,
            Channel::Interrupt => RelayMode::LowLatency,
        }),
{
    match channel {
        Channel::Control => RelayMode::Cooperative,
        Channel::Interrupt => RelayMode::LowLatency,
    }
}

/// The channel number on which a subchannel is reached: 17 for control, 19
/// for interrupt.
pub fn channel_number(channel: Channel) -> (out: u16)
    ensures
        out == (match channel {
            Channel::Control => 17u16,
            Channel::Interrupt => 19u16,
        }),
{
    match channel {
        Channel::Control => 17,
        Channel::Interrupt => 19,
    }
}

/// Whether the running id of reports is rewritten on the send path of a
/// socket: only on the interrupt channel, on the end that faces the console.
pub fn rewrites_reports(channel: Channel, end: End) -> (out: bool)
    ensures
        out == (channel == Channel::Interrupt && end == End::Console),
{
    match (channel, end) {
        (Channel::Interrupt, End::Console) => true,
        _ => false,
    }
}

/// Whether both sockets of a pair must be made blocking before the pair is
/// relayed in `mode`: exactly in low-latency mode.
pub fn needs_blocking_sockets(mode: RelayMode) -> (out: bool)
    ensures
        out == (mode == RelayMode::LowLatency),
{
    match mode {
        RelayMode::Cooperative => false,
        RelayMode::LowLatency => true,
    }
}

/// One direction of one channel pair.
#[derive(Clone, Copy, Debug, PartialEq, Eq, Structural)]
pub struct RelayDirection {
    pub mode: RelayMode,
    pub stage: RelayStage,
}

impl RelayDirection {
    /// A direction that waits for its first packet.
    pub fn new(mode: RelayMode) -> (out: Self)
        ensures
            out == (RelayDirection { mode, stage: RelayStage::Receiving }),
    {
        RelayDirection { mode, stage: RelayStage::Receiving }
    }

    /// The first operation of every direction: receive.
    pub fn first_action() -> (out: RelayAction)
        ensures
            out@ == RelayActionView::Receive,
    {
        RelayAction::Receive
    }

    /// Takes the outcome of the operation asked for last and answers with
    /// the next one. A packet that is sent on comes back as it was handed
    /// in. The mode never changes.
    pub fn step(&mut self, event: RelayEvent) -> (action: RelayAction)
        ensures
            final(self).mode == old(self).mode,
            final(self).stage == relay_transition(old(self).mode, old(self).stage, event@).0,
            action@ == relay_transition(old(self).mode, old(self).stage, event@).1,
    {
        match (self.stage, event) {
            (RelayStage::Receiving, RelayEvent::Received(p)) => {
                if p.len() > 0 {
                    self.stage = RelayStage::Sending;
                    RelayAction::Send(p)
                } else {
                    match self.mode {
                        RelayMode::Cooperative => RelayAction::Receive,
                        RelayMode::LowLatency => {
                            self.stage = RelayStage::Closed;
                            RelayAction::Stop
                        },
                    }
                }
            },
            (RelayStage::Sending, RelayEvent::Sent) => {
                self.stage = RelayStage::Receiving;
                RelayAction::Receive
            },
            (RelayStage::Sending, RelayEvent::SendPending) => RelayAction::SendAgain,
            (RelayStage::Closed, _) => RelayAction::Stop,
            _ => {
                self.stage = RelayStage::Failed;
                RelayAction::Abort
            },
        }
    }
}

/// A direction in the course of a series of outcomes: its stage, the packet
/// whose send was asked for last, and the packets whose send is through, in
/// the order of their sends.
pub struct Run {
    pub stage: RelayStage,
    pub pending: Seq<u8>,
    pub delivered: Seq<Seq<u8>>,
}

/// A direction before anything happened.
pub open spec fn fresh_run() -> Run {
    Run { stage: RelayStage::Receiving, pending: Seq::empty(), delivered: Seq::empty() }
}

/// The run after one more outcome. A packet counts as delivered when the
/// send that was pending is reported through.
pub open spec fn run_step(mode: RelayMode, r: Run, event: RelayEventView) -> Run {
    Run {
        stage: relay_transition(mode, r.stage, event).0,
        pending: match relay_transition(mode, r.stage, event).1 {
            RelayActionView::Send(p) => p,
            _ => r.pending,
        },
        delivered: if r.stage == RelayStage::Sending && event is Sent {
            r.delivered.push(r.pending)
        } else {
            r.delivered
        },
    }
}

/// The run after a whole series of outcomes.
pub open spec fn run(mode: RelayMode, trace: Seq<RelayEventView>) -> Run
    decreases trace.len(),
{
    if trace.len() == 0 {
        fresh_run()
    } else {
        run_step(mode, run(mode, trace.drop_last()), trace.last())
    }
}

/// The packets that came in during a series of outcomes, in order.
pub open spec fn fed(trace: Seq<RelayEventView>) -> Seq<Seq<u8>>
    decreases trace.len(),
{
    if trace.len() == 0 {
        Seq::empty()
    } else {
        match trace.last() {
            RelayEventView::Received(p) => fed(trace.drop_last()).push(p),
            _ => fed(trace.drop_last()),
        }
    }
}

/// The packets among `packets` that have bytes, in order.
pub open spec fn with_bytes(packets: Seq<Seq<u8>>) -> Seq<Seq<u8>>
    decreases packets.len(),
{
    if packets.len() == 0 {
        Seq::empty()
    } else if packets.last().len() > 0 {
        with_bytes(packets.drop_last()).push(packets.last())
    } else {
        with_bytes(packets.drop_last())
    }
}

/// The packets that a run has taken charge of: those delivered, and the one
/// whose send is pending.
pub open spec fn accepted(r: Run) -> Seq<Seq<u8>> {
    if r.stage == RelayStage::Sending {
        r.delivered.push(r.pending)
    } else {
        r.delivered
    }
}

/// A direction that is still running has taken charge of every packet with
/// bytes that came in, once each and in the order of arrival; between two
/// packets all of them are delivered. Sends that had to be tried again
/// change nothing in this. In low-latency mode no empty packet has come in
/// while the direction runs, so there these are all packets.
pub proof fn law_relay_in_order_exactly_once(mode: RelayMode, trace: Seq<RelayEventView>)
    requires
        run(mode, trace).stage == RelayStage::Receiving || run(mode, trace).stage
            == RelayStage::Sending,
    ensures
        accepted(run(mode, trace)) == with_bytes(fed(trace)),
        run(mode, trace).stage == RelayStage::Receiving ==> run(mode, trace).delivered
            == with_bytes(fed(trace)),
        mode == RelayMode::LowLatency ==> with_bytes(fed(trace)) == fed(trace),
    decreases trace.len(),
{
    if trace.len() > 0 {
        let before = trace.drop_last();
        let r = run(mode, before);
        assert(r.stage == RelayStage::Receiving || r.stage == RelayStage::Sending);
        law_relay_in_order_exactly_once(mode, before);
        match trace.last() {
            RelayEventView::Received(p) => {
                let all = fed(before).push(p);
                assert(all.drop_last() =~= fed(before));
                assert(all.last() == p);
            },
            _ => {},
        }
    }
}

/// In cooperative mode a receive never ends the direction, whatever came: an
/// empty packet is skipped and the direction receives again, any other is
/// sent on as it is.
pub proof fn law_cooperative_receive_goes_on(p: Seq<u8>)
    ensures
        relay_transition(RelayMode::Cooperative, RelayStage::Receiving, RelayEventView::Received(p))
            == (if p.len() == 0 {
            (RelayStage::Receiving, RelayActionView::Receive)
        } else {
            (RelayStage::Sending, RelayActionView::Send(p))
        }),
{
}

/// In cooperative mode nothing that comes in ever closes the direction.
pub proof fn law_cooperative_never_closes(trace: Seq<RelayEventView>)
    ensures
        run(RelayMode::Cooperative, trace).stage != RelayStage::Closed,
    decreases trace.len(),
{
    if trace.len() > 0 {
        law_cooperative_never_closes(trace.drop_last());
    }
}

/// A send that the sink cannot take yet is tried again and delivers nothing
/// by itself.
pub proof fn law_pending_send_retried(mode: RelayMode, r: Run)
    requires
        r.stage == RelayStage::Sending,
    ensures
        run_step(mode, r, RelayEventView::SendPending) == r,
        relay_transition(mode, r.stage, RelayEventView::SendPending).1
            == RelayActionView::SendAgain,
{
}

} // verus!
