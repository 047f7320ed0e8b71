//! A one-shot channel whose whole state is one byte.
//!
//! The byte moves from `EMPTY` to `WRITING` when the sender claims the
//! channel, to `READY` once the message is written, and to `READING` when the
//! receiver takes it; it never moves back. Sending twice, or receiving with
//! no message ready, panics.
//!
//! [`Channel`] holds the byte; the message itself is stored by the caller
//! between [`Channel::start_send`] and [`SendPermit::publish`].
//! [`ChannelState`] and [`channel_step`] describe the protocol as a state
//! machine, and the laws below prove that at most one message is sent, that
//! it is received at most once, and that the receiver gets exactly what the
//! sender wrote.
use crate::effect::{cas_u8_on, store_u8_on, CasU8, StoreU8};
use crate::exchange::{exchanged, spec_exchanged};
use std::sync::atomic::AtomicU8;
use std::sync::atomic::Ordering;
use vstd::prelude::*;

verus! {

/// No message has been claimed.
pub const EMPTY: u8 = 0;

/// The sender has claimed the channel and is writing the message.
pub const WRITING: u8 = 1;

/// The message is written and may be received.
pub const READY: u8 = 2;

/// The receiver has taken the message.
pub const READING: u8 = 3;

/// Tells whether the byte says that a message is ready.
pub fn is_ready_state(state: u8) -> (r: bool)
    ensures
        r == (state == READY),
{
    state == READY
}

/// A compare-and-exchange of the state byte, from `expected` to `desired`.
pub struct ByteExchange {
    pub expected: u8,
    pub desired: u8,
}

/// The sender's claim: from `EMPTY` to `WRITING`.
pub open spec fn spec_send_exchange() -> ByteExchange {
    ByteExchange { expected: EMPTY, desired: WRITING }
}

/// Computes the sender's claim.
pub fn send_exchange() -> (e: ByteExchange)
    ensures
        e == spec_send_exchange(),
{
    ByteExchange { expected: EMPTY, desired: WRITING }
}

/// The receiver's take: from `READY` to `READING`.
pub open spec fn spec_receive_exchange() -> ByteExchange {
    ByteExchange { expected: READY, desired: READING }
}

/// Computes the receiver's take.
pub fn receive_exchange() -> (e: ByteExchange)
    ensures
        e == spec_receive_exchange(),
{
    ByteExchange { expected: READY, desired: READING }
}

/// One attempt to receive: what the receiver's exchange returned, and
/// whether it took the message.
pub struct ReceiveAttempt<'a> {
    pub outcome: Result<u8, u8>,
    pub taken: bool,
    pub exchange: CasU8<'a>,
}

/// One attempt to send: the permit, if the channel was claimed, and the
/// sender's exchange of the state byte.
pub struct SendAttempt<'a> {
    pub permit: Option<SendPermit<'a>>,
    pub exchange: CasU8<'a>,
}

/// A claim of `c`: the exchange of [`spec_send_exchange`] on the state byte;
/// the permit is handed out exactly when it took effect.
pub open spec fn send_attempt_done(c: Channel, r: SendAttempt) -> bool {
    &&& *r.exchange.target == c.state_byte()
    &&& r.exchange.expected == spec_send_exchange().expected
    &&& r.exchange.desired == spec_send_exchange().desired
    &&& r.permit is Some <==> spec_exchanged(r.exchange.outcome)
}

/// A receive of `c`: the exchange of [`spec_receive_exchange`] on the state
/// byte; the message is taken exactly when it took effect.
pub open spec fn receive_attempt_done(c: Channel, r: ReceiveAttempt) -> bool {
    &&& *r.exchange.target == c.state_byte()
    &&& r.exchange.expected == spec_receive_exchange().expected
    &&& r.exchange.desired == spec_receive_exchange().desired
    &&& r.outcome == r.exchange.outcome
    &&& r.taken == spec_exchanged(r.outcome)
}

/// A publish on `c`: it stores `READY` into the state byte.
pub open spec fn publish_done(c: Channel, r: StoreU8) -> bool {
    *r.target == c.state_byte() && r.value == READY
}

/// The channel's state byte.
pub struct Channel {
    state: AtomicU8,
}

/// The right to write the message of `channel` and publish it, held by the
/// one sender that claimed it.
pub struct SendPermit<'a> {
    channel: &'a Channel,
}

impl<'a> SendPermit<'a> {
    /// The channel this permit sends on.
    pub closed spec fn channel(&self) -> &'a Channel {
        self.channel
    }

    /// Publishes the written message: stores `READY`.
    pub fn publish(self) -> (r: StoreU8<'a>)
        ensures
            publish_done(*self.channel(), r),
    {
        store_u8_on(&self.channel.state, READY, Ordering::Release)
    }
}

impl Channel {
    /// The state byte.
    pub closed spec fn state_byte(&self) -> AtomicU8 {
        self.state
    }

    /// An empty channel.
    pub fn new() -> Self {
        Channel { state: AtomicU8::new(EMPTY) }
    }

    /// Claims the channel for sending: the exchange of
    /// [`spec_send_exchange`], from `EMPTY` to `WRITING`. `None` means a
    /// message was already sent (the send panics with "Can't send more than
    /// message!"). A permit returned sends on this channel.
    pub fn start_send(&self) -> (r: Option<SendPermit<'_>>)
        ensures
            r matches Some(p) ==> p.channel() == self,
    {
        self.send_attempt().permit
    }

    /// The claim of [`Channel::start_send`], together with its exchange.
    pub fn send_attempt(&self) -> (r: SendAttempt<'_>)
        ensures
            send_attempt_done(*self, r),
            r.permit matches Some(p) ==> p.channel() == self,
    {
        let e = send_exchange();
        let exchange = cas_u8_on(&self.state, e.expected, e.desired, Ordering::Relaxed, Ordering::Relaxed);
        let permit = if exchanged(&exchange.outcome) {
            Some(SendPermit { channel: self })
        } else {
            None
        };
        SendAttempt { permit, exchange }
    }

    /// Tells whether a message is ready to be received.
    pub fn is_ready(&self) -> bool {
        is_ready_state(self.state.load(Ordering::Relaxed))
    }

    /// Takes the message for receiving: the exchange of
    /// [`spec_receive_exchange`], from `READY` to `READING`. The message is
    /// taken exactly when the exchange took effect; otherwise no message was
    /// ready (the receive panics with "no message available!").
    pub fn start_receive(&self) -> (r: ReceiveAttempt<'_>)
        ensures
            r.taken == spec_exchanged(r.outcome),
            receive_attempt_done(*self, r),
    {
        let e = receive_exchange();
        let exchange = cas_u8_on(&self.state, e.expected, e.desired, Ordering::Acquire, Ordering::Relaxed);
        let outcome = exchange.outcome;
        let taken = exchanged(&outcome);
        ReceiveAttempt { outcome, taken, exchange }
    }
}

// What the channel operations do to the state byte.

/// A sender claims the channel only by an exchange of the state byte from
/// `EMPTY` to `WRITING` that took effect; a publish stores `READY`; a
/// receiver takes the message only by an exchange from `READY` to `READING`
/// that took effect, so it never takes a message that was not published.
pub proof fn lemma_channel_ops(c: Channel, s: SendAttempt, p: StoreU8, r: ReceiveAttempt)
    requires
        send_attempt_done(c, s),
        publish_done(c, p),
        receive_attempt_done(c, r),
    ensures
        *s.exchange.target == c.state_byte() && s.exchange.expected == EMPTY
            && s.exchange.desired == WRITING,
        s.permit is Some <==> s.exchange.outcome is Ok,
        *p.target == c.state_byte() && p.value == READY,
        *r.exchange.target == c.state_byte() && r.exchange.expected == READY
            && r.exchange.desired == READING,
        r.taken <==> r.exchange.outcome is Ok,
{
}

// The protocol as a state machine over the state byte.

/// The state byte together with the message slot and what the receiver
/// took out of it.
pub ghost struct ChannelState<M> {
    pub word: u8,
    pub message: Option<M>,
    pub received: Option<M>,
}

/// The steps of the protocol.
pub ghost enum ChannelStep<M> {
    /// The sender's compare-and-exchange from `EMPTY` to `WRITING`.
    StartSend,
    /// The permit holder writes `message` into the slot.
    Write { message: M },
    /// The permit holder's store of `READY`.
    Publish,
    /// The receiver's compare-and-exchange from `READY` to `READING`, which
    /// takes the message out of the slot.
    StartReceive,
}

/// The empty channel.
pub open spec fn channel_init<M>() -> ChannelState<M> {
    ChannelState { word: EMPTY, message: None, received: None }
}

/// The byte is one of the four states; a message is in the slot from
/// `READY` on; it was received exactly in `READING`, and then the receiver
/// got the message in the slot.
pub open spec fn channel_inv<M>(s: ChannelState<M>) -> bool {
    &&& s.word <= READING
    &&& s.word == EMPTY ==> s.message is None
    &&& s.word >= READY ==> s.message is Some
    &&& (s.word == READING) == (s.received is Some)
    &&& s.received is Some ==> s.received == s.message
}

/// Writing and publishing belong to the holder of the permit, that is to
/// the `WRITING` state; the message is written once, before it is
/// published.
pub open spec fn channel_enabled<M>(s: ChannelState<M>, step: ChannelStep<M>) -> bool {
    match step {
        ChannelStep::StartSend => true,
        ChannelStep::Write { message } => s.word == WRITING && s.message is None,
        ChannelStep::Publish => s.word == WRITING && s.message is Some,
        ChannelStep::StartReceive => true,
    }
}

/// Whether the step hands out the send permit.
pub open spec fn grants_send<M>(s: ChannelState<M>, step: ChannelStep<M>) -> bool {
    step is StartSend && s.word == EMPTY
}

/// Whether the step hands out the message.
pub open spec fn grants_receive<M>(s: ChannelState<M>, step: ChannelStep<M>) -> bool {
    step is StartReceive && s.word == READY
}

/// The effect of one step.
pub open spec fn channel_step<M>(s: ChannelState<M>, step: ChannelStep<M>) -> ChannelState<M> {
    match step {
        ChannelStep::StartSend => if s.word == spec_send_exchange().expected {
            ChannelState { word: spec_send_exchange().desired, ..s }
        } else {
            s
        },
        ChannelStep::Write { message } => ChannelState { message: Some(message), ..s },
        ChannelStep::Publish => ChannelState { word: READY, ..s },
        ChannelStep::StartReceive => if s.word == spec_receive_exchange().expected {
            ChannelState { word: spec_receive_exchange().desired, received: s.message, ..s }
        } else {
            s
        },
    }
}

/// The empty channel satisfies the invariant.
pub proof fn lemma_channel_init<M>()
    ensures
        channel_inv(channel_init::<M>()),
{
}

/// Every enabled step keeps the invariant.
pub proof fn lemma_channel_step_keeps_inv<M>(s: ChannelState<M>, step: ChannelStep<M>)
    requires
        channel_inv(s),
        channel_enabled(s, step),
    ensures
        channel_inv(channel_step(s, step)),
{
}

/// At most one message is sent: the permit is only handed out from `EMPTY`,
/// and no step ever returns the byte to `EMPTY`.
pub proof fn lemma_channel_single_send<M>(s: ChannelState<M>, step: ChannelStep<M>)
    requires
        channel_inv(s),
        channel_enabled(s, step),
    ensures
        grants_send(s, step) ==> s.word == EMPTY,
        s.word != EMPTY ==> channel_step(s, step).word != EMPTY,
{
}

/// The receiver gets exactly the message the sender wrote, and gets it at
/// most once: the message is only handed out from `READY`, and once it has
/// been received the byte stays `READING`.
pub proof fn lemma_channel_receive_gets_message<M>(s: ChannelState<M>, step: ChannelStep<M>)
    requires
        channel_inv(s),
        channel_enabled(s, step),
    ensures
        grants_receive(s, step) ==> s.message is Some && channel_step(s, step).received
            == s.message,
        s.received is Some ==> !grants_receive(s, step) && channel_step(s, step) == s,
{
}

/// Writing `message` and publishing it, then receiving, hands the receiver
/// `message`.
pub proof fn lemma_channel_round_trip<M>(message: M)
    ensures
        ({
            let s1 = channel_step(channel_init::<M>(), ChannelStep::StartSend);
            let s2 = channel_step(s1, ChannelStep::Write { message });
            let s3 = channel_step(s2, ChannelStep::Publish);
            let s4 = channel_step(s3, ChannelStep::StartReceive);
            &&& grants_send(channel_init::<M>(), ChannelStep::StartSend)
            &&& grants_receive(s3, ChannelStep::<M>::StartReceive)
            &&& s4.received == Some(message)
        }),
{
}

/// The state after the steps `steps`, taken in order from `s`.
pub open spec fn channel_run<M>(s: ChannelState<M>, steps: Seq<ChannelStep<M>>) -> ChannelState<M>
    decreases steps.len(),
{
    if steps.len() == 0 {
        s
    } else {
        channel_run(channel_step(s, steps[0]), steps.drop_first())
    }
}

/// Each of `steps`, taken in order from `s`, is enabled when it is taken.
pub open spec fn channel_run_enabled<M>(s: ChannelState<M>, steps: Seq<ChannelStep<M>>) -> bool
    decreases steps.len(),
{
    steps.len() == 0 || (channel_enabled(s, steps[0]) && channel_run_enabled(
        channel_step(s, steps[0]),
        steps.drop_first(),
    ))
}

/// A run of enabled steps from a state satisfying the invariant ends in a
/// state satisfying it.
pub proof fn lemma_channel_run_keeps_inv<M>(s: ChannelState<M>, steps: Seq<ChannelStep<M>>)
    requires
        channel_inv(s),
        channel_run_enabled(s, steps),
    ensures
        channel_inv(channel_run(s, steps)),
    decreases steps.len(),
{
    if steps.len() > 0 {
        lemma_channel_step_keeps_inv(s, steps[0]);
        lemma_channel_run_keeps_inv(channel_step(s, steps[0]), steps.drop_first());
    }
}

/// In every state reachable from the empty channel, whatever the
/// interleaving of the steps, a received message is the message that was
/// written.
pub proof fn lemma_channel_reachable_hand_over<M>(steps: Seq<ChannelStep<M>>)
    requires
        channel_run_enabled(channel_init::<M>(), steps),
    ensures
        channel_inv(channel_run(channel_init::<M>(), steps)),
        channel_run(channel_init::<M>(), steps).received is Some ==> channel_run(
            channel_init::<M>(),
            steps,
        ).received == channel_run(channel_init::<M>(), steps).message,
{
    lemma_channel_run_keeps_inv(channel_init::<M>(), steps);
}

} // verus!
