//! A one-shot channel with two flags: `in_use`, set by the one sender that
//! claims the channel, and `ready`, set once the message is written and
//! cleared again by the one receiver that takes it.
//!
//! Sending twice panics; receiving with no message ready, or after the
//! message was already received, panics.
//!
//! [`Channel`] holds the flags; the message itself is stored by the caller
//! between [`Channel::start_send`] and [`SendPermit::publish`].
//! [`ChannelState`] and [`channel_step`] describe the protocol as a state
//! machine, and the laws below prove that at most one message is sent, that
//! it is received at most once, and that the receiver gets exactly what the
//! sender wrote.
use crate::effect::{store_bool_on, swap_bool_on, StoreBool, SwapBool};
use std::sync::atomic::AtomicBool;
use std::sync::atomic::Ordering;
use vstd::prelude::*;

verus! {

/// The value the sender swaps into `in_use` to claim the channel.
pub open spec fn spec_claim_flag() -> bool {
    true
}

/// Computes the value the sender swaps into `in_use`.
pub fn claim_flag() -> (f: bool)
    ensures
        f == spec_claim_flag(),
{
    true
}

/// The value the receiver swaps into `ready` to take the message.
pub open spec fn spec_take_flag() -> bool {
    false
}

/// Computes the value the receiver swaps into `ready`.
pub fn take_flag() -> (f: bool)
    ensures
        f == spec_take_flag(),
{
    false
}

/// The sender claimed the channel exactly when `in_use` was clear before
/// its swap.
pub open spec fn spec_claimed(prev: bool) -> bool {
    !prev
}

/// Tells whether the sender's swap that returned `prev` claimed the
/// channel.
pub fn claimed(prev: bool) -> (r: bool)
    ensures
        r == spec_claimed(prev),
{
    !prev
}

/// The receiver took the message exactly when `ready` was set before its
/// swap.
pub open spec fn spec_taken(prev: bool) -> bool {
    prev
}

/// Tells whether the receiver's swap that returned `prev` took the message.
pub fn taken(prev: bool) -> (r: bool)
    ensures
        r == spec_taken(prev),
{
    prev
}

/// One attempt to receive: the value of `ready` that the receiver's swap
/// returned, and whether it took the message.
pub struct ReceiveAttempt<'a> {
    pub observed: bool,
    pub taken: bool,
    pub swap: SwapBool<'a>,
}

/// One attempt to send: the permit, if the channel was claimed, and the
/// sender's swap of `in_use`.
pub struct SendAttempt<'a> {
    pub permit: Option<SendPermit<'a>>,
    pub swap: SwapBool<'a>,
}

/// A claim of `c`: it swaps [`spec_claim_flag`] into `in_use`; the permit is
/// handed out exactly when the flag was clear.
pub open spec fn send_attempt_done(c: Channel, r: SendAttempt) -> bool {
    &&& *r.swap.target == c.in_use_flag()
    &&& r.swap.operand == spec_claim_flag()
    &&& r.permit is Some <==> spec_claimed(r.swap.prev)
}

/// A receive of `c`: it swaps [`spec_take_flag`] into `ready`; the message
/// is taken exactly when the flag was set.
pub open spec fn receive_attempt_done(c: Channel, r: ReceiveAttempt) -> bool {
    &&& *r.swap.target == c.ready_flag()
    &&& r.swap.operand == spec_take_flag()
    &&& r.observed == r.swap.prev
    &&& r.taken == spec_taken(r.observed)
}

/// A publish on `c`: it sets `ready`.
pub open spec fn publish_done(c: Channel, r: StoreBool) -> bool {
    *r.target == c.ready_flag() && r.value == true
}

/// The channel's two flags.
pub struct Channel {
    in_use: AtomicBool,
    ready: AtomicBool,
}

/// The right to write the message of `channel` and publish it, held by the
/// one sender that claimed it.
pub struct SendPermit<'a> {
    channel: &'a Channel,
}

impl<'a> SendPermit<'a> {
    /// The channel this permit sends on.
    pub closed spec fn channel(&self) -> &'a Channel {
        self.channel
    }

    /// Publishes the written message: sets `ready`.
    pub fn publish(self) -> (r: StoreBool<'a>)
        ensures
            publish_done(*self.channel(), r),
    {
        store_bool_on(&self.channel.ready, true, Ordering::Release)
    }
}

impl Channel {
    /// The flag a sender claims.
    pub closed spec fn in_use_flag(&self) -> AtomicBool {
        self.in_use
    }

    /// The flag that says a message is ready.
    pub closed spec fn ready_flag(&self) -> AtomicBool {
        self.ready
    }

    /// An empty channel.
    pub fn new() -> Self {
        Channel { in_use: AtomicBool::new(false), ready: AtomicBool::new(false) }
    }

    /// Claims the channel for sending: swaps `true` into `in_use`. `None`
    /// means the channel was already claimed (the send panics with "can't
    /// send more than one message"). A permit returned sends on this
    /// channel.
    pub fn start_send(&self) -> (r: Option<SendPermit<'_>>)
        ensures
            r matches Some(p) ==> p.channel() == self,
    {
        self.send_attempt().permit
    }

    /// The claim of [`Channel::start_send`], together with its swap.
    pub fn send_attempt(&self) -> (r: SendAttempt<'_>)
        ensures
            send_attempt_done(*self, r),
            r.permit matches Some(p) ==> p.channel() == self,
    {
        let swap = swap_bool_on(&self.in_use, claim_flag(), Ordering::Relaxed);
        let permit = if claimed(swap.prev) {
            Some(SendPermit { channel: self })
        } else {
            None
        };
        SendAttempt { permit, swap }
    }

    /// Tells whether a message is ready to be received.
    pub fn is_ready(&self) -> bool {
        self.ready.load(Ordering::Relaxed)
    }

    /// Takes the message for receiving: swaps [`spec_take_flag`] (`false`)
    /// into `ready`. The message is taken exactly when `ready` was set;
    /// otherwise no message was ready (the receive panics with "no message
    /// available").
    pub fn start_receive(&self) -> (r: ReceiveAttempt<'_>)
        ensures
            r.taken == spec_taken(r.observed),
            receive_attempt_done(*self, r),
    {
        let swap = swap_bool_on(&self.ready, take_flag(), Ordering::Acquire);
        let observed = swap.prev;
        ReceiveAttempt { observed, taken: taken(observed), swap }
    }
}

// What the channel operations do to the two flags.

/// A sender claims the channel only by setting `in_use` when it was clear;
/// a publish sets `ready`; a receiver clears `ready` and takes the message
/// exactly when it was set, so a message is taken at most once per publish.
pub proof fn lemma_channel_ops(c: Channel, s: SendAttempt, p: StoreBool, r: ReceiveAttempt)
    requires
        send_attempt_done(c, s),
        publish_done(c, p),
        receive_attempt_done(c, r),
    ensures
        *s.swap.target == c.in_use_flag() && s.swap.operand == true,
        s.permit is Some <==> !s.swap.prev,
        *p.target == c.ready_flag() && p.value == true,
        *r.swap.target == c.ready_flag() && r.swap.operand == false,
        r.taken <==> r.swap.prev,
{
}

// The protocol as a state machine over the two flags.

/// The two flags together with the message slot, whether the permit holder
/// has published, and what the receiver took out of the slot.
pub ghost struct ChannelState<M> {
    pub in_use: bool,
    pub ready: bool,
    pub published: bool,
    pub message: Option<M>,
    pub received: Option<M>,
}

/// The steps of the protocol.
pub ghost enum ChannelStep<M> {
    /// The sender's swap of `true` into `in_use`.
    StartSend,
    /// The permit holder writes `message` into the slot.
    Write { message: M },
    /// The permit holder's store of `true` into `ready`.
    Publish,
    /// The receiver's swap of `false` into `ready`, which takes the message
    /// out of the slot when `ready` was set.
    StartReceive,
}

/// The empty channel.
pub open spec fn channel_init<M>() -> ChannelState<M> {
    ChannelState { in_use: false, ready: false, published: false, message: None, received: None }
}

/// Nothing is written or published before the channel is claimed; `ready`
/// is set exactly between publishing and receiving, with a message in the
/// slot; the receiver got the message in the slot.
pub open spec fn channel_inv<M>(s: ChannelState<M>) -> bool {
    &&& !s.in_use ==> s.message is None && !s.published
    &&& s.published ==> s.message is Some
    &&& s.ready == (s.published && s.received is None)
    &&& s.received is Some ==> s.published && s.received == s.message
}

/// Writing and publishing belong to the holder of the permit: once the
/// channel is claimed, the message is written once and then published once.
pub open spec fn channel_enabled<M>(s: ChannelState<M>, step: ChannelStep<M>) -> bool {
    match step {
        ChannelStep::StartSend => true,
        ChannelStep::Write { message } => s.in_use && s.message is None,
        ChannelStep::Publish => s.in_use && s.message is Some && !s.published,
        ChannelStep::StartReceive => true,
    }
}

/// Whether the step hands out the send permit.
pub open spec fn grants_send<M>(s: ChannelState<M>, step: ChannelStep<M>) -> bool {
    step is StartSend && spec_claimed(s.in_use)
}

/// Whether the step hands out the message.
pub open spec fn grants_receive<M>(s: ChannelState<M>, step: ChannelStep<M>) -> bool {
    step is StartReceive && spec_taken(s.ready)
}

/// The effect of one step.
pub open spec fn channel_step<M>(s: ChannelState<M>, step: ChannelStep<M>) -> ChannelState<M> {
    match step {
        ChannelStep::StartSend => ChannelState { in_use: spec_claim_flag(), ..s },
        ChannelStep::Write { message } => ChannelState { message: Some(message), ..s },
        ChannelStep::Publish => ChannelState { ready: true, published: true, ..s },
        ChannelStep::StartReceive => if spec_taken(s.ready) {
            ChannelState { ready: spec_take_flag(), received: s.message, ..s }
        } else {
            s
        },
    }
}

/// The empty channel satisfies the invariant.
pub proof fn lemma_channel_init<M>()
    ensures
        channel_inv(channel_init::<M>()),
{
}

/// Every enabled step keeps the invariant.
pub proof fn lemma_channel_step_keeps_inv<M>(s: ChannelState<M>, step: ChannelStep<M>)
    requires
        channel_inv(s),
        channel_enabled(s, step),
    ensures
        channel_inv(channel_step(s, step)),
{
}

/// At most one message is sent: the permit is only handed out while
/// `in_use` is clear, and no step clears it.
pub proof fn lemma_channel_single_send<M>(s: ChannelState<M>, step: ChannelStep<M>)
    requires
        channel_inv(s),
        channel_enabled(s, step),
    ensures
        grants_send(s, step) ==> !s.in_use,
        s.in_use ==> channel_step(s, step).in_use,
{
}

/// The receiver gets exactly the message the sender wrote, and gets it at
/// most once: once it has been received, no step hands it out again.
pub proof fn lemma_channel_receive_gets_message<M>(s: ChannelState<M>, step: ChannelStep<M>)
    requires
        channel_inv(s),
        channel_enabled(s, step),
    ensures
        grants_receive(s, step) ==> s.message is Some && channel_step(s, step).received
            == s.message,
        s.received is Some ==> !grants_receive(s, step) && channel_step(s, step).received
            == s.received,
{
}

/// Writing `message` and publishing it, then receiving, hands the receiver
/// `message`; a second receive gets nothing.
pub proof fn lemma_channel_round_trip<M>(message: M)
    ensures
        ({
            let s1 = channel_step(channel_init::<M>(), ChannelStep::StartSend);
            let s2 = channel_step(s1, ChannelStep::Write { message });
            let s3 = channel_step(s2, ChannelStep::Publish);
            let s4 = channel_step(s3, ChannelStep::StartReceive);
            &&& grants_send(channel_init::<M>(), ChannelStep::StartSend)
            &&& grants_receive(s3, ChannelStep::<M>::StartReceive)
            &&& s4.received == Some(message)
            &&& !grants_receive(s4, ChannelStep::<M>::StartReceive)
        }),
{
}

/// The state after the steps `steps`, taken in order from `s`.
pub open spec fn channel_run<M>(s: ChannelState<M>, steps: Seq<ChannelStep<M>>) -> ChannelState<M>
    decreases steps.len(),
{
    if steps.len() == 0 {
        s
    } else {
        channel_run(channel_step(s, steps[0]), steps.drop_first())
    }
}

/// Each of `steps`, taken in order from `s`, is enabled when it is taken.
pub open spec fn channel_run_enabled<M>(s: ChannelState<M>, steps: Seq<ChannelStep<M>>) -> bool
    decreases steps.len(),
{
    steps.len() == 0 || (channel_enabled(s, steps[0]) && channel_run_enabled(
        channel_step(s, steps[0]),
        steps.drop_first(),
    ))
}

/// A run of enabled steps from a state satisfying the invariant ends in a
/// state satisfying it.
pub proof fn lemma_channel_run_keeps_inv<M>(s: ChannelState<M>, steps: Seq<ChannelStep<M>>)
    requires
        channel_inv(s),
        channel_run_enabled(s, steps),
    ensures
        channel_inv(channel_run(s, steps)),
    decreases steps.len(),
{
    if steps.len() > 0 {
        lemma_channel_step_keeps_inv(s, steps[0]);
        lemma_channel_run_keeps_inv(channel_step(s, steps[0]), steps.drop_first());
    }
}

/// In every state reachable from the empty channel, whatever the
/// interleaving of the steps, a received message is the message that was
/// written.
pub proof fn lemma_channel_reachable_hand_over<M>(steps: Seq<ChannelStep<M>>)
    requires
        channel_run_enabled(channel_init::<M>(), steps),
    ensures
        channel_inv(channel_run(channel_init::<M>(), steps)),
        channel_run(channel_init::<M>(), steps).received is Some ==> channel_run(
            channel_init::<M>(),
            steps,
        ).received == channel_run(channel_init::<M>(), steps).message,
{
    lemma_channel_run_keeps_inv(channel_init::<M>(), steps);
}

} // verus!
