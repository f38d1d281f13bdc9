//! Adapters that let script code reach host-side channels: a send adapter
//! forwards a value onto an unbounded queue, a receive adapter hands out the
//! next queued value, and a one-shot adapter fires a completion signal at most
//! once. Every failure comes back as an `AdapterError`, which the host raises
//! as a script exception.

use tokio::sync::mpsc::UnboundedSender;
use tokio::sync::oneshot;
use vstd::prelude::*;

verus! {

/// tokio's one-shot sender, carried through as an opaque value.
#[verifier::external_type_specification]
#[verifier::external_body]
#[verifier::reject_recursive_types(T)]
pub struct ExOneshotSender<T>(oneshot::Sender<T>);

/// tokio's unbounded channel sender, carried through as an opaque value.
#[verifier::external_type_specification]
#[verifier::external_body]
#[verifier::reject_recursive_types(T)]
pub struct ExUnboundedSender<T>(UnboundedSender<T>);

/// Why a call from script into an adapter failed.
#[derive(Clone, Copy, Debug, PartialEq, Eq, Structural)]
pub enum AdapterError {
    /// The lock around the adapter was poisoned by a panic elsewhere.
    LockPoisoned,
    /// The receiving end of the outbound channel is gone.
    TxChannelClosed,
    /// The inbound channel is closed and has nothing left to hand out.
    RxChannelClosed,
    /// The one-shot signal has already fired.
    AlreadyResolved,
}

impl AdapterError {
    pub open spec fn message_spec(self) -> Seq<char> {
        match self {
            AdapterError::LockPoisoned => "Mutex Error"@,
            AdapterError::TxChannelClosed => "TX Channel Closed"@,
            AdapterError::RxChannelClosed => "RX Channel Closed"@,
            AdapterError::AlreadyResolved => "Already Resolved"@,
        }
    }

    /// The exception message shown to script.
    pub fn message(&self) -> (r: String)
        ensures
            r@ == self.message_spec(),
    {
        match self {
            AdapterError::LockPoisoned => String::from_str("Mutex Error"),
            AdapterError::TxChannelClosed => String::from_str("TX Channel Closed"),
            AdapterError::RxChannelClosed => String::from_str("RX Channel Closed"),
            AdapterError::AlreadyResolved => String::from_str("Already Resolved"),
        }
    }
}

/// Relies on tokio's `oneshot::Sender::send`: it consumes the sender and, when
/// the receiving half has been dropped, hands the value back as the error.
#[verifier::external_body]
fn send_once<T>(tx: oneshot::Sender<T>, msg: T) -> (r: Result<(), T>)
    ensures
        r matches Err(v) ==> v == msg,
{
    tx.send(msg)
}

/// Relies on tokio's `UnboundedSender::send`: it never waits, and when the
/// receiving half is closed its error carries the value back.
#[verifier::external_body]
fn send_unbounded<T>(tx: &UnboundedSender<T>, msg: T) -> (r: Result<(), T>)
    ensures
        r matches Err(v) ==> v == msg,
{
    tx.send(msg).map_err(|e| e.0)
}

pub open spec fn send_outcome_spec<T>(sent: Result<(), T>) -> Result<(), AdapterError> {
    match sent {
        Ok(_) => Ok(()),
        Err(_) => Err(AdapterError::TxChannelClosed),
    }
}

/// What script sees of a send: success, or a closed channel when the value
/// came back undelivered.
pub fn send_outcome<T>(sent: Result<(), T>) -> (r: Result<(), AdapterError>)
    ensures
        r == send_outcome_spec(sent),
{
    match sent {
        Ok(_) => Ok(()),
        Err(_) => Err(AdapterError::TxChannelClosed),
    }
}

pub open spec fn received_spec<T>(msg: Option<T>) -> Result<T, AdapterError> {
    match msg {
        Some(v) => Ok(v),
        None => Err(AdapterError::RxChannelClosed),
    }
}

/// What script sees of a receive, given what the awaited receive produced: the
/// value itself, or a closed channel when the queue is closed and drained.
pub fn received<T>(msg: Option<T>) -> (r: Result<T, AdapterError>)
    ensures
        r == received_spec(msg),
{
    match msg {
        Some(v) => Ok(v),
        None => Err(AdapterError::RxChannelClosed),
    }
}

/// The send adapter: owns the sending half of an unbounded channel.
#[verifier::reject_recursive_types(T)]
pub struct TxAdapter<T> {
    tx: UnboundedSender<T>,
}

impl<T> TxAdapter<T> {
    pub fn new(tx: UnboundedSender<T>) -> (r: TxAdapter<T>) {
        TxAdapter { tx }
    }

    /// Forwards `msg` onto the channel. Fails only when the receiving end is
    /// gone, and then with `TxChannelClosed`.
    pub fn send(&self, msg: T) -> (r: Result<(), AdapterError>)
        ensures
            r is Ok || r == Err::<(), AdapterError>(AdapterError::TxChannelClosed),
    {
        send_outcome(send_unbounded(&self.tx, msg))
    }
}

/// The one-shot adapter: holds the sender of a one-shot signal until the first
/// call takes it.
#[verifier::reject_recursive_types(T)]
pub struct OneshotAdapter<T> {
    tx: Option<oneshot::Sender<T>>,
}

impl<T> OneshotAdapter<T> {
    /// The signal has been used, by a delivered or an undelivered firing.
    pub closed spec fn resolved(&self) -> bool {
        self.tx is None
    }

    pub fn new(tx: oneshot::Sender<T>) -> (r: OneshotAdapter<T>)
        ensures
            !r.resolved(),
    {
        OneshotAdapter { tx: Some(tx) }
    }

    pub fn is_resolved(&self) -> (r: bool)
        ensures
            r == self.resolved(),
    {
        self.tx.is_none()
    }

    /// Fires the signal with `msg`. The first call uses up the signal, and
    /// fails only when the receiving end is gone; every later call fails with
    /// `AlreadyResolved`.
    pub fn fire(&mut self, msg: T) -> (r: Result<(), AdapterError>)
        ensures
            fired(*old(self), *final(self), r),
    {
        match self.tx.take() {
            Some(tx) => send_outcome(send_once(tx, msg)),
            None => Err(AdapterError::AlreadyResolved),
        }
    }
}

/// How a firing relates the adapter before, the adapter after and the result.
pub open spec fn fired<T>(
    pre: OneshotAdapter<T>,
    post: OneshotAdapter<T>,
    r: Result<(), AdapterError>,
) -> bool {
    &&& post.resolved()
    &&& pre.resolved() ==> r == Err::<(), AdapterError>(AdapterError::AlreadyResolved)
    &&& !pre.resolved() ==> (r is Ok || r == Err::<(), AdapterError>(
        AdapterError::TxChannelClosed,
    ))
}

/// Firing a one-shot adapter a second time is refused with `AlreadyResolved`,
/// whatever the first firing did: it is never a silent no-op.
pub proof fn lemma_second_fire_refused<T>(
    a0: OneshotAdapter<T>,
    a1: OneshotAdapter<T>,
    a2: OneshotAdapter<T>,
    r1: Result<(), AdapterError>,
    r2: Result<(), AdapterError>,
)
    requires
        fired(a0, a1, r1),
        fired(a1, a2, r2),
    ensures
        r2 == Err::<(), AdapterError>(AdapterError::AlreadyResolved),
{
}

} // verus!
