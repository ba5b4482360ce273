//! The worker side of the pool: the receive-dispatch loop and the
//! routing of action outcomes to the error handler.
//!
//! A worker owns nothing but its identifier and its thread of
//! execution. The thread itself is spawned by the host around this
//! library; each iteration of the loop that thread runs is
//! [`worker_step`].

use vstd::prelude::*;
use crate::channel::channel_recv;
use crate::message::{KeyCode, Message, MouseEvent};

verus! {

/// The outcome of looking up an input event in a binding table and,
/// where a binding exists, invoking the bound action.
pub enum Invocation<E> {
    /// No action is bound to the event: a silent no-op, not an error.
    NotBound,
    /// A bound action ran and returned without error.
    Done,
    /// A bound action ran and produced this error.
    Failed(E),
}

/// The narrow interfaces of the external collaborators a worker relies
/// on: the binding tables (lookup with per-entry exclusive access plus
/// invocation of the bound action with the shared host handle), the
/// deferred-job runner, and the error handler.
///
/// Every worker of a pool holds its own duplicate of the one
/// collaborator value, so duplicates must observe the same live binding
/// tables, and a lookup that yields a bound action must serialize
/// concurrent access per entry: two workers never run the same bound
/// action at the same time, while distinct actions may run
/// concurrently.
pub trait Collaborators<J> {
    /// The error type a bound action may produce.
    type Error;

    /// Look up `code` in the key-binding table under exclusive access
    /// and, if bound, invoke the action with the host handle.
    fn invoke_key(&mut self, code: KeyCode) -> Invocation<Self::Error>;

    /// Look up `(event.kind, event.state)` in the mouse-binding table
    /// under exclusive access and, if bound, invoke the action with the
    /// host handle and the event.
    fn invoke_mouse(&mut self, event: &MouseEvent) -> Invocation<Self::Error>;

    /// Run a deferred one-shot job; its outcome is the job's own
    /// responsibility and is never observed by the pool.
    fn run_job(&mut self, job: J);

    /// Hand an action's error to the error handler. Must not panic.
    fn report_error(&mut self, err: Self::Error);
}

/// What, if anything, an invocation outcome obliges the worker to hand
/// to the error handler.
pub open spec fn spec_error_to_report<E>(inv: Invocation<E>) -> Option<E> {
    match inv {
        Invocation::Failed(e) => Some(e),
        Invocation::NotBound => None,
        Invocation::Done => None,
    }
}

/// Decide whether an invocation outcome must be reported.
///
/// A missing binding or a successful action reports nothing; a failed
/// action reports exactly the error it produced, once.
pub fn error_to_report<E>(inv: Invocation<E>) -> (r: Option<E>)
    ensures
        r == spec_error_to_report(inv),
        r is Some <==> inv is Failed,
        inv matches Invocation::Failed(e) ==> r == Some(e),
    {
    match inv {
        Invocation::Failed(e) => Some(e),
        Invocation::NotBound => None,
        Invocation::Done => None,
    }
}

/// Law: an event with no bound action, or one whose action succeeded,
/// obliges no error-handler invocation at all.
pub proof fn lemma_unbound_is_silent<E>()
    ensures
        spec_error_to_report::<E>(Invocation::NotBound) is None,
        spec_error_to_report::<E>(Invocation::Done) is None,
{
}

/// Law: an error produced by a bound action reaches the error handler
/// exactly once, with exactly the error value produced.
pub proof fn lemma_failure_reported_exactly<E>(e: E)
    ensures
        spec_error_to_report(Invocation::Failed(e)) == Some(e),
{
}

/// What one received message (or the close of the queue) obliges the
/// worker to do.
pub enum Directive<J> {
    /// Invoke the action bound to this key code, if any, and report
    /// its error.
    InvokeKey(KeyCode),
    /// Invoke the action bound to this mouse event, if any, and report
    /// its error.
    InvokeMouse(MouseEvent),
    /// Run exactly this deferred job, observing nothing of its outcome.
    RunJob(J),
    /// Terminate the loop; no further message is consumed by this
    /// worker.
    Stop,
}

/// The worker receive-loop contract: what each possible receive result
/// obliges. The loop stops exactly on the terminal sentinel, or on a
/// queue that was closed with no message left (`None`), the defensive
/// fallback equivalent to a missing sentinel.
pub open spec fn spec_directive<J>(m: Option<Message<J>>) -> Directive<J> {
    match m {
        None => Directive::Stop,
        Some(Message::Key(code)) => Directive::InvokeKey(code),
        Some(Message::Mouse(event)) => Directive::InvokeMouse(event),
        Some(Message::Job(job)) => Directive::RunJob(job),
        Some(Message::ShutDown) => Directive::Stop,
    }
}

/// Whether a worker's receive loop goes on after consuming `m`.
pub open spec fn spec_continues<J>(m: Option<Message<J>>) -> bool {
    !(spec_directive(m) is Stop)
}

/// Decide what one received message (or the close of the queue)
/// obliges the worker to do. In particular, a `Job` message obliges
/// running exactly the job it carries, and nothing else.
pub fn directive<J>(m: Option<Message<J>>) -> (d: Directive<J>)
    ensures
        d == spec_directive(m),
        m matches Some(Message::Job(job)) ==> d == Directive::RunJob(job),
    {
    match m {
        None => Directive::Stop,
        Some(Message::Key(code)) => Directive::InvokeKey(code),
        Some(Message::Mouse(event)) => Directive::InvokeMouse(event),
        Some(Message::Job(job)) => Directive::RunJob(job),
        Some(Message::ShutDown) => Directive::Stop,
    }
}

/// Carry out one directive against the collaborators and say whether
/// the receive loop goes on: every directive but `Stop` keeps the
/// worker alive.
pub fn run_directive<J, C: Collaborators<J>>(d: Directive<J>, host: &mut C) -> (keep_going: bool)
    ensures
        keep_going == !(d is Stop),
    {
    match d {
        Directive::InvokeKey(code) => {
            let inv = host.invoke_key(code);
            match error_to_report(inv) {
                Some(e) => host.report_error(e),
                None => {}
            }
            true
        }
        Directive::InvokeMouse(event) => {
            let inv = host.invoke_mouse(&event);
            match error_to_report(inv) {
                Some(e) => host.report_error(e),
                None => {}
            }
            true
        }
        Directive::RunJob(job) => {
            host.run_job(job);
            true
        }
        Directive::Stop => false,
    }
}

/// Consume one received message (or the close of the queue): take the
/// directive it obliges, carry it out, and say whether the receive
/// loop goes on.
pub fn dispatch_message<J, C: Collaborators<J>>(m: Option<Message<J>>, host: &mut C) -> (keep_going: bool)
    ensures
        keep_going == spec_continues(m),
    {
    run_directive(directive(m), host)
}

/// One iteration of a worker's receive loop: block until the shared
/// queue yields the next message or is closed, consume it, and say
/// whether the loop goes on. The thread a host spawns for each worker
/// runs exactly `while worker_step(&rx, &mut host) {}`.
pub fn worker_step<J, C: Collaborators<J>>(rx: &crossbeam_channel::Receiver<Message<J>>, host: &mut C) -> (keep_going: bool) {
    let m = channel_recv(rx);
    dispatch_message(m, host)
}

} // verus!
