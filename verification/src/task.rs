use vstd::prelude::*;

verus! {

/// The errors a task surfaces synchronously to its caller.
///
/// Transport-level failures of a network transfer are not here: they are
/// delivered through the ordinary message stream, since whether a non-success
/// response is exceptional is the application's decision, not this layer's.
#[derive(Debug, PartialEq, Eq)]
pub enum TaskError {
    /// The host environment exposes no usable location/history surface.
    Initialization,
    /// A history write was rejected (for example, a cross-origin target).
    Navigation,
    /// A request header value is not representable as text; carries the name
    /// of the offending header.
    Encoding { header: String },
    /// An operation was attempted on a task that is no longer active.
    Inactive,
}

/// The lifecycle contract shared by every task type.
///
/// A task starts active, holding its (logical) subscriptions, and moves
/// one-way into an inactive state, either by finishing its work or by being
/// cancelled. Cancellation is idempotent: once the task is inactive, a second
/// `cancel` changes nothing and is not an error.
pub trait CancellableTask: Sized {
    /// Whether the task still holds its subscriptions.
    spec fn task_active(&self) -> bool;

    /// Pure query: reports whether the task is still active.
    fn is_active(&self) -> (r: bool)
        ensures
            r == self.task_active(),
    ;

    /// Releases the task's subscriptions. Idempotent: a cancelled or finished
    /// task is left exactly as it was.
    fn cancel(&mut self)
        ensures
            !final(self).task_active(),
            !old(self).task_active() ==> *final(self) == *old(self),
    ;
}

} // verus!
