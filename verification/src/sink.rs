use vstd::prelude::*;

verus! {

/// The queue a task delivers messages into.
///
/// The owning component hands a sink to each event-delivery call and later
/// processes the queued messages on its own update cycle. Data flows one way:
/// tasks only ever append.
pub struct MessageSink<M> {
    queue: Vec<M>,
}

impl<M> View for MessageSink<M> {
    type V = Seq<M>;

    closed spec fn view(&self) -> Seq<M> {
        self.queue@
    }
}

impl<M> MessageSink<M> {
    /// An empty sink.
    pub fn new() -> (r: MessageSink<M>)
        ensures
            r@ == Seq::<M>::empty(),
    {
        MessageSink { queue: Vec::new() }
    }

    /// Appends one message; the only operation a task performs on a sink.
    pub fn push(&mut self, m: M)
        ensures
            final(self)@ == old(self)@.push(m),
    {
        self.queue.push(m);
    }

    /// How many messages have been delivered and not yet drained.
    pub fn len(&self) -> (n: usize)
        ensures
            n == self@.len(),
    {
        self.queue.len()
    }

    /// The delivered messages, oldest first.
    pub fn messages(&self) -> (r: &Vec<M>)
        ensures
            r@ == self@,
    {
        &self.queue
    }

    /// Hands the queued messages to the component and empties the sink.
    pub fn drain(&mut self) -> (r: Vec<M>)
        ensures
            r@ == old(self)@,
            final(self)@ == Seq::<M>::empty(),
    {
        let mut out = Vec::new();
        std::mem::swap(&mut out, &mut self.queue);
        out
    }
}

} // verus!
