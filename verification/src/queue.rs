//! The pending request and the FIFO submission queue.
//!
//! The queue is the multi-producer, single-consumer boundary between the
//! dispatcher handles and the execution loop. It is unbounded by design, and
//! once it is closed (its consumer is gone) every further submission fails
//! with `QueueClosed` instead of hanging.

use vstd::prelude::*;

use crate::errors::Error;
use crate::headers::Headers;

verus! {

/// One HTTP POST waiting to be executed: the destination, the headers to
/// send and the opaque payload. The method is always POST.
#[derive(Debug, Clone, PartialEq, Eq)]
pub struct Request {
    /// The destination URI.
    pub uri: String,
    /// The headers of the request.
    pub headers: Headers,
    /// The opaque payload.
    pub body: Vec<u8>,
}

/// The FIFO queue of pending requests.
pub struct SubmissionQueue {
    entries: Vec<Request>,
    closed: bool,
}

impl View for SubmissionQueue {
    type V = Seq<Request>;

    closed spec fn view(&self) -> Seq<Request> {
        self.entries@
    }
}

impl SubmissionQueue {
    /// Whether the queue's consumer is gone.
    pub closed spec fn closed(self) -> bool {
        self.closed
    }

    /// An empty, open queue.
    pub fn new() -> (q: SubmissionQueue)
        ensures
            q@ == Seq::<Request>::empty(),
            !q.closed(),
    {
        SubmissionQueue { entries: Vec::new(), closed: false }
    }

    /// How many requests are waiting.
    pub fn len(&self) -> (n: usize)
        ensures
            n == self@.len(),
    {
        self.entries.len()
    }

    /// Whether the queue has been closed.
    pub fn is_closed(&self) -> (b: bool)
        ensures
            b == self.closed(),
    {
        self.closed
    }

    /// Appends a request, unless the queue is closed: a closed queue rejects
    /// every submission with `QueueClosed` and stays unchanged.
    pub fn enqueue(&mut self, request: Request) -> (r: Result<(), Error>)
        ensures
            old(self).closed() ==> r == Err::<(), Error>(Error::QueueClosed)
                && *final(self) == *old(self),
            !old(self).closed() ==> r == Ok::<(), Error>(())
                && final(self)@ == old(self)@.push(request)
                && !final(self).closed(),
    {
        if self.closed {
            Err(Error::QueueClosed)
        } else {
            self.entries.push(request);
            Ok(())
        }
    }

    /// Removes and returns the request at the front, if any; the rest keep
    /// their order.
    pub fn dequeue(&mut self) -> (r: Option<Request>)
        ensures
            old(self)@.len() == 0 ==> r is None && *final(self) == *old(self),
            old(self)@.len() > 0 ==> r == Some(old(self)@[0])
                && final(self)@ == old(self)@.subrange(1, old(self)@.len() as int)
                && final(self).closed() == old(self).closed(),
    {
        if self.entries.len() == 0 {
            None
        } else {
            Some(self.entries.remove(0))
        }
    }

    /// Marks the queue closed: the consumer is gone. Whatever is still
    /// waiting stays in the queue until it is failed out.
    pub fn close(&mut self)
        ensures
            final(self).closed(),
            final(self)@ == old(self)@,
    {
        self.closed = true;
    }
}

} // verus!
