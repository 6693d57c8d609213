//! The request execution loop's decisions.
//!
//! The loop drains the submission queue in order and executes one request at
//! a time: request k + 1 is not started before request k's whole lifecycle
//! has finished, which yields FIFO network-phase order. What the network and
//! the timer did during one request is summarized by a `CallScript`, and the
//! verified functions here turn it into the one result delivered to the
//! caller.

use vstd::prelude::*;

use crate::errors::Error;
use crate::queue::{Request, SubmissionQueue};

verus! {

/// The status line of a response, seen before its body is read.
#[derive(Debug, Clone, Copy, PartialEq, Eq, Structural)]
pub struct ResponseHead {
    /// The HTTP status code.
    pub status: u16,
}

/// What reading a response body yielded.
#[derive(Debug, Clone, PartialEq, Eq)]
pub enum BodyRead {
    /// The whole body, buffered.
    Full(Vec<u8>),
    /// The read failed in the network layer.
    Failed,
}

/// What happened during one request's network phase: the outcome of the
/// time-limited call (a response head, or a timeout or transport error), and
/// what reading the body yielded where a read was attempted.
#[derive(Debug, PartialEq, Eq)]
pub struct CallScript {
    /// Outcome of the raced HTTP call.
    pub raced: Result<ResponseHead, Error>,
    /// Outcome of the body read.
    pub body: BodyRead,
}

/// One completed request: what was dequeued and the result delivered for it.
#[derive(Debug, PartialEq, Eq)]
pub struct Delivery {
    /// The request the loop executed.
    pub request: Request,
    /// The result sent back through the request's completion channel.
    pub result: Result<Vec<u8>, Error>,
}

/// The result delivered for one executed request: body bytes for a 200
/// response, `HttpStatusError` for any other status (its body is never
/// delivered), the timeout or transport error otherwise.
pub open spec fn call_outcome(raced: Result<ResponseHead, Error>, body: BodyRead) -> Result<
    Vec<u8>,
    Error,
> {
    match raced {
        Ok(head) => if head.status == 200 {
            match body {
                BodyRead::Full(b) => Ok(b),
                BodyRead::Failed => Err(Error::UnderlyingTransportError),
            }
        } else {
            Err(Error::HttpStatusError(head.status))
        },
        Err(e) => Err(e),
    }
}

/// Turns one request's network phase into the result delivered to its
/// caller.
///
/// Status mapping: a 200 response delivers its body; any other status
/// delivers `HttpStatusError` with that code, and the body argument does not
/// enter that outcome at all — the body of a non-200 response is never
/// delivered. A timeout or transport error passes through unchanged.
pub fn complete_call(raced: Result<ResponseHead, Error>, body: BodyRead) -> (r: Result<
    Vec<u8>,
    Error,
>)
    ensures
        r == call_outcome(raced, body),
        (raced is Ok && raced->Ok_0.status == 200 && body is Full) ==> r == Ok::<Vec<u8>, Error>(
            body->Full_0,
        ),
        (raced is Ok && raced->Ok_0.status == 200 && body is Failed) ==> r == Err::<
            Vec<u8>,
            Error,
        >(Error::UnderlyingTransportError),
        (raced is Ok && raced->Ok_0.status != 200) ==> r == Err::<Vec<u8>, Error>(
            Error::HttpStatusError(raced->Ok_0.status),
        ),
        raced is Err ==> r == Err::<Vec<u8>, Error>(raced->Err_0),
    {
    match raced {
        Ok(head) => {
            if head.status == 200 {
                match body {
                    BodyRead::Full(b) => Ok(b),
                    BodyRead::Failed => Err(Error::UnderlyingTransportError),
                }
            } else {
                Err(Error::HttpStatusError(head.status))
            }
        },
        Err(e) => Err(e),
    }
}

/// One turn of the execution loop: takes the request at the front of the
/// queue, if any, and delivers the outcome its network phase produced. The
/// rest of the queue keeps its order.
pub fn process_next(queue: &mut SubmissionQueue, step: CallScript) -> (d: Option<Delivery>)
    ensures
        old(queue)@.len() == 0 ==> d is None && *final(queue) == *old(queue),
        old(queue)@.len() > 0 ==> d == Some(
            Delivery {
                request: old(queue)@[0],
                result: call_outcome(step.raced, step.body),
            },
        ) && final(queue)@ == old(queue)@.subrange(1, old(queue)@.len() as int)
            && final(queue).closed() == old(queue).closed(),
{
    match queue.dequeue() {
        None => None,
        Some(request) => {
            let result = complete_call(step.raced, step.body);
            Some(Delivery { request, result })
        },
    }
}

/// Drains the whole queue, executing the requests one after the other in
/// submission order: the request enqueued at position k is executed at loop
/// step k, against the k-th entry of the script, and its delivery is the
/// k-th delivery.
pub fn run_loop(queue: &mut SubmissionQueue, script: Vec<CallScript>) -> (ds: Vec<Delivery>)
    requires
        script@.len() >= old(queue)@.len(),
    ensures
        ds@.len() == old(queue)@.len(),
        forall|k: int|
            0 <= k < ds@.len() ==> ds@[k].request == old(queue)@[k] && ds@[k].result
                == call_outcome(script@[k].raced, script@[k].body),
        final(queue)@.len() == 0,
        final(queue).closed() == old(queue).closed(),
{
    let ghost q0 = queue@;
    let ghost s0 = script@;
    let mut script = script;
    let mut ds: Vec<Delivery> = Vec::new();
    loop
        invariant
            s0.len() >= q0.len(),
            ds@.len() + queue@.len() == q0.len(),
            queue@ == q0.subrange(ds@.len() as int, q0.len() as int),
            script@ == s0.subrange(ds@.len() as int, s0.len() as int),
            queue.closed() == old(queue).closed(),
            forall|k: int|
                0 <= k < ds@.len() ==> ds@[k].request == q0[k] && ds@[k].result
                    == call_outcome(s0[k].raced, s0[k].body),
        ensures
            queue@.len() == 0,
            ds@.len() == q0.len(),
            queue.closed() == old(queue).closed(),
            forall|k: int|
                0 <= k < ds@.len() ==> ds@[k].request == q0[k] && ds@[k].result
                    == call_outcome(s0[k].raced, s0[k].body),
        decreases queue@.len(),
    {
        let ghost done = ds@.len() as int;
        match queue.dequeue() {
            None => {
                break;
            },
            Some(request) => {
                let step = script.remove(0);
                proof {
                    assert(queue@ =~= q0.subrange(done + 1, q0.len() as int));
                    assert(script@ =~= s0.subrange(done + 1, s0.len() as int));
                    assert(step == s0[done]);
                    assert(request == q0[done]);
                }
                let result = complete_call(step.raced, step.body);
                ds.push(Delivery { request, result });
            },
        }
    }
    ds
}

/// Fails out everything still waiting when the loop is torn down: the queue
/// is closed, and each pending request's caller receives
/// `ExecutorTerminated`, in submission order, instead of hanging.
pub fn shutdown(queue: &mut SubmissionQueue) -> (ds: Vec<Delivery>)
    ensures
        final(queue).closed(),
        final(queue)@.len() == 0,
        ds@.len() == old(queue)@.len(),
        forall|k: int|
            0 <= k < ds@.len() ==> ds@[k].request == old(queue)@[k] && ds@[k].result == Err::<
                Vec<u8>,
                Error,
            >(Error::ExecutorTerminated),
{
    let ghost q0 = queue@;
    queue.close();
    let mut ds: Vec<Delivery> = Vec::new();
    loop
        invariant
            ds@.len() + queue@.len() == q0.len(),
            queue@ == q0.subrange(ds@.len() as int, q0.len() as int),
            queue.closed(),
            forall|k: int|
                0 <= k < ds@.len() ==> ds@[k].request == q0[k] && ds@[k].result == Err::<
                    Vec<u8>,
                    Error,
                >(Error::ExecutorTerminated),
        ensures
            queue@.len() == 0,
            ds@.len() == q0.len(),
            queue.closed(),
            forall|k: int|
                0 <= k < ds@.len() ==> ds@[k].request == q0[k] && ds@[k].result == Err::<
                    Vec<u8>,
                    Error,
                >(Error::ExecutorTerminated),
        decreases queue@.len(),
    {
        let ghost done = ds@.len() as int;
        match queue.dequeue() {
            None => {
                break;
            },
            Some(request) => {
                proof {
                    assert(queue@ =~= q0.subrange(done + 1, q0.len() as int));
                    assert(request == q0[done]);
                }
                ds.push(Delivery { request, result: Err(Error::ExecutorTerminated) });
            },
        }
    }
    ds
}

/// What a waiting caller resolves with: the delivered result where one was
/// delivered, and `ExecutorTerminated` where the completion channel was
/// dropped before any result arrived — a caller never hangs.
pub fn completion_outcome(delivered: Option<Result<Vec<u8>, Error>>) -> (r: Result<Vec<u8>, Error>)
    ensures
        delivered is None ==> r == Err::<Vec<u8>, Error>(Error::ExecutorTerminated),
        delivered matches Some(outcome) ==> r == outcome,
{
    match delivered {
        Some(outcome) => outcome,
        None => Err(Error::ExecutorTerminated),
    }
}

/// FIFO network-phase ordering: `run_loop` executes the request at queue
/// position k exactly at loop step k, so of two requests the one enqueued
/// strictly earlier has its network call start strictly earlier. Stated of
/// any queue contents `q` and delivery record `ds` of the shape `run_loop`
/// guarantees: at the earlier step i the loop was executing the earlier
/// request, and the later request's step j had not begun.
pub proof fn lemma_fifo_network_phase(q: Seq<Request>, ds: Seq<Delivery>, i: int, j: int)
    requires
        ds.len() == q.len(),
        forall|k: int| 0 <= k < ds.len() ==> ds[k].request == q[k],
        0 <= i < j < q.len(),
    ensures
        ds[i].request == q[i],
        ds[j].request == q[j],
        i < j,
{
}

} // verus!

