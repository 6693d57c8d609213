//! The execution loop's decisions: status mapping, timeout racing, FIFO
//! order and disconnection behaviour.

use jsonrpc_client_http::dispatch::{complete_call, completion_outcome, process_next, run_loop,
    shutdown};
use jsonrpc_client_http::{
    BodyRead, CallScript, Error, HostSetup, HttpTransport, ResponseHead, SubmissionQueue,
    TimeLimited,
};
use std::time::Duration;

fn ok_head(status: u16) -> Result<ResponseHead, Error> {
    Ok(ResponseHead { status })
}

#[test]
fn status_200_delivers_the_body() {
    let result = complete_call(ok_head(200), BodyRead::Full(b"ok".to_vec()));
    assert_eq!(result, Ok(b"ok".to_vec()));
}

#[test]
fn status_404_is_an_http_status_error() {
    let result = complete_call(ok_head(404), BodyRead::Full(b"ignored".to_vec()));
    assert_eq!(result, Err(Error::HttpStatusError(404)));
}

#[test]
fn status_500_is_an_http_status_error() {
    let result = complete_call(ok_head(500), BodyRead::Failed);
    assert_eq!(result, Err(Error::HttpStatusError(500)));
}

#[test]
fn failed_body_read_is_a_transport_error() {
    let result = complete_call(ok_head(200), BodyRead::Failed);
    assert_eq!(result, Err(Error::UnderlyingTransportError));
}

#[test]
fn transport_failure_passes_through() {
    let result = complete_call(
        Err(Error::UnderlyingTransportError),
        BodyRead::Full(Vec::new()),
    );
    assert_eq!(result, Err(Error::UnderlyingTransportError));
}

#[test]
fn timer_firing_first_yields_request_timeout() {
    let limiter = TimeLimited::limited(Duration::from_millis(50));
    let polled = limiter.poll::<ResponseHead>(None, true);
    assert_eq!(polled, Some(Err(Error::RequestTimeout)));
}

#[test]
fn slow_target_with_timeout_yields_request_timeout() {
    // A 50 ms limit with a target that answers only after the timer fired:
    // the race is decided by the timer, and the loop delivers the timeout.
    let limiter = TimeLimited::new(Some(Duration::from_millis(50)));
    let raced = limiter.poll::<ResponseHead>(None, true).unwrap();
    let result = complete_call(raced, BodyRead::Failed);
    assert_eq!(result, Err(Error::RequestTimeout));
}

#[test]
fn response_before_the_timer_wins_the_race() {
    let limiter = TimeLimited::limited(Duration::from_millis(50));
    let polled = limiter.poll(Some(ok_head(200)), false);
    assert_eq!(polled, Some(ok_head(200)));
}

#[test]
fn tie_is_resolved_in_favor_of_the_operation() {
    let limiter = TimeLimited::limited(Duration::from_millis(50));
    let polled = limiter.poll(Some(ok_head(200)), true);
    assert_eq!(polled, Some(ok_head(200)));
}

#[test]
fn unlimited_wrapper_ignores_the_timer() {
    let limiter = TimeLimited::new(None);
    assert_eq!(limiter.poll::<ResponseHead>(None, true), None);
    let polled = limiter.poll(Some(ok_head(404)), true);
    assert_eq!(polled, Some(ok_head(404)));
}

#[test]
fn neither_side_done_keeps_waiting() {
    let limiter = TimeLimited::limited(Duration::from_millis(50));
    assert_eq!(limiter.poll::<ResponseHead>(None, false), None);
}

#[test]
fn requests_complete_in_submission_order() {
    let transport = HttpTransport::new().standalone(HostSetup::Ready).unwrap();
    let handle = transport.handle("http://127.0.0.1:3030/").unwrap();
    let mut queue = SubmissionQueue::new();
    handle.send(&mut queue, b"first".to_vec()).unwrap();
    handle.send(&mut queue, b"second".to_vec()).unwrap();
    // The first request is slow and times out; the second is fast. The slow
    // one still occupies the loop first and its outcome is delivered first.
    let script = vec![
        CallScript { raced: Err(Error::RequestTimeout), body: BodyRead::Failed },
        CallScript { raced: ok_head(200), body: BodyRead::Full(b"fast".to_vec()) },
    ];
    let deliveries = run_loop(&mut queue, script);
    assert_eq!(deliveries.len(), 2);
    assert_eq!(deliveries[0].request.body, b"first".to_vec());
    assert_eq!(deliveries[0].result, Err(Error::RequestTimeout));
    assert_eq!(deliveries[1].request.body, b"second".to_vec());
    assert_eq!(deliveries[1].result, Ok(b"fast".to_vec()));
    assert_eq!(queue.len(), 0);
}

#[test]
fn process_next_takes_the_front_request() {
    let transport = HttpTransport::new().shared(true).unwrap();
    let handle = transport.handle("http://127.0.0.1:3030/").unwrap();
    let mut queue = SubmissionQueue::new();
    handle.send(&mut queue, b"a".to_vec()).unwrap();
    handle.send(&mut queue, b"b".to_vec()).unwrap();
    let step = CallScript { raced: ok_head(200), body: BodyRead::Full(b"r".to_vec()) };
    let delivery = process_next(&mut queue, step).unwrap();
    assert_eq!(delivery.request.body, b"a".to_vec());
    assert_eq!(delivery.result, Ok(b"r".to_vec()));
    assert_eq!(queue.len(), 1);
}

#[test]
fn empty_queue_has_nothing_to_process() {
    let mut queue = SubmissionQueue::new();
    let step = CallScript { raced: ok_head(200), body: BodyRead::Full(Vec::new()) };
    assert!(process_next(&mut queue, step).is_none());
}

#[test]
fn send_to_a_closed_queue_fails_with_queue_closed() {
    let transport = HttpTransport::new().standalone(HostSetup::Ready).unwrap();
    let handle = transport.handle("http://127.0.0.1:3030/").unwrap();
    let mut queue = SubmissionQueue::new();
    queue.close();
    let error = handle.send(&mut queue, b"late".to_vec()).unwrap_err();
    assert_eq!(error, Error::QueueClosed);
    assert_eq!(queue.len(), 0);
}

#[test]
fn shutdown_fails_out_everything_still_waiting() {
    let transport = HttpTransport::new().standalone(HostSetup::Ready).unwrap();
    let handle = transport.handle("http://127.0.0.1:3030/").unwrap();
    let mut queue = SubmissionQueue::new();
    handle.send(&mut queue, b"one".to_vec()).unwrap();
    handle.send(&mut queue, b"two".to_vec()).unwrap();
    let deliveries = shutdown(&mut queue);
    assert_eq!(deliveries.len(), 2);
    assert_eq!(deliveries[0].result, Err(Error::ExecutorTerminated));
    assert_eq!(deliveries[1].result, Err(Error::ExecutorTerminated));
    assert!(queue.is_closed());
    assert_eq!(queue.len(), 0);
    // Later submissions observe the closed queue.
    let error = handle.send(&mut queue, b"three".to_vec()).unwrap_err();
    assert_eq!(error, Error::QueueClosed);
}

#[test]
fn dropped_completion_channel_resolves_with_executor_terminated() {
    assert_eq!(
        completion_outcome(None),
        Err(Error::ExecutorTerminated)
    );
    assert_eq!(
        completion_outcome(Some(Ok(b"ok".to_vec()))),
        Ok(b"ok".to_vec())
    );
    assert_eq!(
        completion_outcome(Some(Err(Error::RequestTimeout))),
        Err(Error::RequestTimeout)
    );
}
