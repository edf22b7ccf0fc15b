use made_funicular_postzegel_io_router::balancer::{failure_handler, requeue_unassigned, Balancer};
use made_funicular_postzegel_io_router::channel::{channel, Fork, Sink};
use made_funicular_postzegel_io_router::dispatcher::{AckOutcome, AssignResult, Dispatcher, WorkId};
use made_funicular_postzegel_io_router::global::ChannelKey;
use made_funicular_postzegel_io_router::postzegel::PostzegelEvent;
use made_funicular_postzegel_io_router::rpc::{WorkAcknowledgement, WorkAssignment};
use made_funicular_postzegel_io_router::task_util::{BacklogEntry, IdemId, TaskFailureHandler};
use tokio::sync::mpsc::Receiver;

fn worker_channel() -> (Sink<WorkAssignment>, Receiver<WorkAssignment>) {
    let (sink, source) = channel::<WorkAssignment>(1, ChannelKey::Assignments);
    (sink, source.expose_receiver())
}

fn backlog() -> (Sink<BacklogEntry>, Receiver<BacklogEntry>) {
    let (_events_sink, events) = channel::<PostzegelEvent>(4, ChannelKey::Scanner);
    let balancer = Balancer::new(events);
    let (_events, sink, source) = balancer.into_parts();
    (sink, source.expose_receiver())
}

fn event(code: &[u8; 9]) -> PostzegelEvent {
    PostzegelEvent::new(*code)
}

#[test]
fn workers_get_consecutive_ids_and_tasks_in_ready_order() {
    let (backlog_sink, _backlog_rx) = backlog();
    let mut d = Dispatcher::new();
    let (s0, mut r0) = worker_channel();
    let (s1, mut r1) = worker_channel();
    assert_eq!(d.peek_next_worker_id(), 0);
    assert_eq!(d.new_worker(s0), 0);
    assert_eq!(d.new_worker(s1), 1);
    assert_eq!(d.peek_next_worker_id(), 2);

    let e = event(b"abcdefGHI");
    let (work, idem) = d.begin_assign(e.code_str(), None);
    assert_eq!(work.task_id, 0);
    assert_eq!(work.idempotency_id, 0);
    assert_eq!(idem.as_number(), 0);
    assert_eq!(work.postzegel_code, "abcdefGHI");
    assert!(d.has_available_worker());
    let (id, sender) = d.claim_worker(&work, idem, TaskFailureHandler::new(e, backlog_sink.fork()));
    assert_eq!(id, WorkId { worker_id: 0, task_id: 0 });
    assert!(sender.try_send(work).is_ok());
    let (result, retry) = d.finish_assign(id, Ok(()));
    assert_eq!(result, AssignResult::Assigned(id));
    assert!(retry.is_none());
    assert_eq!(r0.try_recv().unwrap().postzegel_code, "abcdefGHI");
    assert!(d.is_busy(0));
    assert!(d.is_in_flight(id));

    let e2 = event(b"135792468");
    let (work2, idem2) = d.begin_assign(e2.code_str(), None);
    assert_eq!(work2.task_id, 1);
    assert_eq!(idem2.as_number(), 1);
    let (id2, sender2) = d.claim_worker(&work2, idem2, TaskFailureHandler::new(e2, backlog_sink.fork()));
    assert_eq!(id2, WorkId { worker_id: 1, task_id: 1 });
    assert!(sender2.try_send(work2).is_ok());
    assert_eq!(r1.try_recv().unwrap().task_id, 1);
    assert!(!d.has_available_worker());
}

#[test]
fn completed_work_sends_the_worker_to_the_back_of_the_queue() {
    let (backlog_sink, mut backlog_rx) = backlog();
    let mut d = Dispatcher::new();
    let (s0, _r0) = worker_channel();
    let (s1, _r1) = worker_channel();
    d.new_worker(s0);
    d.new_worker(s1);
    let e = event(b"aaaaaaaaa");
    let (work, idem) = d.begin_assign(e.code_str(), None);
    let (id, _) = d.claim_worker(&work, idem, TaskFailureHandler::new(e, backlog_sink.fork()));
    assert_eq!(id.worker_id, 0);
    let (settled_idem, handler) = d.complete_work(id).expect("in flight");
    assert_eq!(settled_idem.as_number(), 0);
    drop(handler);
    assert!(!d.is_busy(0));
    assert!(!d.is_in_flight(id));
    // a repeated acknowledgement changes nothing
    assert!(d.complete_work(id).is_none());
    // worker 1 was ready before worker 0 came back
    let e = event(b"bbbbbbbbb");
    let (work, idem) = d.begin_assign(e.code_str(), None);
    let (id, _) = d.claim_worker(&work, idem, TaskFailureHandler::new(e, backlog_sink.fork()));
    assert_eq!(id, WorkId { worker_id: 1, task_id: 1 });
    let e = event(b"ccccccccc");
    let (work, idem) = d.begin_assign(e.code_str(), None);
    let (id, _) = d.claim_worker(&work, idem, TaskFailureHandler::new(e, backlog_sink.fork()));
    assert_eq!(id, WorkId { worker_id: 0, task_id: 2 });
    assert!(backlog_rx.try_recv().is_err());
}

#[test]
fn a_failed_task_is_retried_under_its_idempotency_id() {
    let (backlog_sink, mut backlog_rx) = backlog();
    let mut d = Dispatcher::new();
    let (s0, _r0) = worker_channel();
    d.new_worker(s0);
    let e = event(b"13579ALlo");
    let (work, idem) = d.begin_assign(e.code_str(), None);
    let first = work.idempotency_id;
    let (id, _) = d.claim_worker(&work, idem, TaskFailureHandler::new(e, backlog_sink.fork()));
    let outcome = d.handle_ack(0, WorkAcknowledgement { task_id: id.task_id, error: "boom".to_string() });
    assert!(matches!(outcome, AckOutcome::Failed(Some(Ok(())))));
    assert!(!d.is_busy(0));
    assert!(d.has_available_worker());
    let (retried, retry_idem) = backlog_rx.try_recv().expect("retry on the backlog");
    assert_eq!(retried.code_str(), "13579ALlo");
    let retry_idem = retry_idem.expect("a retry carries its idempotency id");
    assert_eq!(retry_idem.as_number(), first);
    // the retry gets a new task id but keeps the idempotency id
    let (work2, idem2) = d.begin_assign(retried.code_str(), Some(retry_idem));
    assert_eq!(work2.task_id, 1);
    assert_eq!(work2.idempotency_id, first);
    assert_eq!(idem2, IdemId::new(first));
}

#[test]
fn an_empty_error_acknowledges() {
    let (backlog_sink, mut backlog_rx) = backlog();
    let mut d = Dispatcher::new();
    let (s0, _r0) = worker_channel();
    d.new_worker(s0);
    let e = event(b"ZZZZ00000");
    let (work, idem) = d.begin_assign(e.code_str(), None);
    let (id, _) = d.claim_worker(&work, idem, TaskFailureHandler::new(e, backlog_sink.fork()));
    assert!(matches!(
        d.handle_ack(0, WorkAcknowledgement { task_id: id.task_id, error: String::new() }),
        AckOutcome::Completed(Some(_))
    ));
    assert!(!d.is_in_flight(id));
    assert!(backlog_rx.try_recv().is_err());
    // an acknowledgement of a task that is not in flight is ignored
    assert!(matches!(
        d.handle_ack(0, WorkAcknowledgement { task_id: 7, error: String::new() }),
        AckOutcome::Completed(None)
    ));
    assert!(matches!(
        d.handle_ack(0, WorkAcknowledgement { task_id: 7, error: "late".to_string() }),
        AckOutcome::Failed(None)
    ));
}

#[test]
fn failing_an_unknown_task_does_nothing() {
    let mut d = Dispatcher::new();
    let (s0, _r0) = worker_channel();
    d.new_worker(s0);
    assert!(d.can_claim());
    assert!(d
        .fail_work(WorkId { worker_id: 0, task_id: 3 }, made_funicular_postzegel_io_router::task_util::FailReason::Timeout)
        .is_none());
    assert!(d.has_available_worker());
}

#[test]
fn a_failed_send_puts_the_task_back() {
    let (backlog_sink, mut backlog_rx) = backlog();
    let mut d = Dispatcher::new();
    let (s0, r0) = worker_channel();
    d.new_worker(s0);
    drop(r0);
    let e = event(b"a1b2c3d4e");
    let (work, idem) = d.begin_assign(e.code_str(), Some(IdemId::new(42)));
    assert_eq!(work.idempotency_id, 42);
    let (id, sender) = d.claim_worker(&work, idem, TaskFailureHandler::new(e, backlog_sink.fork()));
    let err = sender.try_send(work).unwrap_err();
    assert_eq!(err.1, "backlog closed!");
    let (result, retry) = d.finish_assign(id, Err("channel closed".to_string()));
    assert_eq!(result, AssignResult::Error("channel closed".to_string()));
    assert!(matches!(retry, Some(Ok(()))));
    assert!(!d.is_in_flight(id));
    // the worker stays busy
    assert!(d.is_busy(0));
    let (retried, retry_idem) = backlog_rx.try_recv().unwrap();
    assert_eq!(retried.code_str(), "a1b2c3d4e");
    assert_eq!(retry_idem, Some(IdemId::new(42)));
}

#[test]
fn removing_a_worker_drops_its_task_zero_only() {
    let (backlog_sink, mut backlog_rx) = backlog();
    let mut d = Dispatcher::new();
    let (s0, _r0) = worker_channel();
    let (s1, _r1) = worker_channel();
    d.new_worker(s0);
    d.new_worker(s1);
    let e = event(b"000000000");
    let (work, idem) = d.begin_assign(e.code_str(), None);
    let (id0, _) = d.claim_worker(&work, idem, TaskFailureHandler::new(e, backlog_sink.fork()));
    let e = event(b"111111111");
    let (work, idem) = d.begin_assign(e.code_str(), None);
    let (id1, _) = d.claim_worker(&work, idem, TaskFailureHandler::new(e, backlog_sink.fork()));
    assert_eq!(id0, WorkId { worker_id: 0, task_id: 0 });
    assert_eq!(id1, WorkId { worker_id: 1, task_id: 1 });
    d.remove_worker(0);
    assert!(!d.is_busy(0));
    assert!(!d.is_in_flight(id0));
    d.remove_worker(1);
    assert!(!d.is_busy(1));
    assert!(d.is_in_flight(id1));
    assert!(backlog_rx.try_recv().is_err());
}

#[test]
fn the_balancer_requeues_only_unassigned_events() {
    let (_events_sink, events) = channel::<PostzegelEvent>(4, ChannelKey::Scanner);
    let balancer = Balancer::new(events);
    let sink0 = balancer.backlog_sink();
    let e = event(b"qqqqqqqqq");
    assert!(requeue_unassigned(&sink0, e, &AssignResult::Assigned(WorkId { worker_id: 0, task_id: 0 }))
        .is_none());
    assert!(matches!(requeue_unassigned(&sink0, e, &AssignResult::NoWorkers), Some(Ok(()))));
    assert!(matches!(
        requeue_unassigned(&sink0, e, &AssignResult::Error("x".to_string())),
        Some(Ok(()))
    ));
    let handler = failure_handler(&sink0, e);
    let (_events, _sink, source) = balancer.into_parts();
    let mut rx = source.expose_receiver();
    let (first, idem) = rx.try_recv().unwrap();
    assert_eq!(first.code_str(), "qqqqqqqqq");
    assert!(idem.is_none());
    assert!(rx.try_recv().unwrap().1.is_none());
    assert!(rx.try_recv().is_err());
    assert!(handler.fail_task(IdemId::new(5)).is_ok());
    assert_eq!(rx.try_recv().unwrap().1, Some(IdemId::new(5)));
}

#[test]
fn forwarding_to_a_full_backlog_hands_the_event_back() {
    let (sink, source) = channel::<BacklogEntry>(1, ChannelKey::BalancerBacklog);
    let e = event(b"fffffffff");
    assert!(made_funicular_postzegel_io_router::balancer::forward_event(&sink, e).is_ok());
    let ((back, idem), reason) = made_funicular_postzegel_io_router::balancer::forward_event(&sink, e).unwrap_err();
    assert_eq!(back.code_str(), "fffffffff");
    assert!(idem.is_none());
    assert_eq!(reason, "full");
    drop(source);
    let (_, reason) = made_funicular_postzegel_io_router::balancer::forward_event(&sink, e).unwrap_err();
    assert_eq!(reason, "backlog closed!");
}

#[test]
fn a_refused_retry_comes_back_unchanged() {
    let (sink, source) = channel::<BacklogEntry>(1, ChannelKey::BalancerBacklog);
    drop(source);
    let e = event(b"rrrrrrrrr");
    let handler = TaskFailureHandler::new(e, sink);
    let ((back, idem), reason) = handler.fail_task(IdemId::new(9)).unwrap_err();
    assert_eq!(back.code_str(), "rrrrrrrrr");
    assert_eq!(idem, Some(IdemId::new(9)));
    assert_eq!(reason, "backlog closed!");
}

#[test]
fn the_registered_worker_receives_the_assignment() {
    let (backlog_sink, _backlog_rx) = backlog();
    let mut d = Dispatcher::new();
    let (snk, mut src) = worker_channel();
    assert_eq!(d.new_worker(snk), 0);
    let e = event(b"abc123XYZ");
    let (work, idem) = d.begin_assign("abc123XYZ".to_string(), Some(IdemId::new(7)));
    let (id, sender) = d.claim_worker(&work, idem, TaskFailureHandler::new(e, backlog_sink.fork()));
    assert!(sender.try_send(work).is_ok());
    let (result, _) = d.finish_assign(id, Ok(()));
    assert_eq!(result, AssignResult::Assigned(WorkId { worker_id: 0, task_id: 0 }));
    let got = src.try_recv().unwrap();
    assert_eq!(got.task_id, 0);
    assert_eq!(got.idempotency_id, 7);
    assert_eq!(got.postzegel_code, "abc123XYZ");
}

#[test]
fn a_worker_back_in_the_queue_keeps_its_channel() {
    let (backlog_sink, _backlog_rx) = backlog();
    let mut d = Dispatcher::new();
    let (snk, mut src) = worker_channel();
    d.new_worker(snk);
    for round in 0..3u64 {
        let e = event(b"roundrobn");
        let (work, idem) = d.begin_assign(e.code_str(), None);
        let (id, sender) = d.claim_worker(&work, idem, TaskFailureHandler::new(e, backlog_sink.fork()));
        assert!(sender.try_send(work).is_ok());
        assert_eq!(src.try_recv().unwrap().task_id, round);
        assert!(d.complete_work(id).is_some());
    }
}
