use mightybadger_gotham::ambient::AmbientSlot;
use mightybadger_gotham::context::RequestContext;
use mightybadger_gotham::middleware::{
    HoneybadgerMiddleware, Phase, RequestCycle, StepOutcome, WithRequestContext,
};

fn context_of(raw: &[(&str, &[u8])]) -> RequestContext {
    let pairs: Vec<(String, Vec<u8>)> =
        raw.iter().map(|(n, v)| (n.to_string(), v.to_vec())).collect();
    RequestContext::from_headers(&pairs)
}

fn field<'a>(ctx: &'a RequestContext, key: &str) -> Option<&'a String> {
    let key = key.to_string();
    ctx.get(&key)
}

#[test]
fn interleaved_tasks_each_observe_their_own_context() {
    let mut slot = AmbientSlot::new();
    let tasks = vec![
        WithRequestContext::new(context_of(&[("X-Request-Id", b"first")])),
        WithRequestContext::new(context_of(&[("X-Request-Id", b"second")])),
    ];
    // Both tasks suspend mid-computation and are resumed alternately on the
    // same worker.
    let order = vec![0usize, 1, 0, 1];
    let reports = mightybadger_gotham::middleware::run_schedule(&mut slot, &tasks, &order);
    assert_eq!(reports.len(), 4);
    for (k, report) in reports.iter().enumerate() {
        let expected = if order[k] == 0 { "first" } else { "second" };
        assert_eq!(field(&report.seen, "HTTP_X_REQUEST_ID").unwrap(), expected);
    }
    assert!(slot.read().is_none());
}

#[test]
fn slot_is_empty_after_completion_fault_and_cancellation() {
    let mut slot = AmbientSlot::new();
    let task = WithRequestContext::new(context_of(&[("Host", b"localhost")]));
    for outcome in [StepOutcome::Completed, StepOutcome::Faulted, StepOutcome::Cancelled] {
        let report = task.poll_step(&mut slot, outcome);
        assert_eq!(report.outcome, outcome);
        assert!(slot.read().is_none());
    }
}

#[test]
fn nested_establishment_restores_the_outer_context() {
    let mut slot = AmbientSlot::new();
    let outer = context_of(&[("Host", b"outer")]);
    let inner = context_of(&[("Host", b"inner")]);
    let saved_outer = slot.install(outer);
    let saved_inner = slot.install(inner);
    assert_eq!(field(slot.read().unwrap(), "HTTP_HOST").unwrap(), "inner");
    slot.restore(saved_inner);
    assert_eq!(field(slot.read().unwrap(), "HTTP_HOST").unwrap(), "outer");
    slot.restore(saved_outer);
    assert!(slot.read().is_none());
}

#[test]
fn handler_reads_its_context_after_resuming() {
    let mut m = http::HeaderMap::new();
    m.insert(
        http::header::HeaderName::from_static("user-agent"),
        http::HeaderValue::from_static("test-agent"),
    );
    let mut slot = AmbientSlot::new();
    let middleware = HoneybadgerMiddleware;
    let (mut cycle, wrapped) = middleware.call(&m, &mut slot);
    assert_eq!(cycle.current_phase(), Phase::Dispatching);
    // The handler suspends once, then resumes and reads the ambient context.
    let first = wrapped.poll_step(&mut slot, StepOutcome::Suspended);
    assert_eq!(first.outcome, StepOutcome::Suspended);
    let second = wrapped.poll_step(&mut slot, StepOutcome::Completed);
    assert_eq!(field(&second.seen, "HTTP_USER_AGENT").unwrap(), "test-agent");
    cycle.finish();
    assert_eq!(cycle.current_phase(), Phase::Idle);
    assert!(slot.read().is_none());
}

#[test]
fn fault_handler_sees_the_faulting_requests_context() {
    let mut m = http::HeaderMap::new();
    m.insert(
        http::header::HeaderName::from_static("x-request-id"),
        http::HeaderValue::from_static("doomed"),
    );
    let mut slot = AmbientSlot::new();
    let middleware = HoneybadgerMiddleware;
    let (mut cycle, wrapped) = middleware.call(&m, &mut slot);
    // The handler faults during its driving step; the report captures the
    // ambient context read while the scope was still established.
    let report = wrapped.poll_step(&mut slot, StepOutcome::Faulted);
    assert_eq!(report.outcome, StepOutcome::Faulted);
    assert_eq!(field(&report.seen, "HTTP_X_REQUEST_ID").unwrap(), "doomed");
    cycle.finish();
    assert!(slot.read().is_none());
}

#[test]
fn middleware_phases_follow_the_request() {
    let mut slot = AmbientSlot::new();
    let mut cycle = RequestCycle::new();
    assert_eq!(cycle.current_phase(), Phase::Idle);
    let pairs = vec![("Host".to_string(), b"localhost".to_vec())];
    let wrapped = cycle.begin(&pairs, &mut slot);
    assert_eq!(cycle.current_phase(), Phase::Dispatching);
    let report = wrapped.poll_step(&mut slot, StepOutcome::Completed);
    assert_eq!(field(&report.seen, "HTTP_HOST").unwrap(), "localhost");
    cycle.finish();
    assert_eq!(cycle.current_phase(), Phase::Idle);
}
