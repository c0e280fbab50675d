use cdp_html_shot::plan::{Plan, Planned, Role, Run, Step};
use cdp_html_shot::Error;

fn call(method: &str) -> Step {
    Step::Call { method: method.to_string(), params: "{}".to_string() }
}

fn plan_of(steps: Vec<(&str, Role)>) -> Plan {
    let mut plan = Plan::new();
    for (method, role) in steps {
        plan.call(method, "{}".to_string(), role);
    }
    plan
}

fn ok(reply: &str) -> Result<String, Error> {
    Ok(reply.to_string())
}

#[test]
fn a_plan_keeps_its_steps_in_order() {
    let mut plan = Plan::new();
    assert_eq!(plan.len(), 0);
    plan.call("A", "{\"x\":1}".to_string(), Role::Plain);
    plan.listen("E");
    plan.await_event("E");
    plan.push(call("B"), Role::Result);
    assert_eq!(plan.len(), 4);
    assert_eq!(
        plan.steps,
        vec![
            Planned {
                step: Step::Call { method: "A".to_string(), params: "{\"x\":1}".to_string() },
                role: Role::Plain
            },
            Planned { step: Step::Listen { event: "E".to_string() }, role: Role::Plain },
            Planned { step: Step::Await { event: "E".to_string() }, role: Role::Plain },
            Planned { step: call("B"), role: Role::Result },
        ]
    );
}

#[test]
fn a_run_hands_out_every_step_when_nothing_fails() {
    let mut run = Run::begin(plan_of(vec![("A", Role::Plain), ("B", Role::Result), ("C", Role::Plain)]));
    assert_eq!(run.next_step(), Some(call("A")));
    assert!(run.is_waiting());
    run.record(ok("a"));
    assert!(!run.is_waiting());
    assert_eq!(run.next_step(), Some(call("B")));
    run.record(ok("b"));
    assert_eq!(run.next_step(), Some(call("C")));
    run.record(ok("c"));
    assert_eq!(run.next_step(), None);
    assert_eq!(run.conclude(), Ok(Some("b".to_string())));
}

#[test]
fn a_run_without_a_result_step_concludes_with_none() {
    let mut run = Run::begin(plan_of(vec![("A", Role::Plain)]));
    run.next_step();
    run.record(ok("a"));
    assert_eq!(run.next_step(), None);
    assert_eq!(run.conclude(), Ok(None));
}

#[test]
fn an_empty_plan_is_over_at_once() {
    let mut run = Run::begin(Plan::new());
    assert_eq!(run.next_step(), None);
    assert_eq!(run.conclude(), Ok(None));
}

#[test]
fn a_failure_skips_the_steps_that_follow() {
    let mut run = Run::begin(plan_of(vec![("A", Role::Plain), ("B", Role::Result), ("C", Role::Plain)]));
    assert_eq!(run.next_step(), Some(call("A")));
    run.record(Err(Error::RequestTimeout));
    assert_eq!(run.next_step(), None);
    assert_eq!(run.conclude(), Err(Error::RequestTimeout));
}

#[test]
fn no_step_is_handed_out_while_one_is_outstanding() {
    let mut run = Run::begin(plan_of(vec![("A", Role::Plain), ("B", Role::Plain)]));
    assert_eq!(run.next_step(), Some(call("A")));
    assert_eq!(run.next_step(), None);
    assert_eq!(run.next_step(), None);
    run.record(ok(""));
    assert_eq!(run.next_step(), Some(call("B")));
}

#[test]
fn recording_without_a_step_changes_nothing() {
    let mut run = Run::begin(plan_of(vec![("A", Role::Result)]));
    run.record(Err(Error::TransportClosed));
    run.record(ok("early"));
    assert_eq!(run.next_step(), Some(call("A")));
    run.record(ok("a"));
    run.record(ok("late"));
    assert_eq!(run.conclude(), Ok(Some("a".to_string())));
}

fn transparent_capture() -> Plan {
    plan_of(vec![
        ("Viewport", Role::Plain),
        ("Install", Role::Plain),
        ("Activate", Role::Plain),
        ("Capture", Role::Result),
        ("Clear", Role::Undo { of: 1 }),
    ])
}

fn performed(plan: Plan, failing: Option<&str>) -> (Vec<String>, Result<Option<String>, Error>) {
    let mut run = Run::begin(plan);
    let mut done = Vec::new();
    while let Some(step) = run.next_step() {
        let method = match step {
            Step::Call { method, .. } => method,
            Step::Listen { event } => event,
            Step::Await { event } => event,
        };
        if failing == Some(method.as_str()) {
            run.record(Err(Error::RequestTimeout));
        } else {
            run.record(Ok(format!("{} reply", method)));
        }
        done.push(method);
    }
    (done, run.conclude())
}

#[test]
fn an_undo_step_runs_after_a_success() {
    let (done, end) = performed(transparent_capture(), None);
    assert_eq!(done, vec!["Viewport", "Install", "Activate", "Capture", "Clear"]);
    assert_eq!(end, Ok(Some("Capture reply".to_string())));
}

#[test]
fn an_undo_step_runs_after_the_capture_failed() {
    let (done, end) = performed(transparent_capture(), Some("Capture"));
    assert_eq!(done, vec!["Viewport", "Install", "Activate", "Capture", "Clear"]);
    assert_eq!(end, Err(Error::RequestTimeout));
}

#[test]
fn an_undo_step_runs_after_any_step_since_its_own_failed() {
    let (done, _) = performed(transparent_capture(), Some("Activate"));
    assert_eq!(done, vec!["Viewport", "Install", "Activate", "Clear"]);
    let (done, _) = performed(transparent_capture(), Some("Install"));
    assert_eq!(done, vec!["Viewport", "Install", "Clear"]);
}

#[test]
fn an_undo_step_is_skipped_when_its_step_was_never_reached() {
    let (done, end) = performed(transparent_capture(), Some("Viewport"));
    assert_eq!(done, vec!["Viewport"]);
    assert_eq!(end, Err(Error::RequestTimeout));
}

#[test]
fn a_failed_undo_step_fails_nothing() {
    let (done, end) = performed(transparent_capture(), Some("Clear"));
    assert_eq!(done.len(), 5);
    assert_eq!(end, Ok(Some("Capture reply".to_string())));
}

#[test]
fn the_first_failure_is_the_one_reported() {
    let mut run = Run::begin(transparent_capture());
    run.next_step();
    run.record(ok(""));
    run.next_step();
    run.record(ok(""));
    run.next_step();
    run.record(Err(Error::TransportClosed));
    assert_eq!(run.next_step(), Some(call("Clear")));
    run.record(Err(Error::RequestTimeout));
    assert_eq!(run.next_step(), None);
    assert_eq!(run.conclude(), Err(Error::TransportClosed));
}

#[test]
fn a_clone_of_a_step_equals_it() {
    let steps = vec![
        call("A"),
        Step::Listen { event: "E".to_string() },
        Step::Await { event: "E".to_string() },
    ];
    for s in &steps {
        assert_eq!(&s.clone(), s);
    }
}
