use loadrun::executer::{Directive, Executer, Scenario, Step, StepResult};

fn step(url: &str, method: &str) -> Step {
    Step::new(url.to_string(), method.to_string())
}

/// Drives a run to exhaustion against a mock target: every dispatched call is
/// answered with `status` after `latency` nanoseconds, and the clock advances
/// by `latency` per call. Returns the results and the dispatched URLs, in
/// production order.
fn drive(
    mut run: loadrun::executer::Run,
    status: Option<u16>,
    latency: u64,
) -> (Vec<StepResult>, Vec<String>) {
    let mut elapsed: u64 = 0;
    let mut results = Vec::new();
    let mut urls = Vec::new();
    loop {
        match run.advance(elapsed) {
            Directive::Done => break,
            Directive::Idle => {
                elapsed += 1;
            }
            Directive::Dispatch(s) => {
                urls.push(s.url.clone());
                elapsed += latency;
                results.push(run.record(status, latency));
            }
        }
    }
    (results, urls)
}

#[test]
fn single_pass_two_steps_both_200() {
    // Two steps, duration 0: smaller than one pass's latency, so exactly one
    // pass completes, producing two results with status 200.
    let steps = vec![step("http://localhost/hoge", "GET"), step("http://localhost/fuga", "GET")];
    let executer = Executer::new();
    let run = executer.execute_scenario(Scenario::new(0, steps));
    let (results, urls) = drive(run, Some(200), 10);
    assert_eq!(results.len(), 2);
    assert_eq!(results[0].status, Some(200));
    assert_eq!(results[1].status, Some(200));
    assert_eq!(urls, vec!["http://localhost/hoge".to_string(), "http://localhost/fuga".to_string()]);
}

#[test]
fn one_result_per_step_in_input_order() {
    // Three steps, enough duration for several passes: each pass yields
    // exactly one result per step, in list order.
    let steps = vec![step("http://t/a", "GET"), step("http://t/b", "POST"), step("http://t/c", "GET")];
    let executer = Executer::new();
    let run = executer.execute_scenario(Scenario::new(25, steps));
    // latency 4 per call: passes start at elapsed 0, 12, 24; guard fires at 36.
    let (results, urls) = drive(run, Some(204), 4);
    assert_eq!(results.len(), 9);
    let expected: Vec<String> = ["a", "b", "c", "a", "b", "c", "a", "b", "c"]
        .iter()
        .map(|p| format!("http://t/{}", p))
        .collect();
    assert_eq!(urls, expected);
}

#[test]
fn status_code_passes_through() {
    // Whatever status the target answers with is the result's status.
    let executer = Executer::new();
    for code in [200u16, 404, 500] {
        let run = executer.execute_scenario(Scenario::new(0, vec![step("http://t/x", "GET")]));
        let (results, _) = drive(run, Some(code), 3);
        assert_eq!(results.len(), 1);
        assert_eq!(results[0].status, Some(code));
        assert_eq!(results[0].duration, 3);
    }
}

#[test]
fn unreachable_target_gives_absent_status() {
    // A call that fails before a response is obtained is recorded with an
    // absent status and the measured latency, and the run goes on.
    let steps = vec![step("http://unreachable.invalid/x", "GET"), step("http://t/y", "GET")];
    let executer = Executer::new();
    let mut run = executer.execute_scenario(Scenario::new(0, steps));
    match run.advance(0) {
        Directive::Dispatch(_) => {}
        _ => panic!("expected a dispatch"),
    }
    let failed = run.record(None, 12345);
    assert_eq!(failed.status, None);
    assert_eq!(failed.duration, 12345);
    match run.advance(0) {
        Directive::Dispatch(s) => assert_eq!(s.url, "http://t/y"),
        _ => panic!("a failed call must not abort the pass"),
    }
    let ok = run.record(Some(200), 7);
    assert_eq!(ok.status, Some(200));
    assert!(matches!(run.advance(1), Directive::Done));
}

#[test]
fn empty_step_list_yields_no_results_and_waits_out_duration() {
    // An empty list is legal: the run spins on the guard until the duration
    // has elapsed and produces nothing.
    let executer = Executer::new();
    let mut run = executer.execute_scenario(Scenario::new(10, Vec::new()));
    assert!(matches!(run.advance(0), Directive::Idle));
    assert!(matches!(run.advance(5), Directive::Idle));
    // elapsed equal to the duration does not fire the guard yet.
    assert!(matches!(run.advance(10), Directive::Idle));
    assert!(matches!(run.advance(11), Directive::Done));
    let (results, urls) = drive(executer.execute_scenario(Scenario::new(3, Vec::new())), Some(200), 1);
    assert!(results.is_empty());
    assert!(urls.is_empty());
}

#[test]
fn guard_fires_only_between_passes() {
    // The deadline crossed mid-pass does not cut the pass short: the run
    // overshoots by at most one pass and never stops before the duration.
    let steps = vec![step("http://t/a", "GET"), step("http://t/b", "GET")];
    let executer = Executer::new();
    let mut run = executer.execute_scenario(Scenario::new(100, steps));
    assert!(matches!(run.advance(0), Directive::Dispatch(_)));
    run.record(Some(200), 80);
    // Deadline already crossed, but the pass must finish.
    match run.advance(150) {
        Directive::Dispatch(s) => assert_eq!(s.url, "http://t/b"),
        _ => panic!("the guard must not fire mid-pass"),
    }
    run.record(Some(200), 80);
    // Back at a pass boundary: now the guard fires.
    assert!(matches!(run.advance(160), Directive::Done));
}

#[test]
fn call_order_is_deterministic_across_runs() {
    // The same scenario driven twice dispatches the same URLs in the same
    // order, even though statuses and latencies differ between the runs.
    let make = || {
        vec![step("http://t/1", "GET"), step("http://t/2", "PUT"), step("http://t/3", "DELETE")]
    };
    let executer = Executer::new();
    let (_, urls_a) = drive(executer.execute_scenario(Scenario::new(20, make())), Some(200), 2);
    let (_, urls_b) = drive(executer.execute_scenario(Scenario::new(20, make())), None, 2);
    assert_eq!(urls_a, urls_b);
}

#[test]
fn step_and_scenario_store_fields_verbatim() {
    let s = Step::new("http://example.com/a?q=1".to_string(), "options".to_string());
    assert_eq!(s.url, "http://example.com/a?q=1");
    assert_eq!(s.method, "options");
    let sc = Scenario::new(987654321, vec![s]);
    assert_eq!(sc.duration, 987654321);
    assert_eq!(sc.steps.len(), 1);
    assert_eq!(sc.steps[0].method, "options");
}

#[test]
fn method_token_validity() {
    let valid = ["GET", "POST", "PATCH", "get", "M-SEARCH", "X_1!"];
    for m in valid {
        assert!(step("http://t/", m).method_is_valid(), "{} should be valid", m);
    }
    let invalid = ["", "G T", "GET/", "GET\n", "über", "GE\u{7f}T"];
    for m in invalid {
        assert!(!step("http://t/", m).method_is_valid(), "{:?} should be invalid", m);
    }
}
