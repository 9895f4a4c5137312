use brew_manager::Publisher;
use brew_manager::SourceKind;
use brew_manager::StreamEvent;
use brew_manager::to_brew_log;
use brew_manager::BrewLogEvent;
use brew_manager::events::i32_dec;
use brew_manager::events::u64_dec;
use brew_manager::events::diag_line_text;
use brew_manager::events::source_label;

fn log_of(e: &StreamEvent) -> BrewLogEvent {
    to_brew_log(e)
}

#[test]
fn successful_stdout_run_sequence() {
    let mut p = Publisher::new(String::from("run-1"));
    let start = p.start();
    let l1 = p.line(SourceKind::Stdout, String::from("first"));
    let l2 = p.line(SourceKind::Stdout, String::from("second"));
    let tail = p.finish(true, Some(0));

    let s = log_of(&start);
    assert_eq!(s.stage, "start");
    assert_eq!(s.request_id, "run-1");
    assert!(s.stream.is_none());
    assert!(s.line.is_none());
    assert!(s.success.is_none());

    let e1 = log_of(&l1);
    assert_eq!(e1.stage, "line");
    assert_eq!(e1.stream.as_deref(), Some("stdout"));
    assert_eq!(e1.line.as_deref(), Some("first"));

    let e2 = log_of(&l2);
    assert_eq!(e2.line.as_deref(), Some("second"));

    // a successful run gets no diagnostic line: the tail is End alone
    assert_eq!(tail.len(), 1);
    let end = log_of(&tail[0]);
    assert_eq!(end.stage, "end");
    assert_eq!(end.success, Some(true));
    assert_eq!(end.request_id, "run-1");
}

#[test]
fn silent_failure_gets_diagnostic_line() {
    let mut p = Publisher::new(String::from("run-2"));
    let _ = p.start();
    let tail = p.finish(false, Some(3));
    assert_eq!(tail.len(), 2);
    let diag = log_of(&tail[0]);
    assert_eq!(diag.stage, "line");
    assert_eq!(diag.stream.as_deref(), Some("stderr"));
    assert_eq!(
        diag.line.as_deref(),
        Some("命令退出但没有输出（exit code: 3）")
    );
    let end = log_of(&tail[1]);
    assert_eq!(end.stage, "end");
    assert_eq!(end.success, Some(false));
}

#[test]
fn silent_failure_without_code_says_unknown() {
    let mut p = Publisher::new(String::from("run-3"));
    let _ = p.start();
    let tail = p.finish(false, None);
    assert_eq!(tail.len(), 2);
    let diag = log_of(&tail[0]);
    assert_eq!(
        diag.line.as_deref(),
        Some("命令退出但没有输出（exit code: unknown）")
    );
}

#[test]
fn failing_run_with_output_gets_no_diagnostic() {
    let mut p = Publisher::new(String::from("run-4"));
    let _ = p.start();
    let _ = p.line(SourceKind::Stdout, String::from("some progress"));
    let tail = p.finish(false, Some(1));
    assert_eq!(tail.len(), 1);
    let end = log_of(&tail[0]);
    assert_eq!(end.stage, "end");
    assert_eq!(end.success, Some(false));
}

#[test]
fn stderr_only_output_still_reports_success() {
    let mut p = Publisher::new(String::from("run-5"));
    let _ = p.start();
    let l = p.line(SourceKind::Stderr, String::from("warning: noise"));
    let e = log_of(&l);
    assert_eq!(e.stream.as_deref(), Some("stderr"));
    let tail = p.finish(true, Some(0));
    assert_eq!(tail.len(), 1);
    let end = log_of(&tail[0]);
    assert_eq!(end.success, Some(true));
}

#[test]
fn heavy_interleaved_output_emitted_once_in_order() {
    let mut p = Publisher::new(String::from("run-6"));
    let mut events: Vec<BrewLogEvent> = Vec::new();
    events.push(log_of(&p.start()));
    let mut expected: Vec<(String, String)> = Vec::new();
    let mut i: usize = 0;
    while i < 500 {
        let out_text = format!("out {}", i);
        let err_text = format!("err {}", i);
        events.push(log_of(&p.line(SourceKind::Stdout, out_text.clone())));
        events.push(log_of(&p.line(SourceKind::Stderr, err_text.clone())));
        expected.push((String::from("stdout"), out_text));
        expected.push((String::from("stderr"), err_text));
        i += 1;
    }
    for e in p.finish(true, Some(0)) {
        events.push(log_of(&e));
    }
    assert_eq!(events.len(), 1002);
    assert_eq!(events[0].stage, "start");
    assert_eq!(events[1001].stage, "end");
    let mut seen: Vec<(String, String)> = Vec::new();
    for e in &events[1..1001] {
        assert_eq!(e.stage, "line");
        seen.push((
            e.stream.clone().expect("line event carries its stream"),
            e.line.clone().expect("line event carries its text"),
        ));
    }
    // every line exactly once, per-stream order preserved
    assert_eq!(seen, expected);
}

#[test]
fn concurrent_runs_filtered_by_id_stay_intact() {
    let mut pa = Publisher::new(String::from("id-a"));
    let mut pb = Publisher::new(String::from("id-b"));
    let mut a_events: Vec<BrewLogEvent> = Vec::new();
    let mut b_events: Vec<BrewLogEvent> = Vec::new();
    a_events.push(log_of(&pa.start()));
    b_events.push(log_of(&pb.start()));
    a_events.push(log_of(&pa.line(SourceKind::Stdout, String::from("a1"))));
    b_events.push(log_of(&pb.line(SourceKind::Stderr, String::from("b1"))));
    a_events.push(log_of(&pa.line(SourceKind::Stdout, String::from("a2"))));
    for e in pa.finish(true, Some(0)) {
        a_events.push(log_of(&e));
    }
    for e in pb.finish(false, Some(2)) {
        b_events.push(log_of(&e));
    }

    // an arbitrary merge of the two runs, orders preserved within each
    // run a has 4 events (start, 2 lines, end); run b has 3 (start, line, end)
    let mut merged: Vec<BrewLogEvent> = Vec::new();
    merged.push(b_events[0].clone());
    merged.push(a_events[0].clone());
    merged.push(a_events[1].clone());
    merged.push(b_events[1].clone());
    merged.push(a_events[2].clone());
    merged.push(b_events[2].clone());
    merged.push(a_events[3].clone());

    let only = |id: &str| -> Vec<String> {
        merged
            .iter()
            .filter(|e| e.request_id == id)
            .map(|e| format!("{}/{:?}/{:?}", e.stage, e.line, e.success))
            .collect()
    };
    let shape = |evs: &Vec<BrewLogEvent>| -> Vec<String> {
        evs.iter()
            .map(|e| format!("{}/{:?}/{:?}", e.stage, e.line, e.success))
            .collect()
    };
    assert_eq!(only("id-a"), shape(&a_events));
    assert_eq!(only("id-b"), shape(&b_events));
}

#[test]
fn decimal_rendering_is_exact() {
    assert_eq!(u64_dec(0), "0");
    assert_eq!(u64_dec(7), "7");
    assert_eq!(u64_dec(10), "10");
    assert_eq!(u64_dec(65536), "65536");
    assert_eq!(i32_dec(0), "0");
    assert_eq!(i32_dec(137), "137");
    assert_eq!(i32_dec(-1), "-1");
    assert_eq!(i32_dec(-2147483648), "-2147483648");
    assert_eq!(i32_dec(2147483647), "2147483647");
}

#[test]
fn diagnostic_text_carries_the_code() {
    assert_eq!(diag_line_text(Some(137)), "命令退出但没有输出（exit code: 137）");
    assert_eq!(diag_line_text(Some(-9)), "命令退出但没有输出（exit code: -9）");
    assert_eq!(diag_line_text(None), "命令退出但没有输出（exit code: unknown）");
}

#[test]
fn source_labels() {
    assert_eq!(source_label(SourceKind::Stdout), "stdout");
    assert_eq!(source_label(SourceKind::Stderr), "stderr");
}
