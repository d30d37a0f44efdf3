use surf::middleware::logger::{self, LogRecord, Logger};
use surf::middleware::redirect::Method;
use surf::middleware::{Next, Pipeline, Step, Stop};

fn walk(p: &Pipeline<&'static str>) -> Vec<String> {
    let mut seen = Vec::new();
    let mut cur = p.start();
    loop {
        match cur.run() {
            Step::Handle { index, rest } => {
                seen.push(p.entry(index).to_string());
                cur = rest;
            }
            Step::Endpoint => {
                seen.push("endpoint".to_string());
                return seen;
            }
        }
    }
}

#[test]
fn empty_chain_calls_endpoint_only() {
    let p: Pipeline<&'static str> = Pipeline::new();
    assert_eq!(p.len(), 0);
    assert_eq!(p.start().run(), Step::Endpoint);
    assert_eq!(p.dispatch_order(), vec![Stop::Endpoint]);
}

#[test]
fn every_entry_runs_once_in_attachment_order() {
    let mut p = Pipeline::new();
    p.attach("a");
    p.attach("b");
    p.attach("c");
    assert_eq!(
        p.dispatch_order(),
        vec![Stop::Middleware(0), Stop::Middleware(1), Stop::Middleware(2), Stop::Endpoint]
    );
    assert_eq!(walk(&p), vec!["a", "b", "c", "endpoint"]);
}

#[test]
fn attaching_two_nests_first_around_second() {
    let mut p = Pipeline::new();
    p.attach("a");
    p.attach("b");
    let first = p.start().run();
    let rest = match first {
        Step::Handle { index, rest } => {
            assert_eq!(*p.entry(index), "a");
            rest
        }
        Step::Endpoint => panic!("expected the outer entry"),
    };
    let inner = match rest.run() {
        Step::Handle { index, rest } => {
            assert_eq!(*p.entry(index), "b");
            rest
        }
        Step::Endpoint => panic!("expected the inner entry"),
    };
    assert_eq!(inner.run(), Step::Endpoint);
}

#[test]
fn copies_of_a_cursor_walk_the_same_rest() {
    let n = Next::new(2);
    let copy = n;
    assert_eq!(n.run(), copy.run());
    assert_eq!(n.run(), Step::Handle { index: 0, rest: Next { start: 1, end: 2 } });
    let Step::Handle { rest, .. } = n.run() else { panic!("expected an entry") };
    assert_eq!(rest.run(), Step::Handle { index: 1, rest: Next { start: 2, end: 2 } });
    assert_eq!(Next { start: 2, end: 2 }.run(), Step::Endpoint);
    assert_eq!(n, copy);
}

#[test]
fn logger_passes_response_through() {
    let l = logger::new();
    let res: Result<Vec<u8>, String> = Ok(vec![1, 2, 3]);
    let (out, record) = l.finish(res, 200, 12);
    assert_eq!(out, Ok(vec![1, 2, 3]));
    assert!(matches!(record, LogRecord::Completed { status: 200, elapsed_ms: 12 }));
}

#[test]
fn logger_passes_error_through_and_records_failure() {
    let l = Logger::new();
    let res: Result<Vec<u8>, String> = Err("boom".to_string());
    let (out, record) = l.finish(res, 0, 7);
    assert_eq!(out, Err("boom".to_string()));
    assert!(matches!(record, LogRecord::Failed { elapsed_ms: 7 }));
}

#[test]
fn logger_start_record_names_the_request() {
    let l = Logger::new();
    let url = "https://h/x".to_string();
    match l.start(Method::Post, &url) {
        LogRecord::Start { method, url } => {
            assert_eq!(method, Method::Post);
            assert_eq!(url, "https://h/x");
        }
        _ => panic!("expected a start record"),
    }
}
