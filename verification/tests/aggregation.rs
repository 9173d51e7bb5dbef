use webp_batch::outcome::collect;
use webp_batch::outcome::FailureRecord;
use webp_batch::outcome::Outcome;

fn failed(path: &str, message: &str) -> Outcome {
    Outcome::Failed(FailureRecord { path: path.to_owned(), message: message.to_owned() })
}

#[test]
fn empty_input_yields_empty_result() {
    let outcomes: Vec<Outcome> = Vec::new();
    let r = collect(&outcomes);
    assert_eq!(r.dispatched, 0);
    assert!(r.failures.is_empty());
}

#[test]
fn every_failure_appears_exactly_once_in_order() {
    let outcomes = vec![
        Outcome::Success,
        failed("/in/bad.png", "decode error"),
        Outcome::Success,
        failed("/in/locked.jpg", "read error"),
    ];
    let r = collect(&outcomes);
    assert_eq!(r.dispatched, 4);
    assert_eq!(r.failures.len(), 2);
    assert_eq!(r.failures[0].path, "/in/bad.png");
    assert_eq!(r.failures[0].message, "decode error");
    assert_eq!(r.failures[1].path, "/in/locked.jpg");
    assert_eq!(r.failures[1].message, "read error");
}

#[test]
fn one_bad_file_leaves_the_others_untouched() {
    let mut outcomes: Vec<Outcome> = Vec::new();
    for _ in 0..9 {
        outcomes.push(Outcome::Success);
    }
    outcomes.insert(4, failed("/in/corrupt.bmp", "decode error"));
    let r = collect(&outcomes);
    assert_eq!(r.dispatched, 10);
    assert_eq!(r.failures.len(), 1);
    assert_eq!(r.failures[0].path, "/in/corrupt.bmp");
}

#[test]
fn all_successes_report_no_failures() {
    let outcomes: Vec<Outcome> = (0..50).map(|_| Outcome::Success).collect();
    let r = collect(&outcomes);
    assert_eq!(r.dispatched, 50);
    assert!(r.failures.is_empty());
}
