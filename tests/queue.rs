use worker_pool::queue::{JobQueue, Retrieved};

fn take(q: &mut JobQueue<&'static str>) -> Option<&'static str> {
    match q.retrieve() {
        Retrieved::Job(j) => Some(j),
        _ => None,
    }
}

#[test]
fn queue_is_fifo() {
    let mut q = JobQueue::new();
    assert!(q.submit("a").is_ok());
    assert!(q.submit("b").is_ok());
    assert!(q.submit("c").is_ok());
    assert_eq!(q.len(), 3);
    assert_eq!(take(&mut q), Some("a"));
    assert_eq!(take(&mut q), Some("b"));
    assert_eq!(take(&mut q), Some("c"));
    assert_eq!(q.len(), 0);
}

#[test]
fn empty_open_queue_says_empty() {
    let mut q: JobQueue<&'static str> = JobQueue::new();
    assert!(matches!(q.retrieve(), Retrieved::Empty));
    assert!(!q.is_closed());
}

#[test]
fn closed_queue_drains_then_says_closed() {
    let mut q = JobQueue::new();
    assert!(q.submit("x").is_ok());
    assert!(q.close());
    assert!(q.is_closed());
    assert_eq!(q.submit("y"), Err("y"));
    assert_eq!(take(&mut q), Some("x"));
    assert!(matches!(q.retrieve(), Retrieved::Closed));
    assert!(matches!(q.retrieve(), Retrieved::Closed));
}

#[test]
fn closing_twice_reports_only_the_first() {
    let mut q: JobQueue<u8> = JobQueue::new();
    assert!(q.close());
    assert!(!q.close());
    assert!(q.is_closed());
}
