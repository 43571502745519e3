use hello::queue::JobQueue;

#[test]
fn new_queue_is_empty() {
    let mut queue: JobQueue<u32> = JobQueue::new();
    assert!(queue.is_empty());
    assert_eq!(queue.len(), 0);
    assert_eq!(queue.pop(), None);
    assert!(queue.is_empty());
}

#[test]
fn jobs_come_out_in_the_order_they_went_in() {
    let mut queue = JobQueue::new();
    for job in 0..100u32 {
        queue.push(job);
    }
    assert_eq!(queue.len(), 100);
    for job in 0..100u32 {
        assert_eq!(queue.pop(), Some(job));
    }
    assert_eq!(queue.pop(), None);
}

#[test]
fn order_holds_when_pushes_and_pops_alternate() {
    let mut queue = JobQueue::new();
    queue.push("a");
    queue.push("b");
    assert_eq!(queue.pop(), Some("a"));
    queue.push("c");
    assert_eq!(queue.len(), 2);
    assert_eq!(queue.pop(), Some("b"));
    assert_eq!(queue.pop(), Some("c"));
    assert!(queue.is_empty());
}

#[test]
fn a_job_that_was_taken_is_gone() {
    let mut queue = JobQueue::new();
    queue.push(String::from("only"));
    assert_eq!(queue.pop(), Some(String::from("only")));
    assert_eq!(queue.pop(), None);
    assert_eq!(queue.len(), 0);
}
