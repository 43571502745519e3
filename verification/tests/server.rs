use hello::catalog::ResponseCatalog;
use hello::handler::Reply;
use hello::job::Job;
use hello::listener::{Action, Event, Listener};
use hello::thread_pool::{ThreadPool, Worker, WorkerAction};

fn accepted(listener: &mut Listener, connection: usize) -> Job<usize> {
    match listener.step(Event::Accepted(connection)) {
        Action::Dispatch(job) => job,
        _ => panic!("connection {connection} was not dispatched"),
    }
}

fn started() -> Listener {
    let mut listener = Listener::new();
    let catalog = ResponseCatalog::load(Some(String::from("hi")), Some(String::from("no")));
    assert!(matches!(listener.step::<usize>(Event::Loaded(catalog)), Action::Bind));
    assert!(matches!(listener.step::<usize>(Event::Bound), Action::Accept));
    listener
}

fn serve(job: Job<usize>, line: Option<&str>, written: &mut Vec<(usize, Vec<u8>)>) {
    let reply = job.respond(line);
    let (connection, _) = job.into_parts();
    if let Reply::Send { bytes, .. } = reply {
        written.push((connection, bytes));
    }
}

#[test]
fn each_admitted_connection_gets_one_response() {
    let mut listener = started();
    let mut pool = ThreadPool::new(4);
    let mut workers = pool.workers();
    let lines = ["GET / HTTP/1.1", "GET /sleep HTTP/1.1", "GET /x HTTP/1.1"];
    let total = 10;
    for connection in 0..total {
        pool.execute(accepted(&mut listener, connection));
    }
    let mut written = Vec::new();
    let mut most_active = 0;
    while written.len() < total {
        let mut running = Vec::new();
        for worker in workers.iter_mut() {
            if let WorkerAction::Run(job) = worker.poll(&mut pool) {
                running.push(job);
            }
        }
        most_active = most_active.max(pool.active());
        assert_eq!(running.len(), pool.active());
        for job in running {
            let line = lines[*job.connection() % lines.len()];
            serve(job, Some(line), &mut written);
        }
        for worker in workers.iter_mut() {
            worker.finish(&mut pool);
        }
        assert_eq!(pool.active(), 0);
    }
    assert_eq!(most_active, 4);
    assert_eq!(pool.pending(), 0);
    assert_eq!(written.len(), total);
    for (position, (connection, bytes)) in written.iter().enumerate() {
        assert_eq!(*connection, position);
        let expected: &[u8] = if position % lines.len() == 2 {
            b"HTTP/1.1 404 NOT FOUND\r\nContent-Length: 2\r\n\r\nno"
        } else {
            b"HTTP/1.1 200 OK\r\nContent-Length: 2\r\n\r\nhi"
        };
        assert_eq!(bytes.as_slice(), expected);
    }
}

#[test]
fn a_connection_without_a_line_costs_nothing_but_itself() {
    let mut listener = started();
    let mut pool = ThreadPool::new(1);
    let mut worker = Worker::new(0);
    pool.execute(accepted(&mut listener, 0));
    pool.execute(accepted(&mut listener, 1));
    let mut written = Vec::new();

    let first = match worker.poll(&mut pool) {
        WorkerAction::Run(job) => job,
        WorkerAction::Sleep(_) => panic!("nothing to run"),
    };
    serve(first, None, &mut written);
    assert!(written.is_empty());
    worker.finish(&mut pool);
    assert_eq!(pool.active(), 0);

    let second = match worker.poll(&mut pool) {
        WorkerAction::Run(job) => job,
        WorkerAction::Sleep(_) => panic!("nothing to run"),
    };
    serve(second, Some("GET / HTTP/1.1"), &mut written);
    worker.finish(&mut pool);
    assert_eq!(
        written,
        vec![(1, b"HTTP/1.1 200 OK\r\nContent-Length: 2\r\n\r\nhi".to_vec())]
    );
    assert!(matches!(listener.step(Event::Accepted(2usize)), Action::Dispatch(_)));
}

#[test]
fn with_one_worker_the_second_response_follows_the_first() {
    let mut listener = started();
    let mut pool = ThreadPool::new(1);
    let mut one = Worker::new(0);
    let mut other = Worker::new(1);
    pool.execute(accepted(&mut listener, 0));
    pool.execute(accepted(&mut listener, 1));
    let mut written = Vec::new();

    let first = match one.poll(&mut pool) {
        WorkerAction::Run(job) => job,
        WorkerAction::Sleep(_) => panic!("nothing to run"),
    };
    assert!(matches!(other.poll(&mut pool), WorkerAction::Sleep(100)));
    assert!(written.is_empty());
    serve(first, Some("GET /sleep HTTP/1.1"), &mut written);
    assert!(matches!(other.poll(&mut pool), WorkerAction::Sleep(100)));
    one.finish(&mut pool);

    let second = match other.poll(&mut pool) {
        WorkerAction::Run(job) => job,
        WorkerAction::Sleep(_) => panic!("nothing to run"),
    };
    serve(second, Some("GET /sleep HTTP/1.1"), &mut written);
    other.finish(&mut pool);
    let order: Vec<usize> = written.iter().map(|(connection, _)| *connection).collect();
    assert_eq!(order, vec![0, 1]);
}
