use winit_async::driver::{Dispatch, Driver, Flow, Phase};
use winit_async::queue::{classify_send, event_queue, Events, QueueFull, SendOutcome};

#[derive(Debug, Clone, PartialEq)]
enum Ev {
    Other,
    CloseRequested { id: u32 },
    Wake,
}

fn is_marker(e: &Ev) -> bool {
    *e == Ev::Wake
}

/// A task that waits for a close request of window `target`, recording what it saw.
struct CloseWatcher {
    events: Events<Ev>,
    target: u32,
    seen: Vec<Ev>,
}

impl CloseWatcher {
    fn poll(&mut self) -> bool {
        while let Some(e) = self.events.try_next() {
            self.seen.push(e.clone());
            if e == (Ev::CloseRequested { id: self.target }) {
                return true;
            }
        }
        false
    }
}

/// Runs one loop callback the way the loop's glue does.
fn callback(
    driver: &mut Driver<Ev>,
    task: &mut Option<CloseWatcher>,
    inits: &mut u32,
    event: Ev,
) -> Flow {
    if let Some(events) = driver.begin() {
        *inits += 1;
        *task = Some(CloseWatcher { events, target: 7, seen: Vec::new() });
    }
    let marker = is_marker(&event);
    match driver.dispatch(event, marker) {
        Ok(Dispatch::Poll) => {
            let ready = task.as_mut().unwrap().poll();
            driver.complete(ready)
        }
        Ok(Dispatch::Idle) => Flow::Wait,
        Err(QueueFull) => panic!("channel is unbounded"),
    }
}

#[test]
fn close_request_for_watched_window_ends_the_task() {
    let mut driver: Driver<Ev> = Driver::new();
    let mut task = None;
    let mut inits = 0;
    let feed = vec![Ev::Other, Ev::CloseRequested { id: 3 }, Ev::CloseRequested { id: 7 }];
    let mut flows = Vec::new();
    for e in feed.clone() {
        flows.push(callback(&mut driver, &mut task, &mut inits, e));
    }
    assert_eq!(flows, vec![Flow::Wait, Flow::Wait, Flow::Exit]);
    assert_eq!(task.as_ref().unwrap().seen, feed);
    assert_eq!(inits, 1);
    assert!(driver.is_done());
    // Later callbacks are ignored and never ask to exit again.
    assert_eq!(callback(&mut driver, &mut task, &mut inits, Ev::Other), Flow::Wait);
    assert_eq!(callback(&mut driver, &mut task, &mut inits, Ev::CloseRequested { id: 7 }), Flow::Wait);
    assert_eq!(task.as_ref().unwrap().seen.len(), 3);
    assert_eq!(inits, 1);
}

#[test]
fn events_arrive_in_order_without_wake_markers() {
    let mut driver: Driver<u32> = Driver::new();
    let events = driver.begin().unwrap();
    let feed = [(1, false), (0, true), (2, false), (3, false), (0, true), (4, false)];
    for (e, m) in feed {
        assert_eq!(driver.dispatch(e, m), Ok(Dispatch::Poll));
    }
    let mut got = Vec::new();
    while let Some(e) = events.try_next() {
        got.push(e);
    }
    assert_eq!(got, vec![1, 2, 3, 4]);
}

#[test]
fn initializer_is_requested_once() {
    let mut driver: Driver<u32> = Driver::new();
    assert!(driver.begin().is_some());
    for _ in 0..5 {
        assert!(driver.begin().is_none());
    }
}

#[test]
fn dispatch_before_begin_is_ignored() {
    let mut driver: Driver<u32> = Driver::new();
    assert_eq!(driver.dispatch(1, false), Ok(Dispatch::Idle));
    assert_eq!(driver.complete(true), Flow::Wait);
    assert!(!driver.is_done());
}

#[test]
fn completion_exits_once_and_closes_the_stream() {
    let mut driver: Driver<u32> = Driver::new();
    let events = driver.begin().unwrap();
    assert_eq!(driver.dispatch(5, false), Ok(Dispatch::Poll));
    assert_eq!(driver.complete(false), Flow::Wait);
    assert_eq!(driver.dispatch(6, false), Ok(Dispatch::Poll));
    assert_eq!(driver.complete(true), Flow::Exit);
    assert!(driver.is_done());
    assert_eq!(driver.complete(true), Flow::Wait);
    assert!(driver.begin().is_none());
    assert_eq!(driver.dispatch(7, false), Ok(Dispatch::Idle));
    assert_eq!(events.try_next(), Some(5));
    assert_eq!(events.try_next(), Some(6));
    assert_eq!(events.try_next(), None);
    assert!(events.into_receiver().is_closed());
}

#[test]
fn dropped_consumer_makes_dispatch_a_silent_no_op() {
    let mut driver: Driver<u32> = Driver::new();
    let events = driver.begin().unwrap();
    drop(events);
    for i in 0..3 {
        assert_eq!(driver.dispatch(i, false), Ok(Dispatch::Poll));
    }
    assert_eq!(driver.complete(true), Flow::Exit);
}

#[test]
fn phase_values_are_distinct() {
    assert_ne!(Phase::Init, Phase::Running);
    assert_ne!(Phase::Running, Phase::Done);
}

#[test]
fn enqueue_reports_delivery_and_gone_consumer() {
    let (mut tx, rx) = event_queue::<u8>();
    assert_eq!(tx.enqueue(4), Ok(true));
    assert_eq!(rx.try_next(), Some(4));
    assert_eq!(rx.try_next(), None);
    drop(rx);
    assert_eq!(tx.enqueue(5), Ok(false));
}

#[test]
fn classify_send_maps_each_outcome() {
    assert_eq!(classify_send(SendOutcome::Sent), Ok(true));
    assert_eq!(classify_send(SendOutcome::Closed), Ok(false));
    assert_eq!(classify_send(SendOutcome::Full), Err(QueueFull));
}
