use hello_service::producer::{ProducerAction, ProducerEvent, ProducerState, ProducerTask};
use hello_service::status::{HealthStatus, StatusSource};

fn send_serving() -> ProducerAction {
    ProducerAction::Send { status: HealthStatus::Serving }
}

#[test]
fn new_task_is_running() {
    let task = ProducerTask::new(StatusSource::serving(), 2000, 0);
    assert_eq!(task.state(), ProducerState::Running);
    assert!(!task.is_stopped());
}

#[test]
fn task_sleeps_then_sends_then_sleeps() {
    let mut task = ProducerTask::new(StatusSource::serving(), 2000, 100);
    assert_eq!(task.step(ProducerEvent::Wake, 100), ProducerAction::Sleep { wait_ms: 2000 });
    assert_eq!(task.step(ProducerEvent::Wake, 2099), ProducerAction::Sleep { wait_ms: 1 });
    assert_eq!(task.step(ProducerEvent::Wake, 2100), send_serving());
    assert_eq!(task.step(ProducerEvent::Delivered, 2100), ProducerAction::Sleep { wait_ms: 2000 });
    assert_eq!(task.step(ProducerEvent::Wake, 4100), send_serving());
    assert_eq!(task.state(), ProducerState::Running);
}

#[test]
fn delivery_after_a_long_wait_sends_at_once() {
    let mut task = ProducerTask::new(StatusSource::serving(), 2000, 0);
    assert_eq!(task.step(ProducerEvent::Wake, 2000), send_serving());
    // The channel was full for three intervals: the next value is due.
    assert_eq!(task.step(ProducerEvent::Delivered, 8000), send_serving());
    assert_eq!(task.step(ProducerEvent::Delivered, 8000), ProducerAction::Sleep { wait_ms: 2000 });
}

#[test]
fn receiver_gone_stops_the_task() {
    let mut task = ProducerTask::new(StatusSource::serving(), 2000, 0);
    assert_eq!(task.step(ProducerEvent::Wake, 2000), send_serving());
    assert_eq!(task.step(ProducerEvent::ReceiverGone, 2000), ProducerAction::Exit);
    assert_eq!(task.state(), ProducerState::Stopped);
    assert!(task.is_stopped());
}

#[test]
fn stopped_task_stays_stopped() {
    let mut task = ProducerTask::new(StatusSource::serving(), 2000, 0);
    assert_eq!(task.step(ProducerEvent::ReceiverGone, 0), ProducerAction::Exit);
    let stopped = task;
    for (event, now) in [
        (ProducerEvent::Wake, 2000),
        (ProducerEvent::Delivered, 4000),
        (ProducerEvent::ReceiverGone, 6000),
        (ProducerEvent::Wake, u64::MAX),
    ] {
        assert_eq!(task.step(event, now), ProducerAction::Exit);
        assert_eq!(task, stopped);
    }
}

#[test]
fn task_sends_what_its_source_repeats() {
    let mut task = ProducerTask::new(StatusSource::repeating(HealthStatus::NotServing), 10, 0);
    assert_eq!(
        task.step(ProducerEvent::Wake, 10),
        ProducerAction::Send { status: HealthStatus::NotServing }
    );
}

#[test]
fn two_tasks_do_not_touch_each_other() {
    let mut a = ProducerTask::new(StatusSource::serving(), 2000, 0);
    let mut b = ProducerTask::new(StatusSource::serving(), 2000, 1000);
    let b_before = b;
    assert_eq!(a.step(ProducerEvent::Wake, 2000), send_serving());
    assert_eq!(a.step(ProducerEvent::ReceiverGone, 2000), ProducerAction::Exit);
    assert_eq!(b, b_before);
    // The second task keeps its own pace although the first has stopped.
    assert_eq!(b.step(ProducerEvent::Wake, 2000), ProducerAction::Sleep { wait_ms: 1000 });
    assert_eq!(b.step(ProducerEvent::Wake, 3000), send_serving());
    assert!(a.is_stopped());
    assert!(!b.is_stopped());
}
