use hello_service::producer::{ProducerAction, ProducerEvent, ProducerState};
use hello_service::service::{
    HealthCheckRequest, HelloServiceImplementation, RELAY_CAPACITY, WATCH_INTERVAL_MS,
};
use hello_service::session::WatchSession;
use hello_service::status::{HealthStatus, StatusSource};
use tokio::sync::mpsc::error::{TryRecvError, TrySendError};

#[test]
fn watch_opens_a_session_with_the_defaults() {
    let service = HelloServiceImplementation::default();
    let mut session = service.watch(HealthCheckRequest {}, 0);
    assert_eq!(WATCH_INTERVAL_MS, 2000);
    assert_eq!(RELAY_CAPACITY, 128);
    assert_eq!(session.capacity(), 128);
    assert_eq!(session.sender.max_capacity(), 128);
    assert_eq!(session.receiver.max_capacity(), 128);
    assert_eq!(session.producer.state(), ProducerState::Running);
    // Nothing is sent by opening the session.
    assert_eq!(session.receiver.try_recv(), Err(TryRecvError::Empty));
    assert_eq!(
        session.producer.step(ProducerEvent::Wake, 0),
        ProducerAction::Sleep { wait_ms: 2000 }
    );
}

#[test]
fn open_refuses_a_channel_without_room() {
    assert!(WatchSession::open(StatusSource::serving(), 2000, 0, 0).is_none());
    assert!(WatchSession::open(StatusSource::serving(), 2000, usize::MAX, 0).is_none());
    assert!(WatchSession::open(StatusSource::serving(), 2000, usize::MAX / 8 + 1, 0).is_none());
}

#[test]
fn open_makes_a_channel_of_the_capacity_asked_for() {
    let session = WatchSession::open(StatusSource::serving(), 50, 5, 0).unwrap();
    assert_eq!(session.capacity(), 5);
    for _ in 0..5 {
        assert!(session.sender.try_send(HealthStatus::Serving).is_ok());
    }
    assert!(matches!(
        session.sender.try_send(HealthStatus::Serving),
        Err(TrySendError::Full(HealthStatus::Serving))
    ));
    let one = WatchSession::open(StatusSource::serving(), 50, 1, 0).unwrap();
    assert_eq!(one.capacity(), 1);
}

#[test]
fn watch_three_values_then_disconnect() {
    let service = HelloServiceImplementation::default();
    let session = service.watch(HealthCheckRequest {}, 0);
    let WatchSession { mut producer, sender, mut receiver } = session;
    let mut now: u64 = 0;
    let mut event = ProducerEvent::Wake;
    let mut received: Vec<(u64, HealthStatus)> = Vec::new();
    while received.len() < 3 {
        match producer.step(event, now) {
            ProducerAction::Sleep { wait_ms } => {
                now += wait_ms;
                event = ProducerEvent::Wake;
            }
            ProducerAction::Send { status } => {
                sender.try_send(status).unwrap();
                event = ProducerEvent::Delivered;
                received.push((now, receiver.try_recv().unwrap()));
            }
            ProducerAction::Exit => panic!("the producer stopped while the client was there"),
        }
    }
    assert_eq!(
        received,
        vec![
            (2000, HealthStatus::Serving),
            (4000, HealthStatus::Serving),
            (6000, HealthStatus::Serving),
        ]
    );
    drop(receiver);
    let mut sent_after_disconnect = 0;
    while !producer.is_stopped() {
        match producer.step(event, now) {
            ProducerAction::Sleep { wait_ms } => {
                now += wait_ms;
                event = ProducerEvent::Wake;
            }
            ProducerAction::Send { status } => {
                sent_after_disconnect += 1;
                event = match sender.try_send(status) {
                    Ok(()) => ProducerEvent::Delivered,
                    Err(TrySendError::Closed(_)) => ProducerEvent::ReceiverGone,
                    Err(TrySendError::Full(_)) => panic!("a closed channel is not full"),
                };
            }
            ProducerAction::Exit => {}
        }
    }
    assert_eq!(sent_after_disconnect, 1);
    assert_eq!(now, 8000);
    assert_eq!(producer.state(), ProducerState::Stopped);
    assert_eq!(producer.step(ProducerEvent::Wake, 10_000), ProducerAction::Exit);
    assert_eq!(producer.step(ProducerEvent::Delivered, 12_000), ProducerAction::Exit);
}

#[test]
fn consumer_that_never_pulls_suspends_the_producer() {
    let session = WatchSession::open(StatusSource::serving(), 10, 4, 0).unwrap();
    let WatchSession { mut producer, sender, receiver } = session;
    let mut now: u64 = 0;
    let mut event = ProducerEvent::Wake;
    let mut in_hand: Option<HealthStatus> = None;
    for _ in 0..100 {
        match producer.step(event, now) {
            ProducerAction::Sleep { wait_ms } => {
                now += wait_ms;
                event = ProducerEvent::Wake;
            }
            ProducerAction::Send { status } => match sender.try_send(status) {
                Ok(()) => event = ProducerEvent::Delivered,
                Err(TrySendError::Full(status)) => {
                    // The driver would suspend here: no event, no further step.
                    in_hand = Some(status);
                    break;
                }
                Err(TrySendError::Closed(_)) => panic!("the receiver is still there"),
            },
            ProducerAction::Exit => panic!("the producer stopped while the client was there"),
        }
    }
    assert_eq!(in_hand, Some(HealthStatus::Serving));
    assert_eq!(receiver.len(), 4);
    assert_eq!(sender.capacity(), 0);
    assert_eq!(now, 50);
    assert!(!producer.is_stopped());
}

#[test]
fn values_arrive_in_the_order_sent() {
    let session = WatchSession::open(StatusSource::serving(), 1, 8, 0).unwrap();
    let WatchSession { mut producer, sender, mut receiver } = session;
    let mut sent: Vec<HealthStatus> = Vec::new();
    let mut pulled: Vec<HealthStatus> = Vec::new();
    let mut event = ProducerEvent::Wake;
    let mut in_hand: Option<HealthStatus> = None;
    for now in 0..60u64 {
        if in_hand.is_none() {
            if let ProducerAction::Send { status } = producer.step(event, now) {
                in_hand = Some(status);
            } else {
                event = ProducerEvent::Wake;
            }
        }
        if let Some(status) = in_hand {
            // A full channel leaves the producer suspended with the value.
            if sender.try_send(status).is_ok() {
                sent.push(status);
                in_hand = None;
                event = ProducerEvent::Delivered;
            }
        }
        if now % 3 == 0 {
            if let Ok(status) = receiver.try_recv() {
                pulled.push(status);
            }
        }
        assert!(receiver.len() <= 8);
        assert!(sent.len() <= pulled.len() + 8);
    }
    assert_eq!(pulled.len(), 19);
    assert_eq!(sent.len(), 27);
    assert_eq!(in_hand, Some(HealthStatus::Serving));
    while let Ok(status) = receiver.try_recv() {
        pulled.push(status);
    }
    assert_eq!(pulled, sent);
    assert!(pulled.iter().all(|status| *status == HealthStatus::Serving));
}

#[test]
fn two_sessions_share_nothing() {
    let service = HelloServiceImplementation::default();
    let first = service.watch(HealthCheckRequest {}, 0);
    let mut second = service.watch(HealthCheckRequest {}, 500);
    for _ in 0..128 {
        first.sender.try_send(HealthStatus::Serving).unwrap();
    }
    assert!(first.sender.try_send(HealthStatus::Serving).is_err());
    // The first channel is full and its receiver then goes away: the second
    // session still has all its room and its own pace.
    drop(first.receiver);
    assert!(first.sender.is_closed());
    assert!(!second.sender.is_closed());
    assert_eq!(second.sender.capacity(), 128);
    assert_eq!(
        second.producer.step(ProducerEvent::Wake, 2000),
        ProducerAction::Sleep { wait_ms: 500 }
    );
    assert_eq!(
        second.producer.step(ProducerEvent::Wake, 2500),
        ProducerAction::Send { status: HealthStatus::Serving }
    );
    second.sender.try_send(HealthStatus::Serving).unwrap();
    assert_eq!(second.receiver.try_recv(), Ok(HealthStatus::Serving));
}
