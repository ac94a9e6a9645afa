use msghub::bus::Received;
use msghub::message::{Message, MSG_BROADCAST_ID, MSG_REGISTRY_ID};
use msghub::registry::{Registry, RegistryStep};
use tokio::sync::broadcast::channel;
use tokio::sync::broadcast::error::TryRecvError;

#[test]
fn ack_goes_from_the_registry_to_the_sender() {
    let msg = Message::new(1234, MSG_REGISTRY_ID, b"hello").unwrap();
    let ack = Registry::ack_for(&msg);
    assert_eq!(ack.src_id(), MSG_REGISTRY_ID);
    assert_eq!(ack.dst_id(), 1234u16);
    assert_eq!(ack.data(), b"ACK");
    assert_eq!(ack.to_line(), "0:1234 ACK\n");
}

#[test]
fn notice_goes_from_the_registry_to_everyone() {
    let msg = Message::new(1234, MSG_REGISTRY_ID, b"hello").unwrap();
    let notice = Registry::notice_for(&msg);
    assert_eq!(notice.src_id(), MSG_REGISTRY_ID);
    assert_eq!(notice.dst_id(), MSG_BROADCAST_ID);
    assert_eq!(notice.data(), b"received message from 1234");
    assert_eq!(notice.to_line(), "0:65535 received message from 1234\n");
}

#[test]
fn notice_names_the_extreme_addresses() {
    let low = Message::new(0, MSG_REGISTRY_ID, b"x").unwrap();
    assert_eq!(Registry::notice_for(&low).data(), b"received message from 0");
    let high = Message::new(65535, MSG_REGISTRY_ID, b"x").unwrap();
    assert_eq!(Registry::notice_for(&high).data(), b"received message from 65535");
}

#[test]
fn ack_msg_publishes_the_ack() {
    let (tx, mut rx) = channel::<Message>(16);
    let mut registry = Registry::new(tx);
    let msg = Message::new(77, MSG_REGISTRY_ID, b"ping").unwrap();
    let sent = registry.ack_msg(&msg);
    assert!(matches!(sent, Ok(1)));
    let got = rx.try_recv().unwrap();
    assert_eq!(got.src_id(), 0u16);
    assert_eq!(got.dst_id(), 77u16);
    assert_eq!(got.data(), b"ACK");
    assert!(matches!(rx.try_recv(), Err(TryRecvError::Empty)));
}

#[test]
fn broadcast_publishes_the_notice() {
    let (tx, mut rx) = channel::<Message>(16);
    let mut registry = Registry::new(tx);
    let msg = Message::new(77, MSG_REGISTRY_ID, b"ping").unwrap();
    let sent = registry.broadcast(&msg);
    assert!(matches!(sent, Ok(1)));
    let got = rx.try_recv().unwrap();
    assert_eq!(got.src_id(), 0u16);
    assert_eq!(got.dst_id(), 65535u16);
    assert_eq!(got.data(), b"received message from 77");
    assert!(matches!(rx.try_recv(), Err(TryRecvError::Empty)));
}

#[test]
fn publishing_counts_the_subscribers() {
    let (tx, _rx1) = channel::<Message>(16);
    let _rx2 = tx.subscribe();
    let _rx3 = tx.subscribe();
    let mut registry = Registry::new(tx);
    let msg = Message::new(5, MSG_REGISTRY_ID, b"x").unwrap();
    assert!(matches!(registry.ack_msg(&msg), Ok(3)));
}

#[test]
fn a_reply_nobody_hears_comes_back() {
    let (tx, rx) = channel::<Message>(16);
    drop(rx);
    let mut registry = Registry::new(tx);
    let msg = Message::new(9, MSG_REGISTRY_ID, b"x").unwrap();
    match registry.ack_msg(&msg) {
        Err(back) => {
            assert_eq!(back.src_id(), 0u16);
            assert_eq!(back.dst_id(), 9u16);
            assert_eq!(back.data(), b"ACK");
        }
        Ok(_) => panic!("nobody was subscribed"),
    }
    match registry.broadcast(&msg) {
        Err(back) => {
            assert_eq!(back.dst_id(), 65535u16);
            assert_eq!(back.data(), b"received message from 9");
        }
        Ok(_) => panic!("nobody was subscribed"),
    }
}

#[test]
fn process_msg_publishes_ack_then_notice() {
    let (tx, mut rx) = channel::<Message>(16);
    let mut registry = Registry::new(tx);
    let msg = Message::new(4321, MSG_REGISTRY_ID, b"anything").unwrap();
    let (ack, notice) = registry.process_msg(&msg);
    assert!(matches!(ack, Ok(1)));
    assert!(matches!(notice, Ok(1)));
    let first = rx.try_recv().unwrap();
    assert_eq!(first.to_line(), "0:4321 ACK\n");
    let second = rx.try_recv().unwrap();
    assert_eq!(second.to_line(), "0:65535 received message from 4321\n");
    assert!(matches!(rx.try_recv(), Err(TryRecvError::Empty)));
}

#[test]
fn worker_answers_a_message_for_the_registry() {
    let (tx, mut rx) = channel::<Message>(16);
    let mut registry = Registry::new(tx);
    let msg = Message::new(11, MSG_REGISTRY_ID, b"\xff\xfe").unwrap();
    let step = registry.worker(Received::Message(msg));
    assert!(matches!(step, RegistryStep::Processed { ack: Ok(1), notice: Ok(1) }));
    assert_eq!(rx.try_recv().unwrap().data(), b"ACK");
    assert_eq!(rx.try_recv().unwrap().data(), b"received message from 11");
}

#[test]
fn worker_ignores_a_message_for_a_client() {
    let (tx, mut rx) = channel::<Message>(16);
    let mut registry = Registry::new(tx);
    let msg = Message::new(11, 12, b"hello").unwrap();
    assert!(matches!(registry.worker(Received::Message(msg)), RegistryStep::Ignored));
    assert!(matches!(rx.try_recv(), Err(TryRecvError::Empty)));
}

#[test]
fn worker_ignores_a_broadcast() {
    let (tx, mut rx) = channel::<Message>(16);
    let mut registry = Registry::new(tx);
    let msg = Message::new(0, MSG_BROADCAST_ID, b"hello").unwrap();
    assert!(matches!(registry.worker(Received::Message(msg)), RegistryStep::Ignored));
    assert!(matches!(rx.try_recv(), Err(TryRecvError::Empty)));
}

#[test]
fn worker_fails_on_a_failed_subscription() {
    let (tx, mut rx) = channel::<Message>(16);
    let mut registry = Registry::new(tx);
    assert!(matches!(registry.worker(Received::Lagged(3)), RegistryStep::Failed));
    assert!(matches!(registry.worker(Received::Closed), RegistryStep::Failed));
    assert!(matches!(rx.try_recv(), Err(TryRecvError::Empty)));
}

#[test]
fn worker_reports_replies_nobody_hears() {
    let (tx, rx) = channel::<Message>(16);
    drop(rx);
    let mut registry = Registry::new(tx);
    let msg = Message::new(8, MSG_REGISTRY_ID, b"x").unwrap();
    match registry.worker(Received::Message(msg)) {
        RegistryStep::Processed { ack: Err(ack), notice: Err(notice) } => {
            assert_eq!(ack.to_line(), "0:8 ACK\n");
            assert_eq!(notice.to_line(), "0:65535 received message from 8\n");
        }
        _ => panic!("both replies should have come back"),
    }
}
