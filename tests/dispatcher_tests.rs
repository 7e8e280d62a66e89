use std::sync::Arc;

use tokio::sync::Mutex;
use webmq::dispatcher::{BaseMessagingDispatcher, MessagingDispatcher};
use webmq::errors::WebMQError;

fn s(x: &str) -> String {
    x.to_string()
}

#[test]
fn fifo_per_queue() {
    let mut d = BaseMessagingDispatcher::new();
    assert!(d.publish(s("q"), b"m1".to_vec()).is_none());
    assert!(d.publish(s("q"), b"m2".to_vec()).is_none());
    assert!(d.publish(s("q"), b"m3".to_vec()).is_none());
    assert_eq!(d.consume(s("q")).ok(), Some(b"m1".to_vec()));
    assert_eq!(d.consume(s("q")).ok(), Some(b"m2".to_vec()));
    assert_eq!(d.consume(s("q")).ok(), Some(b"m3".to_vec()));
}

#[test]
fn consume_of_unknown_queue_is_no_content() {
    let mut d = BaseMessagingDispatcher::new();
    match d.consume(s("never")) {
        Err(WebMQError::Data(msg)) => assert_eq!(msg, "No messages in queue never"),
        _ => panic!("expected a Data error"),
    }
}

#[test]
fn consume_of_drained_queue_is_no_content() {
    let mut d = BaseMessagingDispatcher::new();
    d.publish(s("q"), b"only".to_vec());
    assert_eq!(d.consume(s("q")).ok(), Some(b"only".to_vec()));
    match d.consume(s("q")) {
        Err(WebMQError::Data(msg)) => assert_eq!(msg, "No messages in queue q"),
        _ => panic!("expected a Data error"),
    }
    match d.consume(s("q")) {
        Err(WebMQError::Data(_)) => {}
        _ => panic!("expected a Data error"),
    }
}

#[test]
fn repeated_publish_to_new_name_makes_one_queue() {
    let mut d = BaseMessagingDispatcher::new();
    let n: u8 = 25;
    for i in 0..n {
        assert!(d.publish(s("fresh"), vec![i]).is_none());
    }
    for i in 0..n {
        assert_eq!(d.consume(s("fresh")).ok(), Some(vec![i]));
    }
    assert!(d.consume(s("fresh")).is_err());
}

#[test]
fn queues_are_independent_and_names_exact() {
    let mut d = BaseMessagingDispatcher::new();
    d.publish(s("a"), b"to-a".to_vec());
    d.publish(s("A"), b"to-upper-a".to_vec());
    d.publish(s("a "), b"to-a-space".to_vec());
    assert_eq!(d.consume(s("A")).ok(), Some(b"to-upper-a".to_vec()));
    assert_eq!(d.consume(s("a")).ok(), Some(b"to-a".to_vec()));
    assert_eq!(d.consume(s("a ")).ok(), Some(b"to-a-space".to_vec()));
    assert!(d.consume(s("b")).is_err());
}

#[test]
fn interleaved_publishers_lose_nothing() {
    // Publishers on one new name, admitted one at a time in an interleaved order.
    let mut d = BaseMessagingDispatcher::new();
    let order = [3u8, 0, 4, 1, 2, 7, 5, 6];
    for p in order {
        d.publish(s("race"), vec![p]);
    }
    let mut got = Vec::new();
    while let Ok(m) = d.consume(s("race")) {
        got.push(m[0]);
    }
    assert_eq!(got, order.to_vec());
    let mut sorted = got.clone();
    sorted.sort();
    assert_eq!(sorted, vec![0, 1, 2, 3, 4, 5, 6, 7]);
}

#[test]
fn empty_message_is_delivered() {
    let mut d = BaseMessagingDispatcher::new();
    d.publish(s("e"), Vec::new());
    assert_eq!(d.consume(s("e")).ok(), Some(Vec::new()));
}

#[test]
fn concurrent_publishers_race_on_new_queue() {
    let runtime = tokio::runtime::Builder::new_multi_thread()
        .worker_threads(4)
        .build()
        .unwrap();
    let shared = Arc::new(Mutex::new(BaseMessagingDispatcher::new()));
    let n: u8 = 64;
    runtime.block_on(async {
        let mut handles = Vec::new();
        for i in 0..n {
            let d = shared.clone();
            handles.push(tokio::spawn(async move {
                d.lock().await.publish("contested".to_string(), vec![i]);
            }));
        }
        for h in handles {
            h.await.unwrap();
        }
    });
    let mut d = runtime.block_on(shared.lock());
    let mut got = Vec::new();
    while let Ok(m) = d.consume("contested".to_string()) {
        got.push(m[0]);
    }
    assert_eq!(got.len(), n as usize);
    got.sort();
    assert_eq!(got, (0..n).collect::<Vec<u8>>());
}
