use webmq::errors::WebMQError;
use webmq::queue::{create_memory_queue, AsyncQueue, MemoryQueue};

#[test]
fn memory_queue_pops_in_push_order() {
    let mut q: MemoryQueue<u32> = MemoryQueue::new();
    assert!(q.push(1).is_none());
    assert!(q.push(2).is_none());
    assert!(q.push(3).is_none());
    assert_eq!(q.pop().ok(), Some(1));
    assert_eq!(q.pop().ok(), Some(2));
    assert_eq!(q.pop().ok(), Some(3));
}

#[test]
fn memory_queue_pop_on_empty_is_data_error() {
    let mut q = create_memory_queue();
    match q.pop() {
        Err(WebMQError::Data(msg)) => {
            assert_eq!(msg, "Failed to pop data from queue as it contains no elements")
        }
        _ => panic!("expected a Data error"),
    }
}

#[test]
fn memory_queue_keeps_empty_messages() {
    let mut q = create_memory_queue();
    q.push(Vec::new());
    q.push(vec![7u8]);
    assert_eq!(q.pop().ok(), Some(Vec::new()));
    assert_eq!(q.pop().ok(), Some(vec![7u8]));
    assert!(q.pop().is_err());
}
