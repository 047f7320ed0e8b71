use rust_atomic_lock::channel::{channel_save_mem, channel_unsafe};
use rust_atomic_lock::exchange::exchanged;

#[test]
fn save_mem_state_byte() {
    assert!(channel_save_mem::is_ready_state(channel_save_mem::READY));
    assert!(!channel_save_mem::is_ready_state(channel_save_mem::EMPTY));
    assert!(!channel_save_mem::is_ready_state(channel_save_mem::WRITING));
    assert!(!channel_save_mem::is_ready_state(channel_save_mem::READING));
}

#[test]
fn save_mem_one_message() {
    let c = channel_save_mem::Channel::new();
    assert!(!c.is_ready());
    assert!(!c.start_receive().taken);
    let permit = c.start_send().expect("an empty channel can be sent on");
    // A second sender is refused, before and after publishing.
    assert!(c.start_send().is_none());
    assert!(!c.is_ready());
    permit.publish();
    assert!(c.is_ready());
    assert!(c.start_send().is_none());
    assert!(c.start_receive().taken);
    // The message is received once.
    assert!(!c.is_ready());
    assert!(!c.start_receive().taken);
}

#[test]
fn unsafe_one_message() {
    let c = channel_unsafe::Channel::new();
    assert!(!c.is_ready());
    assert!(!c.start_receive().taken);
    let permit = c.start_send().expect("an empty channel can be sent on");
    assert!(c.start_send().is_none());
    assert!(!c.is_ready());
    permit.publish();
    assert!(c.is_ready());
    assert!(c.start_receive().taken);
    // A second receive finds no message.
    assert!(!c.is_ready());
    assert!(!c.start_receive().taken);
    assert!(c.start_send().is_none());
}

#[test]
fn save_mem_exchanges() {
    let send = channel_save_mem::send_exchange();
    assert_eq!((send.expected, send.desired), (channel_save_mem::EMPTY, channel_save_mem::WRITING));
    let take = channel_save_mem::receive_exchange();
    assert_eq!((take.expected, take.desired), (channel_save_mem::READY, channel_save_mem::READING));
    assert!(exchanged::<u8>(&Ok(2)));
    assert!(!exchanged::<u8>(&Err(1)));
    let c = channel_save_mem::Channel::new();
    assert_eq!(c.start_receive().outcome, Err(channel_save_mem::EMPTY));
    c.start_send().expect("an empty channel can be sent on").publish();
    let r = c.start_receive();
    assert_eq!(r.outcome, Ok(channel_save_mem::READY));
    assert!(r.taken);
    assert_eq!(c.start_receive().outcome, Err(channel_save_mem::READING));
}

#[test]
fn unsafe_swaps() {
    assert!(channel_unsafe::claim_flag());
    assert!(!channel_unsafe::take_flag());
    assert!(channel_unsafe::claimed(false));
    assert!(!channel_unsafe::claimed(true));
    assert!(channel_unsafe::taken(true));
    assert!(!channel_unsafe::taken(false));
    let c = channel_unsafe::Channel::new();
    assert!(!c.start_receive().observed);
    c.start_send().expect("an empty channel can be sent on").publish();
    let r = c.start_receive();
    assert!(r.observed && r.taken);
    assert!(!c.start_receive().observed);
}
