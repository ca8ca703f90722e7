use chat::hub::Hub;
use chat::message::Message;
use chat::stream::{next_event, StreamStep};

fn numbered(n: u64) -> Message {
    Message {
        room: "lobby".to_string(),
        username: "alice".to_string(),
        message: format!("message {}", n),
    }
}

#[test]
fn stream_waits_while_nothing_is_published() {
    let mut hub = Hub::new(4);
    let mut cursor = hub.subscribe();
    assert_eq!(next_event(&hub, &mut cursor, false), StreamStep::Wait);
    assert_eq!(cursor.position(), 0);
}

#[test]
fn stream_emits_one_event_per_message() {
    let mut hub = Hub::new(4);
    let mut cursor = hub.subscribe();
    hub.publish(numbered(0));
    hub.publish(numbered(1));
    assert_eq!(next_event(&hub, &mut cursor, false), StreamStep::Emit(numbered(0)));
    assert_eq!(next_event(&hub, &mut cursor, false), StreamStep::Emit(numbered(1)));
    assert_eq!(next_event(&hub, &mut cursor, false), StreamStep::Wait);
    assert_eq!(cursor.position(), 2);
}

#[test]
fn stream_passes_over_a_gap_in_silence() {
    let mut hub = Hub::new(2);
    let mut cursor = hub.subscribe();
    for n in 0..5 {
        hub.publish(numbered(n));
    }
    assert_eq!(next_event(&hub, &mut cursor, false), StreamStep::Emit(numbered(3)));
    assert_eq!(cursor.position(), 4);
    assert_eq!(next_event(&hub, &mut cursor, false), StreamStep::Emit(numbered(4)));
    assert_eq!(next_event(&hub, &mut cursor, false), StreamStep::Wait);
}

#[test]
fn shutdown_stops_the_stream_and_delivers_nothing_more() {
    let mut hub = Hub::new(4);
    let mut cursor = hub.subscribe();
    hub.publish(numbered(0));
    assert_eq!(next_event(&hub, &mut cursor, true), StreamStep::Stop);
    assert_eq!(cursor.position(), 0);
    hub.release(cursor);
    assert_eq!(hub.subscribers(), 0);
}

#[test]
fn shutdown_stops_every_stream() {
    let mut hub = Hub::new(4);
    let mut idle = hub.subscribe();
    hub.publish(numbered(0));
    let mut behind = hub.subscribe();
    hub.publish(numbered(1));
    let mut overrun = Hub::new(4).subscribe();
    for n in 2..9 {
        hub.publish(numbered(n));
    }
    assert_eq!(next_event(&hub, &mut idle, true), StreamStep::Stop);
    assert_eq!(next_event(&hub, &mut behind, true), StreamStep::Stop);
    assert_eq!(next_event(&hub, &mut overrun, true), StreamStep::Stop);
    assert_eq!(idle.position(), 0);
    assert_eq!(behind.position(), 1);
    assert_eq!(overrun.position(), 0);
}

#[test]
fn closed_hub_stops_the_stream_after_the_pending_messages() {
    let mut hub = Hub::new(4);
    let mut cursor = hub.subscribe();
    hub.publish(numbered(0));
    hub.close();
    assert_eq!(next_event(&hub, &mut cursor, false), StreamStep::Emit(numbered(0)));
    assert_eq!(next_event(&hub, &mut cursor, false), StreamStep::Stop);
    assert_eq!(next_event(&hub, &mut cursor, false), StreamStep::Stop);
}

#[test]
fn new_connection_starts_without_backlog() {
    let mut hub = Hub::new(4);
    let mut first = hub.subscribe();
    hub.publish(numbered(0));
    assert_eq!(next_event(&hub, &mut first, false), StreamStep::Emit(numbered(0)));
    hub.release(first);
    let mut second = hub.subscribe();
    assert_eq!(next_event(&hub, &mut second, false), StreamStep::Wait);
    hub.publish(numbered(1));
    assert_eq!(next_event(&hub, &mut second, false), StreamStep::Emit(numbered(1)));
}
