use canoe::error::Error;
use canoe::event_loop::EventLoop;
use canoe::events::{init, Event, Tasks, FUND_CREATED, FUND_DUPLICATE};

#[test]
fn new_event_keeps_name_and_payload() {
    let event = Event::new("fund_created".to_string(), "{\"id\":1}".to_string());
    assert_eq!(event.name, "fund_created");
    assert_eq!(event.payload, "{\"id\":1}");
    assert_eq!(event.clone(), event);
}

#[test]
fn fund_created_carries_the_id() {
    assert_eq!(Event::fund_created(5), Event::new(FUND_CREATED.to_string(), "{\"id\":5}".to_string()));
    assert_eq!(Event::fund_created(-12).payload, "{\"id\":-12}");
    assert_eq!(Event::fund_created(i64::MAX).payload, "{\"id\":9223372036854775807}");
}

#[test]
fn fund_duplicate_carries_the_payload() {
    let event = Event::fund_duplicate("{}".to_string());
    assert_eq!(event.name, FUND_DUPLICATE);
    assert_eq!(event.name, "fund_duplicate");
    assert_eq!(event.payload, "{}");
}

#[test]
fn remove_on_an_empty_queue_is_a_signal() {
    let mut tasks = Tasks::new();
    assert_eq!(tasks.remove(), Err(Error::QueueEmpty));
    assert_eq!(tasks.remove(), Err(Error::QueueEmpty));
}

#[test]
fn remove_on_an_empty_queue_loses_nothing_emitted_later() {
    let mut tasks = Tasks::new();
    assert_eq!(tasks.remove(), Err(Error::QueueEmpty));
    assert_eq!(tasks.emit("a".to_string(), "1".to_string()), Ok(()));
    assert_eq!(tasks.remove(), Ok(Event::new("a".to_string(), "1".to_string())));
    assert_eq!(tasks.remove(), Err(Error::QueueEmpty));
    assert_eq!(tasks.emit("b".to_string(), "2".to_string()), Ok(()));
    assert_eq!(tasks.remove(), Ok(Event::new("b".to_string(), "2".to_string())));
}

#[test]
fn events_come_out_in_emission_order() {
    let mut tasks = Tasks::new();
    for n in 0..200 {
        assert_eq!(tasks.emit(format!("event-{}", n), n.to_string()), Ok(()));
    }
    for n in 0..200 {
        assert_eq!(tasks.remove(), Ok(Event::new(format!("event-{}", n), n.to_string())));
    }
    assert_eq!(tasks.remove(), Err(Error::QueueEmpty));
}

#[test]
fn events_come_out_in_emission_order_when_interleaved() {
    let mut tasks = Tasks::new();
    let mut emitted: Vec<Event> = Vec::new();
    let mut removed: Vec<Event> = Vec::new();
    let mut seed: u32 = 12345;
    for n in 0..2000 {
        seed = seed.wrapping_mul(1103515245).wrapping_add(12345);
        if (seed >> 16) % 3 != 0 {
            let event = Event::new(format!("producer-{}", n % 4), n.to_string());
            emitted.push(event.clone());
            assert_eq!(tasks.emit(event.name, event.payload), Ok(()));
        } else if let Ok(event) = tasks.remove() {
            removed.push(event);
        }
    }
    while let Ok(event) = tasks.remove() {
        removed.push(event);
    }
    assert_eq!(removed, emitted);
}

#[test]
fn equal_events_are_all_kept() {
    let mut tasks = Tasks::new();
    for _ in 0..3 {
        tasks.emit("same".to_string(), "same".to_string()).unwrap();
    }
    for _ in 0..3 {
        assert_eq!(tasks.remove(), Ok(Event::new("same".to_string(), "same".to_string())));
    }
    assert_eq!(tasks.remove(), Err(Error::QueueEmpty));
}

#[test]
fn default_queue_is_empty() {
    let mut tasks = Tasks::default();
    assert_eq!(tasks.remove(), Err(Error::QueueEmpty));
}

#[test]
fn init_starts_with_an_empty_queue_and_a_polling_loop() {
    let (mut tasks, event_loop) = init();
    assert_eq!(event_loop, EventLoop::Polling);
    assert_eq!(tasks.remove(), Err(Error::QueueEmpty));
}
