use drive_gauges::event::{Event, EventQueue, Key};

#[test]
fn quit_key_is_q() {
    assert!(Key::Char('q').is_quit());
    assert!(!Key::Char('Q').is_quit());
    assert!(!Key::Char('x').is_quit());
    assert!(!Key::Ctrl('q').is_quit());
    assert!(!Key::Alt('q').is_quit());
    assert!(!Key::Esc.is_quit());
    assert!(!Key::F(1).is_quit());
    assert!(!Key::Unknown.is_quit());
}

#[test]
fn new_queue_is_empty() {
    let mut queue = EventQueue::new(4);
    assert_eq!(queue.len(), 0);
    assert_eq!(queue.room(), 4);
    assert!(queue.is_empty());
    assert!(!queue.is_full());
    assert_eq!(queue.next(), None);
    assert_eq!(queue.len(), 0);
}

#[test]
fn events_leave_in_the_order_of_arrival() {
    let mut queue = EventQueue::new(4);
    assert_eq!(queue.offer(Event::Tick), Ok(()));
    assert_eq!(queue.offer(Event::Input(Key::Char('a'))), Ok(()));
    assert_eq!(queue.offer(Event::Input(Key::Up)), Ok(()));
    assert_eq!(queue.len(), 3);
    assert_eq!(queue.next(), Some(Event::Tick));
    assert_eq!(queue.next(), Some(Event::Input(Key::Char('a'))));
    assert_eq!(queue.offer(Event::Tick), Ok(()));
    assert_eq!(queue.next(), Some(Event::Input(Key::Up)));
    assert_eq!(queue.next(), Some(Event::Tick));
    assert_eq!(queue.next(), None);
}

#[test]
fn full_queue_hands_the_event_back() {
    let mut queue = EventQueue::new(2);
    assert_eq!(queue.offer(Event::Tick), Ok(()));
    assert_eq!(queue.offer(Event::Input(Key::Char('q'))), Ok(()));
    assert!(queue.is_full());
    assert_eq!(queue.offer(Event::Input(Key::Char('z'))), Err(Event::Input(Key::Char('z'))));
    assert_eq!(queue.offer(Event::Tick), Err(Event::Tick));
    assert_eq!(queue.len(), 2);
    assert_eq!(queue.next(), Some(Event::Tick));
    assert!(!queue.is_full());
    assert_eq!(queue.offer(Event::Input(Key::Char('z'))), Ok(()));
    assert_eq!(queue.next(), Some(Event::Input(Key::Char('q'))));
    assert_eq!(queue.next(), Some(Event::Input(Key::Char('z'))));
    assert_eq!(queue.next(), None);
}

#[test]
fn queue_without_room_takes_nothing() {
    let mut queue = EventQueue::new(0);
    assert!(queue.is_full());
    assert!(queue.is_empty());
    assert_eq!(queue.offer(Event::Tick), Err(Event::Tick));
    assert_eq!(queue.next(), None);
}

#[test]
fn stalled_consumer_gets_every_tick() {
    let mut queue = EventQueue::new(3);
    let mut pending = 10;
    let mut delivered = 0;
    while pending > 0 && !queue.is_full() {
        assert_eq!(queue.offer(Event::Tick), Ok(()));
        pending -= 1;
    }
    assert_eq!(pending, 7);
    while pending > 0 || !queue.is_empty() {
        assert_eq!(queue.next(), Some(Event::Tick));
        delivered += 1;
        if pending > 0 {
            assert_eq!(queue.offer(Event::Tick), Ok(()));
            pending -= 1;
        }
    }
    assert_eq!(delivered, 10);
    assert_eq!(queue.next(), None);
}

#[test]
fn keys_and_ticks_keep_their_own_order() {
    let mut queue = EventQueue::new(8);
    let sent = [
        Event::Input(Key::Char('a')),
        Event::Tick,
        Event::Input(Key::Char('b')),
        Event::Input(Key::Char('c')),
        Event::Tick,
    ];
    for event in sent {
        assert_eq!(queue.offer(event), Ok(()));
    }
    let mut got = Vec::new();
    while let Some(event) = queue.next() {
        got.push(event);
    }
    assert_eq!(got, sent.to_vec());
}
