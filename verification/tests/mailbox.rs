use tauri_async_handler::mailbox::Mailbox;

#[test]
fn mailbox_is_first_in_first_out() {
    let mut mailbox = Mailbox::new(4);
    assert!(mailbox.offer(30));
    assert!(mailbox.offer(10));
    assert!(mailbox.offer(20));
    assert_eq!(mailbox.take(), Some(30));
    assert_eq!(mailbox.take(), Some(10));
    assert_eq!(mailbox.take(), Some(20));
    assert_eq!(mailbox.take(), None);
}

#[test]
fn mailbox_turns_away_what_exceeds_its_capacity() {
    for capacity in 1..6usize {
        let mut mailbox = Mailbox::new(capacity);
        for ticket in 0..capacity as u64 {
            assert!(mailbox.offer(ticket), "capacity {} ticket {}", capacity, ticket);
        }
        assert!(!mailbox.offer(99));
        assert!(!mailbox.offer(100));
        for ticket in 0..capacity as u64 {
            assert_eq!(mailbox.take(), Some(ticket));
        }
        assert_eq!(mailbox.take(), None);
    }
}

#[test]
fn mailbox_has_room_again_after_a_take() {
    let mut mailbox = Mailbox::new(2);
    assert!(mailbox.offer(1));
    assert!(mailbox.offer(2));
    assert!(!mailbox.offer(3));
    assert_eq!(mailbox.take(), Some(1));
    assert!(mailbox.offer(4));
    assert!(!mailbox.offer(5));
    assert_eq!(mailbox.take(), Some(2));
    assert_eq!(mailbox.take(), Some(4));
    assert_eq!(mailbox.take(), None);
    assert!(mailbox.offer(6));
    assert!(mailbox.offer(7));
    assert!(!mailbox.offer(8));
}

#[test]
fn mailbox_of_one_alternates() {
    let mut mailbox = Mailbox::new(1);
    for ticket in 0..20u64 {
        assert_eq!(mailbox.take(), None);
        assert!(mailbox.offer(ticket));
        assert!(!mailbox.offer(ticket + 1000));
        assert_eq!(mailbox.take(), Some(ticket));
    }
}

#[test]
fn empty_mailbox_stays_empty() {
    let mut mailbox = Mailbox::new(3);
    assert_eq!(mailbox.take(), None);
    assert_eq!(mailbox.take(), None);
    assert!(mailbox.offer(5));
    assert_eq!(mailbox.take(), Some(5));
}
