use instruments::pattern::{pattern_is_valid, ArpCol, Tracker, COLUMNS, PAGE_WIDTH};
use instruments::scheduler::Scheduler;
use instruments::types::Message;

#[test]
fn new_column_is_silent() {
    assert_eq!(ArpCol::new(), ArpCol { val: 0, note: 0 });
    assert_eq!(COLUMNS, 32);
    assert_eq!(PAGE_WIDTH, 8);
}

#[test]
fn column_pairs_degree_with_button() {
    assert!(ArpCol { val: 0, note: 0 }.is_valid_at(0));
    assert!(ArpCol { val: 0, note: 200 }.is_valid_at(31));
    assert!(ArpCol { val: 2, note: 82 }.is_valid_at(2));
    assert!(ArpCol { val: 2, note: 82 }.is_valid_at(10));
    assert!(ArpCol { val: 2, note: 82 }.is_valid_at(26));
    assert!(!ArpCol { val: 2, note: 82 }.is_valid_at(3));
    assert!(!ArpCol { val: 3, note: 82 }.is_valid_at(2));
    assert!(ArpCol { val: 7, note: 7 }.is_valid_at(7));
    assert!(!ArpCol { val: 8, note: 7 }.is_valid_at(7));
    assert!(!ArpCol { val: 1, note: 104 }.is_valid_at(8));
    assert!(!ArpCol { val: 7, note: 8 }.is_valid_at(8));
    assert!(!ArpCol { val: 1, note: 224 }.is_valid_at(0));
}

#[test]
fn pattern_validity() {
    let mut buffer = [ArpCol::new(); 32];
    assert!(pattern_is_valid(&buffer));
    buffer[31] = ArpCol { val: 1, note: 103 };
    assert!(pattern_is_valid(&buffer));
    buffer[0] = ArpCol { val: 1, note: 103 };
    assert!(!pattern_is_valid(&buffer));
}

#[test]
fn new_tracker_sits_at_the_first_column() {
    let t = Tracker::new();
    assert_eq!(t.index, 0);
    assert_eq!(t.btn, Message { status: 0x90, note: 112, velocity: 127, extra: 0 });
    assert!(t.is_valid());
}

#[test]
fn tracker_range_is_the_page_window() {
    let mut t = Tracker::new();
    for index in 0..32u8 {
        t.index = index;
        for page in 0..4u8 {
            assert_eq!(t.in_range(page), index / 8 == page, "index {} page {}", index, page);
        }
    }
    t.index = 7;
    assert!(t.in_range(0));
    assert!(!t.in_range(1));
    t.index = 8;
    assert!(!t.in_range(0));
    assert!(t.in_range(1));
    assert!(!t.in_range(255));
    assert!(!t.in_range(32));
}

#[test]
fn tracker_place_wraps_at_thirty_two() {
    let mut t = Tracker::new();
    for expected in 1..32u8 {
        t.update();
        assert_eq!(t.index, expected);
        assert_eq!(t.btn.note, 112);
    }
    t.update();
    assert_eq!(t.index, 0);
}

#[test]
fn tracker_led_wraps_at_the_eighth_button() {
    let mut t = Tracker::new();
    for expected in 113..120u8 {
        t.move_right();
        assert_eq!(t.btn.note, expected);
        assert_eq!(t.index, 0);
    }
    t.move_right();
    assert_eq!(t.btn, Message { status: 0x90, note: 112, velocity: 127, extra: 0 });
}

#[test]
fn tracker_validity_ties_led_to_place() {
    let mut t = Tracker::new();
    for _ in 0..40 {
        t.update();
        t.move_right();
        assert!(t.is_valid());
    }
    t.update();
    assert!(!t.is_valid());
    t.move_right();
    assert!(t.is_valid());
    t.index = 32;
    assert!(!t.is_valid());
    let mut t = Tracker::new();
    t.btn.velocity = 0;
    assert!(!t.is_valid());
}

#[test]
fn scheduler_built_through_its_methods_is_valid() {
    let mut s: Scheduler<u8> = Scheduler::new();
    assert!(s.is_valid());
    s.interval(1, 0);
    s.interval(3, 1);
    for _ in 0..10 {
        s.update(0);
        assert!(s.is_valid());
    }
    s.clear_queue();
    assert!(s.is_valid());
}
