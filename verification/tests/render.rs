use instruments::arp::Arp;
use instruments::devices::device::Device;
use instruments::types::Message;

fn begin() -> Arp {
    Arp::new(Device::new(), Device::new())
}

fn lit(note: u8) -> Message {
    Message { status: 0x90, note, velocity: 127, extra: 0 }
}

fn led(note: u8, velocity: u8) -> Message {
    Message { status: 0xB0, note, velocity, extra: 0 }
}

fn flush(arp: &mut Arp) -> Vec<Message> {
    arp.grid_io.take_output()
}

#[test]
fn clear_board_writes_the_reset() {
    let mut arp = begin();
    assert_eq!(arp.clear_board(), Ok(()));
    assert_eq!(flush(&mut arp), vec![led(0, 0)]);
}

#[test]
fn first_repaint() {
    let mut arp = begin();
    assert_eq!(arp.render_ui(), Ok(()));
    assert_eq!(
        flush(&mut arp),
        vec![led(0, 0), led(104, 127), led(108, 15), led(110, 61), lit(72), lit(112)]
    );
}

#[test]
fn repaint_shows_state_and_lit_cells_left_to_right() {
    let mut arp = begin();
    assert_eq!(arp.grid_button_dispatch(87), Ok(()));
    assert_eq!(arp.grid_button_dispatch(16), Ok(()));
    assert_eq!(arp.grid_button_dispatch(51), Ok(()));
    assert_eq!(arp.grid_button_dispatch(115), Ok(()));
    assert_eq!(arp.grid_button_dispatch(24), Ok(()));
    assert_eq!(arp.play(), Ok(()));
    assert_eq!(arp.invert_scale(), Ok(()));
    assert_eq!(arp.update_state(), Ok(()));
    flush(&mut arp);
    assert_eq!(arp.render_ui(), Ok(()));
    assert_eq!(
        flush(&mut arp),
        vec![
            led(0, 0),
            led(104, 127),
            led(109, 60),
            led(110, 31),
            lit(24),
            lit(113),
            lit(16),
            lit(87),
        ]
    );
}

#[test]
fn repaint_twice_writes_the_same_messages() {
    let mut arp = begin();
    assert_eq!(arp.grid_button_dispatch(82), Ok(()));
    assert_eq!(arp.grid_button_dispatch(37), Ok(()));
    assert_eq!(arp.play(), Ok(()));
    flush(&mut arp);
    assert_eq!(arp.render_ui(), Ok(()));
    let first = flush(&mut arp);
    assert_eq!(arp.render_ui(), Ok(()));
    let second = flush(&mut arp);
    assert_eq!(first, second);
    assert_eq!(first.len(), 8);
    assert_eq!(arp.render_ui(), Ok(()));
    assert_eq!(arp.render_ui(), Ok(()));
    let mut twice = first.clone();
    twice.extend(second);
    assert_eq!(flush(&mut arp), twice);
}

#[test]
fn repaint_changes_no_state() {
    let mut arp = begin();
    assert_eq!(arp.grid_button_dispatch(82), Ok(()));
    assert_eq!(arp.play(), Ok(()));
    assert_eq!(arp.update_state(), Ok(()));
    let buffer = arp.buffer;
    assert_eq!(arp.render_ui(), Ok(()));
    assert_eq!(arp.buffer, buffer);
    assert!(arp.playing);
    assert!(arp.running);
    assert_eq!(arp.index, 1);
    assert_eq!(arp.tracker.index, 1);
    assert_eq!(arp.buffer_index, 0);
    assert_eq!(arp.octave, 5);
}

#[test]
fn page_switch_hides_sweep_and_other_pages() {
    let mut arp = begin();
    assert_eq!(arp.grid_button_dispatch(82), Ok(()));
    assert_eq!(arp.grid_button_dispatch(37), Ok(()));
    assert_eq!(arp.play(), Ok(()));
    for _ in 0..3 {
        assert_eq!(arp.update_state(), Ok(()));
    }
    assert_eq!(arp.tracker.index, 3);
    flush(&mut arp);
    assert_eq!(arp.top_row_dispatch(105), Ok(()));
    assert_eq!(arp.buffer_index, 1);
    assert_eq!(arp.buffer_btn, led(105, 127));
    let drawn = flush(&mut arp);
    assert_eq!(drawn, vec![led(0, 0), led(105, 127), led(109, 60), led(110, 61), lit(72)]);
    assert!(!drawn.contains(&arp.tracker.btn));
    assert!(!drawn.contains(&lit(82)));
    assert!(!drawn.contains(&lit(37)));
}

#[test]
fn page_switch_back_shows_the_page_again() {
    let mut arp = begin();
    assert_eq!(arp.grid_button_dispatch(82), Ok(()));
    assert_eq!(arp.top_row_dispatch(105), Ok(()));
    assert_eq!(arp.grid_button_dispatch(33), Ok(()));
    flush(&mut arp);
    assert_eq!(arp.top_row_dispatch(104), Ok(()));
    assert_eq!(
        flush(&mut arp),
        vec![led(0, 0), led(104, 127), led(108, 15), led(110, 61), lit(72), lit(112), lit(82)]
    );
    assert_eq!(arp.top_row_dispatch(105), Ok(()));
    assert_eq!(
        flush(&mut arp),
        vec![led(0, 0), led(105, 127), led(108, 15), led(110, 61), lit(72), lit(33)]
    );
}

#[test]
fn each_page_shows_its_own_eight_columns() {
    let mut arp = begin();
    for page in 0..4u8 {
        if page != 0 {
            assert_eq!(arp.top_row_dispatch(104 + page), Ok(()));
        }
        assert_eq!(arp.grid_button_dispatch(16 * page + page), Ok(()));
    }
    flush(&mut arp);
    for page in [0u8, 1, 2, 3, 0] {
        if page != arp.buffer_index {
            assert_eq!(arp.top_row_dispatch(104 + page), Ok(()));
            let drawn = flush(&mut arp);
            let cells: Vec<Message> = drawn.iter().skip(5).cloned().collect();
            if page == 0 {
                assert_eq!(cells, vec![lit(112), lit(0)]);
            } else {
                assert_eq!(cells, vec![lit(16 * page + page)]);
            }
        }
    }
    for page in 0..4usize {
        assert_eq!(arp.buffer[8 * page + page].val as usize, 7 - page);
    }
}

#[test]
fn sweep_is_drawn_on_the_page_it_lies_on() {
    let mut arp = begin();
    assert_eq!(arp.play(), Ok(()));
    for _ in 0..17 {
        assert_eq!(arp.update_state(), Ok(()));
    }
    assert_eq!(arp.tracker.index, 17);
    flush(&mut arp);
    for page in [1u8, 2, 3, 0] {
        assert_eq!(arp.top_row_dispatch(104 + page), Ok(()));
        let drawn = flush(&mut arp);
        assert_eq!(drawn.contains(&lit(113)), page == 2, "page {}", page);
        assert_eq!(drawn.len(), if page == 2 { 6 } else { 5 });
    }
}

#[test]
fn single_cell_updates_never_repaint() {
    let mut arp = begin();
    assert_eq!(arp.grid_button_dispatch(82), Ok(()));
    assert_eq!(arp.grid_button_dispatch(8), Ok(()));
    assert_eq!(arp.play(), Ok(()));
    assert_eq!(arp.update_state(), Ok(()));
    assert_eq!(arp.invert_scale(), Ok(()));
    assert_eq!(arp.pause(), Ok(()));
    let out = flush(&mut arp);
    assert!(!out.contains(&led(0, 0)));
    assert_eq!(out.len(), 1 + 2 + 2 + 2 + 1 + 2);
}
