use coretop::clock::Clock;
use coretop::clock::TimeOfDay;
use coretop::events::App;
use coretop::events::InputEvent;
use coretop::events::Key;
use coretop::events::KeyEvent;
use coretop::events::KeyKind;
use coretop::events::poll_timeout_ms;
use coretop::events::tick_due;
use coretop::layout::Rect;
use coretop::layout::partition;
use coretop::render::render_frame;
use coretop::snapshot::Snapshot;
use coretop::snapshot::to_centi_gib;
use coretop::text::centi_string;
use coretop::text::decimal_string;
use coretop::text::two_digit_string;

fn area(width: u16, height: u16) -> Rect {
    Rect { x: 0, y: 0, width, height }
}

fn snapshot(host: &str, cpus: Vec<u32>, total: u64, used: u64) -> Snapshot {
    Snapshot::new(host.to_string(), cpus, total, used)
}

fn noon() -> TimeOfDay {
    TimeOfDay { hour: 12, minute: 0, second: 0 }
}

#[test]
fn four_cores_width_100_split_evenly() {
    let plan = partition(area(100, 40), 4);
    let widths: Vec<u16> = plan.cells.iter().map(|c| c.width).collect();
    assert_eq!(widths, vec![25, 25, 25, 25]);
}

#[test]
fn three_cores_width_100_leading_column_takes_remainder() {
    let plan = partition(area(100, 40), 3);
    let widths: Vec<u16> = plan.cells.iter().map(|c| c.width).collect();
    assert_eq!(widths, vec![34, 33, 33]);
}

#[test]
fn cell_count_and_width_sum_match_the_area() {
    for &(w, h, n) in &[(1u16, 1u16, 1usize), (80, 24, 7), (199, 53, 16), (5, 9, 12), (65535, 100, 3)] {
        let plan = partition(area(w, h), n);
        assert_eq!(plan.cells.len(), n);
        let sum: u64 = plan.cells.iter().map(|c| c.width as u64).sum();
        assert_eq!(sum, w as u64);
        assert_eq!(plan.header.width, w);
    }
}

#[test]
fn cells_tile_the_body_left_to_right() {
    let plan = partition(area(101, 31), 7);
    let mut x: u16 = 0;
    for c in plan.cells.iter() {
        assert_eq!(c.x, x);
        assert_eq!(c.y, plan.header.height);
        assert_eq!(c.height, 31 - plan.header.height);
        x += c.width;
    }
    assert_eq!(x, 101);
}

#[test]
fn header_is_a_tenth_of_the_height_but_at_least_one_row() {
    assert_eq!(partition(area(100, 40), 2).header.height, 4);
    assert_eq!(partition(area(100, 100), 2).header.height, 10);
    assert_eq!(partition(area(100, 5), 2).header.height, 1);
    assert_eq!(partition(area(100, 1), 2).header.height, 1);
}

#[test]
fn partition_is_idempotent() {
    let first = partition(area(137, 43), 11);
    let second = partition(area(137, 43), 11);
    assert_eq!(first.header, second.header);
    assert_eq!(first.cells, second.cells);
}

#[test]
fn gigabyte_conversion_has_exact_values() {
    assert_eq!(to_centi_gib(0), 0);
    assert_eq!(to_centi_gib(1 << 30), 100);
    assert_eq!(to_centi_gib(1 << 29), 50);
    assert_eq!(to_centi_gib(3 << 30), 300);
}

#[test]
fn gigabyte_conversion_preserves_used_le_total() {
    let total: u64 = 1 << 30;
    let used: u64 = (1 << 30) - 1;
    assert!(to_centi_gib(used) <= to_centi_gib(total));
    assert_eq!(to_centi_gib(used), 99);
    let snap = snapshot("zeus", vec![0], total, used);
    let (used_c, total_c) = snap.memory_centi_gib();
    assert!(used_c <= total_c);
}

#[test]
fn snapshot_clamps_out_of_range_readings() {
    let snap = snapshot("zeus", vec![20000, 9999], 100, 200);
    assert_eq!(snap.cpus, vec![10000, 9999]);
    assert_eq!(snap.used_memory, 100);
    assert_eq!(snap.total_memory, 100);
}

#[test]
fn cells_show_core_values_in_core_order() {
    let snap = snapshot("zeus", vec![1000, 2000, 3000], 1 << 30, 1 << 29);
    let frame = render_frame(&snap, area(100, 40), noon());
    assert_eq!(frame.cells.len(), 3);
    let texts: Vec<&str> = frame.cells.iter().map(|c| c.usage_text.as_str()).collect();
    assert_eq!(texts, vec!["10.00", "20.00", "30.00"]);
    let labels: Vec<&str> = frame.cells.iter().map(|c| c.label.as_str()).collect();
    assert_eq!(labels, vec!["cpu0", "cpu1", "cpu2"]);
    assert!(frame.cells[0].area.x < frame.cells[1].area.x);
    assert!(frame.cells[1].area.x < frame.cells[2].area.x);
}

#[test]
fn first_zero_baseline_renders_a_placeholder_for_every_core() {
    let snap = snapshot("zeus", vec![0, 0, 0, 0], 1 << 30, 0);
    let frame = render_frame(&snap, area(100, 40), noon());
    assert_eq!(frame.cells.len(), 4);
    for cell in frame.cells.iter() {
        assert_eq!(cell.usage_text, "0.00");
    }
    assert_eq!(frame.summary_text, "zeus 0.00/1.00 GiB");
}

#[test]
fn summary_line_shows_host_and_memory_in_gibibytes() {
    let snap = snapshot("zeus", vec![0], 1 << 30, 1 << 29);
    let frame = render_frame(&snap, area(100, 40), noon());
    assert_eq!(frame.summary_text, "zeus 0.50/1.00 GiB");
}

#[test]
fn clock_renders_hh_mm_ss() {
    let clock = Clock {};
    let t = TimeOfDay { hour: 9, minute: 5, second: 7 };
    assert_eq!(clock.render(t), "09:05:07");
    let midnight = TimeOfDay { hour: 0, minute: 0, second: 0 };
    assert_eq!(clock.render(midnight), "00:00:00");
    let last = TimeOfDay { hour: 23, minute: 59, second: 59 };
    assert_eq!(clock.render(last), "23:59:59");
}

#[test]
fn clock_now_reads_a_valid_time_of_day() {
    let clock = Clock {};
    let t = clock.now();
    assert!(t.hour < 24);
    assert!(t.minute < 60);
    assert!(t.second < 60);
}

#[test]
fn frame_clock_text_matches_the_given_time() {
    let snap = snapshot("zeus", vec![0], 1 << 30, 0);
    let t = TimeOfDay { hour: 1, minute: 2, second: 3 };
    let frame = render_frame(&snap, area(80, 24), t);
    assert_eq!(frame.clock_text, "01:02:03");
}

#[test]
fn quit_press_is_acted_on_without_waiting_for_the_tick() {
    let mut app = App::new("zeus".to_string());
    assert!(!app.exit);
    assert!(!tick_due(0, 250));
    assert!(poll_timeout_ms(0, 250) <= 250);
    let quit = InputEvent::Key(KeyEvent { key: Key::Char('q'), kind: KeyKind::Press });
    app.handle_events(quit);
    assert!(app.exit);
}

#[test]
fn only_a_press_of_q_quits() {
    let mut app = App::new("zeus".to_string());
    app.handle_events(InputEvent::Key(KeyEvent { key: Key::Char('q'), kind: KeyKind::Release }));
    assert!(!app.exit);
    app.handle_events(InputEvent::Key(KeyEvent { key: Key::Char('q'), kind: KeyKind::Repeat }));
    assert!(!app.exit);
    app.handle_events(InputEvent::Key(KeyEvent { key: Key::Char('x'), kind: KeyKind::Press }));
    assert!(!app.exit);
    app.handle_events(InputEvent::Key(KeyEvent { key: Key::Char('Q'), kind: KeyKind::Press }));
    assert!(!app.exit);
    app.handle_events(InputEvent::Other);
    assert!(!app.exit);
    app.handle_events(InputEvent::Key(KeyEvent { key: Key::Char('q'), kind: KeyKind::Press }));
    assert!(app.exit);
}

#[test]
fn exit_is_never_revoked() {
    let mut app = App::new("zeus".to_string());
    app.exit();
    assert!(app.exit);
    app.handle_events(InputEvent::Key(KeyEvent { key: Key::Char('x'), kind: KeyKind::Press }));
    assert!(app.exit);
}

#[test]
fn tick_due_compares_elapsed_to_the_interval() {
    assert!(!tick_due(0, 250));
    assert!(!tick_due(249, 250));
    assert!(tick_due(250, 250));
    assert!(tick_due(1000, 250));
}

#[test]
fn poll_timeout_is_the_time_remaining_until_the_tick() {
    assert_eq!(poll_timeout_ms(0, 250), 250);
    assert_eq!(poll_timeout_ms(100, 250), 150);
    assert_eq!(poll_timeout_ms(250, 250), 0);
    assert_eq!(poll_timeout_ms(400, 250), 0);
}

#[test]
fn decimal_strings_have_no_leading_zeros() {
    assert_eq!(decimal_string(0), "0");
    assert_eq!(decimal_string(7), "7");
    assert_eq!(decimal_string(10), "10");
    assert_eq!(decimal_string(65535), "65535");
    assert_eq!(decimal_string(u64::MAX), "18446744073709551615");
}

#[test]
fn two_digit_strings_keep_the_leading_zero() {
    assert_eq!(two_digit_string(0), "00");
    assert_eq!(two_digit_string(9), "09");
    assert_eq!(two_digit_string(59), "59");
}

#[test]
fn centi_strings_show_two_fraction_digits() {
    assert_eq!(centi_string(0), "0.00");
    assert_eq!(centi_string(5), "0.05");
    assert_eq!(centi_string(1007), "10.07");
    assert_eq!(centi_string(10000), "100.00");
}
