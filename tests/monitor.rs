use cpu_monitor::history::HistoryBuffer;
use cpu_monitor::layout::{frame_panels, Area, Series};
use cpu_monitor::metrics::{byte_to_megabyte, memory_percent};
use cpu_monitor::palette::{random_color, Palette, Rgb};
use cpu_monitor::scheduler::{Action, Input, Session, TICK_MS};
use cpu_monitor::state::{App, HISTORY_LEN, SEED_VALUE};

const MB: u64 = 1024 * 1024;

fn fixed_palette() -> Palette {
    Palette { cpu: Rgb { r: 10, g: 20, b: 30 }, memory: Rgb { r: 200, g: 100, b: 1 } }
}

#[test]
fn filled_buffer_holds_seed() {
    let b = HistoryBuffer::filled(5, 7);
    assert_eq!(b.snapshot(), &[7, 7, 7, 7, 7]);
    assert_eq!(b.len(), 5);
}

#[test]
fn push_drops_oldest_and_fronts_newest() {
    let mut b = HistoryBuffer::filled(3, 0);
    b.push(1);
    b.push(2);
    b.push(3);
    b.push(4);
    assert_eq!(b.snapshot(), &[4, 3, 2]);
}

#[test]
fn pushes_keep_length_and_front() {
    let mut b = HistoryBuffer::filled(10, 100);
    for v in 0..250u64 {
        b.push(v % 101);
        assert_eq!(b.len(), 10);
        assert_eq!(b.snapshot()[0], v % 101);
    }
}

#[test]
fn pushes_fewer_than_capacity_keep_order() {
    let mut b = HistoryBuffer::filled(6, 9);
    b.push(1);
    b.push(2);
    b.push(3);
    assert_eq!(b.snapshot(), &[3, 2, 1, 9, 9, 9]);
}

#[test]
fn empty_buffer_stays_empty() {
    let mut b = HistoryBuffer::filled(0, 9);
    b.push(5);
    assert_eq!(b.len(), 0);
    assert!(b.snapshot().is_empty());
}

#[test]
fn megabytes_drop_fractions() {
    assert_eq!(byte_to_megabyte(0), 0);
    assert_eq!(byte_to_megabyte(MB - 1), 0);
    assert_eq!(byte_to_megabyte(MB), 1);
    assert_eq!(byte_to_megabyte(3 * MB + 5), 3);
    assert_eq!(byte_to_megabyte(u64::MAX), 17592186044415);
}

#[test]
fn memory_half_used() {
    assert_eq!(memory_percent(5 * MB, 10 * MB), 50);
}

#[test]
fn memory_three_times_five_megabytes_of_ten() {
    // Fifteen whole megabytes over ten: the formula gives 150.
    assert_eq!(memory_percent(3 * MB * 5, MB * 10), 150);
}

#[test]
fn memory_full_is_hundred() {
    assert_eq!(memory_percent(8 * MB, 8 * MB), 100);
    assert_eq!(memory_percent(u64::MAX, u64::MAX), 100);
}

#[test]
fn memory_truncates_at_each_step() {
    // 2.999 MB used counts as 2 MB; 4.5 MB in all counts as 4 MB.
    assert_eq!(memory_percent(3 * MB - 1, 4 * MB + MB / 2), 50);
    // Integer arithmetic: 29 of 100 is 29, not 28.
    assert_eq!(memory_percent(29 * MB, 100 * MB), 29);
    assert_eq!(memory_percent(2 * MB, 3 * MB), 66);
}

#[test]
fn memory_below_one_megabyte_in_all_is_zero() {
    assert_eq!(memory_percent(1000, 1000), 0);
    assert_eq!(memory_percent(0, MB - 1), 0);
}

#[test]
fn memory_bounded_when_used_within_total() {
    for used in 0..=40u64 {
        let p = memory_percent(used * MB / 4, 10 * MB);
        assert!(p <= 100);
    }
}

#[test]
fn random_colors_are_never_black() {
    for _ in 0..200 {
        let c = random_color();
        assert!(c.r >= 1 && c.g >= 1 && c.b >= 1);
        let p = Palette::random();
        assert!(p.cpu.r >= 1 && p.cpu.g >= 1 && p.cpu.b >= 1);
        assert!(p.memory.r >= 1 && p.memory.g >= 1 && p.memory.b >= 1);
    }
}

#[test]
fn app_starts_full_scale() {
    let app = App::new();
    assert_eq!(HISTORY_LEN, 200);
    assert_eq!(app.cpu().len(), 200);
    assert_eq!(app.memory().len(), 200);
    assert!(app.cpu().snapshot().iter().all(|v| *v == SEED_VALUE));
    assert!(app.memory().snapshot().iter().all(|v| *v == 100));
}

#[test]
fn app_records_each_series_apart() {
    let mut app = App::new();
    app.next_cpu(12);
    app.next_memory(3 * MB, 4 * MB);
    assert_eq!(app.cpu().snapshot()[0], 12);
    assert_eq!(app.memory().snapshot()[0], 75);
    assert_eq!(app.cpu().snapshot()[1], 100);
    assert_eq!(app.memory().snapshot()[1], 100);
}

#[test]
fn one_sample_end_to_end() {
    let mut s = Session::new(fixed_palette(), 0, TICK_MS);
    let before = s.app().cpu().snapshot().to_vec();
    assert_eq!(s.on_input(Input::Nothing, 250), Action::Sample);
    s.record_sample(37, 62 * MB, 100 * MB, 251);
    let cpu = s.app().cpu().snapshot();
    let mem = s.app().memory().snapshot();
    assert_eq!(cpu.len(), 200);
    assert_eq!(mem.len(), 200);
    assert_eq!(cpu[0], 37);
    assert_eq!(mem[0], 62);
    assert_eq!(&cpu[1..], &before[..199]);
    assert!(mem[1..].iter().all(|v| *v == 100));
}

#[test]
fn timeout_is_what_is_left_of_the_tick() {
    let s = Session::new(fixed_palette(), 1000, TICK_MS);
    assert_eq!(s.poll_timeout(1000), 250);
    assert_eq!(s.poll_timeout(1100), 150);
    assert_eq!(s.poll_timeout(1250), 0);
    assert_eq!(s.poll_timeout(5000), 0);
    assert_eq!(s.poll_timeout(900), 250);
    assert_eq!(s.elapsed_ms(1100), 100);
    assert_eq!(s.elapsed_ms(900), 0);
}

#[test]
fn samples_once_per_interval() {
    let mut s = Session::new(fixed_palette(), 0, TICK_MS);
    assert_eq!(s.on_input(Input::Nothing, 100), Action::Wait);
    assert_eq!(s.on_input(Input::Key('x'), 249), Action::Wait);
    assert_eq!(s.on_input(Input::Other, 250), Action::Sample);
    s.record_sample(5, MB, 2 * MB, 260);
    assert_eq!(s.on_input(Input::Nothing, 300), Action::Wait);
    assert_eq!(s.on_input(Input::Nothing, 509), Action::Wait);
    let t = s.poll_timeout(300);
    assert_eq!(t, 210);
    assert_eq!(s.on_input(Input::Nothing, 300 + t), Action::Sample);
    assert!(s.is_running());
}

#[test]
fn quit_key_ends_the_run_at_once() {
    let mut s = Session::new(fixed_palette(), 0, TICK_MS);
    assert_eq!(s.on_input(Input::Key('q'), 249), Action::Quit);
    assert!(!s.is_running());
    let mut s = Session::new(fixed_palette(), 0, TICK_MS);
    assert_eq!(s.on_input(Input::Key('q'), 10_000), Action::Quit);
    assert!(!s.is_running());
    let mut s = Session::new(fixed_palette(), 0, TICK_MS);
    assert_eq!(s.on_input(Input::Key('Q'), 10), Action::Wait);
    assert!(s.is_running());
}

#[test]
fn palette_never_changes_during_a_run() {
    let palette = Palette::random();
    let mut s = Session::new(palette, 0, TICK_MS);
    for i in 1..50u64 {
        let now = i * 100;
        if s.on_input(Input::Nothing, now) == Action::Sample {
            s.record_sample(i % 100, i * MB, 64 * MB, now);
        }
        assert_eq!(s.palette(), palette);
    }
}

#[test]
fn panels_split_the_area_in_halves() {
    let palette = fixed_palette();
    let (cpu, mem) = frame_panels(Area { x: 0, y: 0, width: 100, height: 40 }, palette);
    assert_eq!(cpu.series, Series::Cpu);
    assert_eq!(mem.series, Series::Memory);
    assert_eq!(cpu.area, Area { x: 0, y: 0, width: 50, height: 40 });
    assert_eq!(mem.area, Area { x: 50, y: 0, width: 50, height: 40 });
    assert_eq!(cpu.color, palette.cpu);
    assert_eq!(mem.color, palette.memory);
}

#[test]
fn panels_cover_an_odd_width() {
    let (cpu, mem) = frame_panels(Area { x: 3, y: 2, width: 81, height: 10 }, fixed_palette());
    assert_eq!(cpu.area.x, 3);
    assert_eq!(mem.area.x, cpu.area.x + cpu.area.width);
    assert_eq!(cpu.area.width + mem.area.width, 81);
    assert_eq!(mem.area.y, 2);
    assert_eq!(mem.area.height, 10);
}

#[test]
fn panel_titles() {
    assert_eq!(Series::Cpu.title(), "Cpu usage");
    assert_eq!(Series::Memory.title(), "Memory usage");
}

#[test]
fn sampled_memory_front_value() {
    let mut app = App::new();
    app.next_memory(6 * MB, 6 * MB);
    assert_eq!(app.memory().snapshot()[0], 100);
    app.next_memory(0, 6 * MB);
    assert_eq!(app.memory().snapshot()[0], 0);
    assert_eq!(app.memory().snapshot()[1], 100);
    assert_eq!(app.memory().len(), HISTORY_LEN);
}

#[test]
fn panels_reach_the_last_column() {
    let area = Area { x: 65000, y: 65000, width: 535, height: 535 };
    let (cpu, mem) = frame_panels(area, fixed_palette());
    assert_eq!(cpu.area.x, 65000);
    assert_eq!(mem.area.x, cpu.area.x + cpu.area.width);
    assert_eq!(u32::from(mem.area.x) + u32::from(mem.area.width), 65535);
    assert_eq!(cpu.area.y, 65000);
    assert_eq!(mem.area.height, 535);
}
