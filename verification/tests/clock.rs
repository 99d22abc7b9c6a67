use rusty_chess::clock::{ChessClock, TimeControls, Timer};
use rusty_chess::log_level::LogLevel;
use rusty_chess::pieces::Color;

fn controls(white: u64, black: u64) -> TimeControls {
    TimeControls {
        initial_time_white: white,
        initial_time_black: black,
        time_per_move_white: 0,
        time_per_move_black: 0,
    }
}

#[test]
fn a_new_clock_stands_still() {
    let clock = ChessClock::new();
    assert!(!clock.is_running());
    assert_eq!(clock.active_player(), Color::White);
    assert_eq!(clock.get_total_time(), 0);
    assert_eq!(clock.get_time_left(), 0);
    let clock = ChessClock::new_from_time_controls(controls(300_000, 180_000)).unwrap();
    assert!(!clock.is_running());
    assert_eq!(clock.active_player(), Color::White);
    assert_eq!(clock.get_total_time(), 480_000);
    assert_eq!(clock.get_time_left(), 480_000);
    assert_eq!(clock.get_player_time_left(Color::White, 1000), 300_000);
    assert_eq!(clock.get_player_time_left(Color::Black, 1000), 180_000);
    assert_eq!(clock.get_active_time_left(1000), 300_000);
}

#[test]
fn time_runs_for_the_player_to_move() {
    let mut clock = ChessClock::new_from_time_controls(controls(300_000, 180_000)).unwrap();
    clock.start();
    assert!(clock.is_running());
    assert_eq!(clock.get_active_time_left(1000), 299_000);
    assert_eq!(clock.get_player_time_left(Color::Black, 1000), 180_000);
    clock.switch_clock(5000);
    assert!(clock.is_running());
    assert_eq!(clock.active_player(), Color::Black);
    assert_eq!(clock.get_player_time_left(Color::White, 7000), 295_000);
    assert_eq!(clock.get_player_time_left(Color::Black, 7000), 173_000);
    clock.stop(10_000);
    assert!(!clock.is_running());
    assert_eq!(clock.get_time_left(), 295_000 + 170_000);
    // a stopped clock does not run down
    clock.stop(10_000);
    clock.switch_clock(10_000);
    assert_eq!(clock.active_player(), Color::White);
    assert_eq!(clock.get_time_left(), 295_000 + 170_000);
    assert_eq!(clock.get_active_time_left(99), 295_000);
    clock.reset();
    assert!(!clock.is_running());
    assert_eq!(clock.active_player(), Color::White);
    assert_eq!(clock.get_time_left(), 480_000);
}

#[test]
fn time_does_not_run_below_nothing_nor_above_all() {
    let mut clock = ChessClock::new_from_time_controls(controls(1000, 2000)).unwrap();
    clock.start();
    assert_eq!(clock.get_active_time_left(1000), 0);
    assert_eq!(clock.get_active_time_left(u64::MAX), 0);
    clock.switch_clock(1500);
    assert_eq!(clock.get_player_time_left(Color::White, 0), 0);
    clock.stop(1999);
    assert_eq!(clock.get_player_time_left(Color::Black, 0), 1);
    clock.set_player_time_left(Color::White, u64::MAX);
    clock.set_player_time_left(Color::Black, 5);
    assert_eq!(clock.get_time_left(), u64::MAX);
    assert_eq!(clock.get_total_time(), 3000);
    clock.set_total_time(u64::MAX - 1);
    assert_eq!(clock.get_total_time(), u64::MAX);
    clock.set_total_time(7);
    assert_eq!(clock.get_total_time(), 14);
    clock.reset();
    assert_eq!(clock.get_time_left(), 14);
}

#[test]
fn levels_are_ordered_and_numbered() {
    let levels = [LogLevel::Debug, LogLevel::Info, LogLevel::Warning, LogLevel::Error];
    let names = ["Debug", "Info", "Warning", "Error"];
    for (i, level) in levels.into_iter().enumerate() {
        assert_eq!(level.as_u8() as usize, i);
        assert_eq!(level.name(), names[i]);
        for n in [i, i + 4, i + 252] {
            assert_eq!(LogLevel::from_u8(n as u8), level);
        }
        for (j, threshold) in levels.into_iter().enumerate() {
            assert_eq!(level.passes(threshold), i >= j);
            assert_eq!(level >= threshold, i >= j);
        }
    }
}

// ---- the logger's settings ----

use rusty_chess::log_settings::{LogChange, LogSettings};

#[test]
fn a_logger_starts_by_writing_everything() {
    let settings = LogSettings::new();
    assert!(!settings.running);
    assert!(settings.print_timestamp);
    assert!(settings.print_thread_identifier);
    assert!(settings.print_level);
    assert!(settings.print_message);
    assert_eq!(settings.level_threshold, LogLevel::Debug);
    for level in [LogLevel::Debug, LogLevel::Info, LogLevel::Warning, LogLevel::Error] {
        assert!(settings.admits(level));
    }
    assert_eq!(
        settings.compose_message("12:00", "Main[7]", LogLevel::Warning, "look out"),
        "Time[12:00] ThreadId[Main[7]] Level[Warning] :look out"
    );
}

#[test]
fn instructions_change_one_setting_each() {
    let mut settings = LogSettings::new();
    settings.running = true;
    settings.apply(LogChange::SetLevel(LogLevel::Warning));
    assert_eq!(settings, LogSettings { level_threshold: LogLevel::Warning, running: true, ..LogSettings::new() });
    assert!(!settings.admits(LogLevel::Debug));
    assert!(!settings.admits(LogLevel::Info));
    assert!(settings.admits(LogLevel::Warning));
    assert!(settings.admits(LogLevel::Error));
    settings.apply(LogChange::SetPrintTimestamp(false));
    assert_eq!(
        settings.compose_message("12:00", "UI[1]", LogLevel::Error, "m"),
        "ThreadId[UI[1]] Level[Error] :m"
    );
    settings.apply(LogChange::SetPrintThreadIdentifier(false));
    assert_eq!(settings.compose_message("12:00", "UI[1]", LogLevel::Error, "m"), "Level[Error] :m");
    settings.apply(LogChange::SetPrintLevel(false));
    assert_eq!(settings.compose_message("12:00", "UI[1]", LogLevel::Error, "m"), ":m");
    settings.apply(LogChange::SetPrintMessage(false));
    assert_eq!(settings.compose_message("12:00", "UI[1]", LogLevel::Error, "m"), "");
    settings.apply(LogChange::SetPrintTimestamp(true));
    settings.apply(LogChange::SetPrintMessage(true));
    assert_eq!(settings.compose_message("", "UI[1]", LogLevel::Info, ""), "Time[] :");
    assert!(settings.running);
    settings.apply(LogChange::Shutdown);
    assert!(!settings.running);
    assert_eq!(settings.level_threshold, LogLevel::Warning);
}
