//! The chess clock.
//!
//! Each player has a time left, counted in milliseconds. While the clock
//! runs, the time of the player to move runs down. The clock does not read
//! the time itself: whoever stops or switches it says how long it has run
//! since it was last started or switched.

use vstd::prelude::*;
use crate::pieces::Color;

verus! {

/// The times with which a game starts, in milliseconds.
#[derive(Clone, Copy, Debug, PartialEq, Eq, Structural)]
pub struct TimeControls {
    pub initial_time_white: u64,
    pub initial_time_black: u64,
    pub time_per_move_white: u64,
    pub time_per_move_black: u64,
}

/// A chess clock.
#[derive(Clone, Copy, Debug, PartialEq, Eq, Structural)]
pub struct ChessClock {
    pub running: bool,
    pub active_player: Color,
    pub white_total_time: u64,
    pub white_time_left: u64,
    pub black_total_time: u64,
    pub black_time_left: u64,
}

/// What is left of `time` after `elapsed`: nothing where more has elapsed.
pub open spec fn run_down(time: u64, elapsed: u64) -> u64 {
    if elapsed >= time {
        0
    } else {
        (time - elapsed) as u64
    }
}

/// The sum of two times, or the longest time that can be counted where
/// the sum is longer.
pub open spec fn capped_sum(a: u64, b: u64) -> u64 {
    if a + b > u64::MAX {
        u64::MAX
    } else {
        (a + b) as u64
    }
}

fn less(time: u64, elapsed: u64) -> (r: u64)
    ensures
        r == run_down(time, elapsed),
{
    if elapsed >= time {
        0
    } else {
        time - elapsed
    }
}

fn sum(a: u64, b: u64) -> (r: u64)
    ensures
        r == capped_sum(a, b),
{
    if a > u64::MAX - b {
        u64::MAX
    } else {
        a + b
    }
}

impl ChessClock {
    /// The time that the colour has left, as the clock keeps it.
    pub open spec fn time_left(self, color: Color) -> u64 {
        match color {
            Color::White => self.white_time_left,
            Color::Black => self.black_time_left,
        }
    }

    /// The clock after its active player's time has run down by `elapsed`,
    /// if it is running.
    pub open spec fn charged(self, elapsed: u64) -> ChessClock {
        if !self.running {
            self
        } else {
            match self.active_player {
                Color::White => ChessClock {
                    white_time_left: run_down(self.white_time_left, elapsed),
                    ..self
                },
                Color::Black => ChessClock {
                    black_time_left: run_down(self.black_time_left, elapsed),
                    ..self
                },
            }
        }
    }

    /// A stopped clock without time, White to move.
    pub fn new() -> (clock: ChessClock)
        ensures
            clock == (ChessClock {
                running: false,
                active_player: Color::White,
                white_total_time: 0,
                white_time_left: 0,
                black_total_time: 0,
                black_time_left: 0,
            }),
    {
        ChessClock {
            running: false,
            active_player: Color::White,
            white_total_time: 0,
            white_time_left: 0,
            black_total_time: 0,
            black_time_left: 0,
        }
    }

    fn charge(&mut self, elapsed: u64)
        ensures
            *final(self) == old(self).charged(elapsed),
    {
        if self.running {
            match self.active_player {
                Color::White => {
                    self.white_time_left = less(self.white_time_left, elapsed);
                },
                Color::Black => {
                    self.black_time_left = less(self.black_time_left, elapsed);
                },
            }
        }
    }
}

/// What a chess clock does.
pub trait Timer: Sized {
    /// A stopped clock with the initial times of the time controls.
    fn new_from_time_controls(time_controls: TimeControls) -> Option<Self>;

    /// Starts the clock for the active player.
    fn start(&mut self);

    /// Stops the clock, which has run for `elapsed` milliseconds.
    fn stop(&mut self, elapsed: u64);

    /// Passes the turn to the other player. A running clock has run for
    /// `elapsed` milliseconds, and runs on for the other player.
    fn switch_clock(&mut self, elapsed: u64);

    /// Stops the clock and gives both players their initial times again.
    fn reset(&mut self);

    /// Whether the clock is running.
    fn is_running(&self) -> bool;

    /// The player whose time runs when the clock runs.
    fn active_player(&self) -> Color;

    /// The initial times of both players together.
    fn get_total_time(&self) -> u64;

    /// The times that both players have left together.
    fn get_time_left(&self) -> u64;

    /// The time that the active player has left, `elapsed` milliseconds
    /// after the clock was started or switched.
    fn get_active_time_left(&self, elapsed: u64) -> u64;

    /// The time that the player has left, `elapsed` milliseconds after the
    /// clock was started or switched.
    fn get_player_time_left(&self, color: Color, elapsed: u64) -> u64;

    /// Sets the initial time of both players.
    fn set_total_time(&mut self, time: u64);

    /// Sets the time that the player has left.
    fn set_player_time_left(&mut self, color: Color, time: u64);
}

impl Timer for ChessClock {
    fn new_from_time_controls(time_controls: TimeControls) -> (clock: Option<ChessClock>)
        ensures
            clock == Some(
                ChessClock {
                    running: false,
                    active_player: Color::White,
                    white_total_time: time_controls.initial_time_white,
                    white_time_left: time_controls.initial_time_white,
                    black_total_time: time_controls.initial_time_black,
                    black_time_left: time_controls.initial_time_black,
                },
            ),
    {
        Some(
            ChessClock {
                running: false,
                active_player: Color::White,
                white_total_time: time_controls.initial_time_white,
                white_time_left: time_controls.initial_time_white,
                black_total_time: time_controls.initial_time_black,
                black_time_left: time_controls.initial_time_black,
            },
        )
    }

    fn start(&mut self)
        ensures
            *final(self) == (ChessClock { running: true, ..*old(self) }),
    {
        self.running = true;
    }

    fn stop(&mut self, elapsed: u64)
        ensures
            *final(self) == (ChessClock { running: false, ..old(self).charged(elapsed) }),
    {
        self.charge(elapsed);
        self.running = false;
    }

    fn switch_clock(&mut self, elapsed: u64)
        ensures
            *final(self) == (ChessClock {
                active_player: old(self).active_player.toggle_color(),
                ..old(self).charged(elapsed)
            }),
    {
        self.charge(elapsed);
        self.active_player = self.active_player.toggle_color();
    }

    fn reset(&mut self)
        ensures
            *final(self) == (ChessClock {
                running: false,
                active_player: Color::White,
                white_time_left: old(self).white_total_time,
                black_time_left: old(self).black_total_time,
                ..*old(self)
            }),
    {
        self.running = false;
        self.white_time_left = self.white_total_time;
        self.black_time_left = self.black_total_time;
        self.active_player = Color::White;
    }

    fn is_running(&self) -> (r: bool)
        ensures
            r == self.running,
    {
        self.running
    }

    fn active_player(&self) -> (r: Color)
        ensures
            r == self.active_player,
    {
        self.active_player
    }

    fn get_total_time(&self) -> (r: u64)
        ensures
            r == capped_sum(self.white_total_time, self.black_total_time),
    {
        sum(self.white_total_time, self.black_total_time)
    }

    fn get_time_left(&self) -> (r: u64)
        ensures
            r == capped_sum(self.white_time_left, self.black_time_left),
    {
        sum(self.white_time_left, self.black_time_left)
    }

    fn get_active_time_left(&self, elapsed: u64) -> (r: u64)
        ensures
            r == self.charged(elapsed).time_left(self.active_player),
    {
        self.get_player_time_left(self.active_player, elapsed)
    }

    fn get_player_time_left(&self, color: Color, elapsed: u64) -> (r: u64)
        ensures
            r == self.charged(elapsed).time_left(color),
    {
        let time_left = match color {
            Color::White => self.white_time_left,
            Color::Black => self.black_time_left,
        };
        if self.running && self.active_player == color {
            less(time_left, elapsed)
        } else {
            time_left
        }
    }

    fn set_total_time(&mut self, time: u64)
        ensures
            *final(self) == (ChessClock {
                white_total_time: time,
                black_total_time: time,
                ..*old(self)
            }),
    {
        self.white_total_time = time;
        self.black_total_time = time;
    }

    fn set_player_time_left(&mut self, color: Color, time: u64)
        ensures
            *final(self) == (match color {
                Color::White => ChessClock { white_time_left: time, ..*old(self) },
                Color::Black => ChessClock { black_time_left: time, ..*old(self) },
            }),
    {
        match color {
            Color::White => {
                self.white_time_left = time;
            },
            Color::Black => {
                self.black_time_left = time;
            },
        }
    }
}

} // verus!
