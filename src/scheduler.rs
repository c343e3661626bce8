use vstd::prelude::*;
use crate::history::{pushed, uniform};
use crate::metrics::memory_share;
use crate::palette::Palette;
use crate::state::{App, HISTORY_LEN, SEED_VALUE};

verus! {

/// How often a sample is taken, in milliseconds.
pub const TICK_MS: u64 = 250;

/// The key that ends a session.
pub const QUIT_KEY: char = 'q';

/// What a poll for user input brought.
#[derive(Clone, Copy, Debug, PartialEq, Eq, Structural)]
pub enum Input {
    /// A key press with a character.
    Key(char),
    /// Any other event.
    Other,
    /// No event before the timeout.
    Nothing,
}

/// What the loop does after a poll.
#[derive(Clone, Copy, Debug, PartialEq, Eq, Structural)]
pub enum Action {
    /// Stop: the session is over.
    Quit,
    /// Refresh the metrics, record a sample, then draw again.
    Sample,
    /// Draw again and poll.
    Wait,
}

pub open spec fn is_quit(input: Input) -> bool {
    input == Input::Key(QUIT_KEY)
}

/// Milliseconds from `since` to `now`; a clock that seems to run backwards
/// counts as no time at all.
pub open spec fn elapsed(since: u64, now: u64) -> nat {
    if now >= since {
        (now - since) as nat
    } else {
        0
    }
}

/// How long a poll may wait: what is left of the tick interval, or nothing
/// once it has passed.
pub open spec fn timeout(since: u64, tick: u64, now: u64) -> nat {
    if elapsed(since, now) >= tick {
        0
    } else {
        (tick - elapsed(since, now)) as nat
    }
}

/// The step after a poll: a quit key ends the run; otherwise a sample is taken
/// once a whole tick interval has passed since the last one.
pub open spec fn decide(since: u64, tick: u64, input: Input, now: u64) -> Action {
    if is_quit(input) {
        Action::Quit
    } else if elapsed(since, now) >= tick {
        Action::Sample
    } else {
        Action::Wait
    }
}

/// The running state of a monitoring session: the two series, the time of the
/// last sample, the panel colours, and whether it still runs.
pub struct Session {
    app: App,
    palette: Palette,
    last_tick_ms: u64,
    tick_ms: u64,
    running: bool,
}

impl Session {
    /// The CPU series, most recent first.
    pub closed spec fn cpu_history(&self) -> Seq<u64> {
        self.app.cpu_series()
    }

    /// The memory series, most recent first.
    pub closed spec fn memory_history(&self) -> Seq<u64> {
        self.app.memory_series()
    }

    /// The panel colours.
    pub closed spec fn colors(&self) -> Palette {
        self.palette
    }

    /// When the last sample was taken, or the session started.
    pub closed spec fn last_tick(&self) -> u64 {
        self.last_tick_ms
    }

    /// The tick interval, in milliseconds.
    pub closed spec fn tick(&self) -> u64 {
        self.tick_ms
    }

    /// Whether no quit key has come yet.
    pub closed spec fn runs(&self) -> bool {
        self.running
    }

    /// A running session that starts at `now_ms` with freshly seeded series.
    pub fn new(palette: Palette, now_ms: u64, tick_ms: u64) -> (r: Session)
        ensures
            r.cpu_history() == uniform(HISTORY_LEN as nat, SEED_VALUE),
            r.memory_history() == uniform(HISTORY_LEN as nat, SEED_VALUE),
            r.colors() == palette,
            r.last_tick() == now_ms,
            r.tick() == tick_ms,
            r.runs(),
    {
        Session { app: App::new(), palette, last_tick_ms: now_ms, tick_ms, running: true }
    }

    /// Milliseconds since the last sample.
    pub fn elapsed_ms(&self, now_ms: u64) -> (r: u64)
        ensures
            r == elapsed(self.last_tick(), now_ms),
    {
        if now_ms >= self.last_tick_ms {
            now_ms - self.last_tick_ms
        } else {
            0
        }
    }

    /// How long the next poll for input may wait, in milliseconds.
    pub fn poll_timeout(&self, now_ms: u64) -> (r: u64)
        ensures
            r == timeout(self.last_tick(), self.tick(), now_ms),
            r <= self.tick(),
    {
        let passed = self.elapsed_ms(now_ms);
        if passed >= self.tick_ms {
            0
        } else {
            self.tick_ms - passed
        }
    }

    /// Decides what follows a poll that brought `input` at `now_ms`. A quit
    /// key ends the session; nothing else changes here.
    pub fn on_input(&mut self, input: Input, now_ms: u64) -> (r: Action)
        ensures
            r == decide(old(self).last_tick(), old(self).tick(), input, now_ms),
            final(self).runs() == (old(self).runs() && !is_quit(input)),
            final(self).cpu_history() == old(self).cpu_history(),
            final(self).memory_history() == old(self).memory_history(),
            final(self).colors() == old(self).colors(),
            final(self).last_tick() == old(self).last_tick(),
            final(self).tick() == old(self).tick(),
    {
        let quit = match input {
            Input::Key(c) => c == QUIT_KEY,
            _ => false,
        };
        if quit {
            self.running = false;
            Action::Quit
        } else if self.elapsed_ms(now_ms) >= self.tick_ms {
            Action::Sample
        } else {
            Action::Wait
        }
    }

    /// Records one sample, CPU use in whole percent and memory in bytes used
    /// and in all, and restarts the tick interval at `now_ms`.
    pub fn record_sample(&mut self, cpu_usage: u64, used_bytes: u64, total_bytes: u64, now_ms: u64)
        ensures
            final(self).cpu_history() == pushed(old(self).cpu_history(), cpu_usage),
            final(self).memory_history() == pushed(
                old(self).memory_history(),
                memory_share(used_bytes as nat, total_bytes as nat) as u64,
            ),
            final(self).last_tick() == now_ms,
            final(self).colors() == old(self).colors(),
            final(self).tick() == old(self).tick(),
            final(self).runs() == old(self).runs(),
    {
        self.app.next_cpu(cpu_usage);
        self.app.next_memory(used_bytes, total_bytes);
        self.last_tick_ms = now_ms;
    }

    /// The series on display.
    pub fn app(&self) -> (r: &App)
        ensures
            r.cpu_series() == self.cpu_history(),
            r.memory_series() == self.memory_history(),
    {
        &self.app
    }

    /// The panel colours, fixed for the whole session.
    pub fn palette(&self) -> (r: Palette)
        ensures
            r == self.colors(),
    {
        self.palette
    }

    /// Whether the session still runs.
    pub fn is_running(&self) -> (r: bool)
        ensures
            r == self.runs(),
    {
        self.running
    }
}

/// A sample is taken at most once per tick interval: once one has been taken
/// at `since`, no poll before a whole interval has passed leads to another.
/// And at least once: a poll that is not a quit, made once the interval has
/// passed, leads to a sample.
pub proof fn lemma_one_sample_per_interval(since: u64, tick: u64, input: Input, now: u64)
    requires
        since <= now,
    ensures
        now < since + tick ==> decide(since, tick, input, now) != Action::Sample,
        !is_quit(input) && now >= since + tick ==> decide(since, tick, input, now)
            == Action::Sample,
{
}

/// A poll that waits its whole timeout without a quit key ends in a sample:
/// the timeout never outlasts the interval, so sampling keeps its cadence
/// however the draws and polls fall.
pub proof fn lemma_timeout_reaches_tick(since: u64, tick: u64, input: Input, polled: u64, now: u64)
    requires
        since <= polled,
        polled <= now,
        now - polled >= timeout(since, tick, polled),
        !is_quit(input),
    ensures
        decide(since, tick, input, now) == Action::Sample,
{
}

/// A quit key ends the run whenever it comes, however close the next sample
/// is, and no poll waits longer than one tick interval for it.
pub proof fn lemma_quit_ends_run(since: u64, tick: u64, now: u64)
    ensures
        decide(since, tick, Input::Key(QUIT_KEY), now) == Action::Quit,
        timeout(since, tick, now) <= tick,
{
}

} // verus!
