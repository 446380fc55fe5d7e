//! The application state and its transitions: key handling, the start and
//! stop of streaming, and the per-tick refresh of the synthetic data.

use vstd::prelude::*;
use crate::params::{Parameters, Tab};
use crate::random::draws;
use crate::signal::{
    make_start_sample, make_tick_sample, spectrum_bin, spectrum_frame, start_batch, tick_batch,
    IqSample, FULL_SCALE, SPECTRUM_BINS, START_BATCH_LEN, START_DRAWS, TICK_BATCH_LEN, TICK_DRAWS,
};

verus! {

/// Shortest time one turn of the event loop takes, in milliseconds.
pub const MIN_ITERATION_MS: u64 = 50;
/// Longest wait for a key in one turn of the event loop, in milliseconds.
pub const POLL_TIMEOUT_MS: u64 = 100;

/// A key press, as far as the application tells keys apart.
#[derive(Clone, Copy, Debug, PartialEq, Eq, Structural)]
pub enum Key {
    Char(char),
    Esc,
    Tab,
    Left,
    Right,
    Up,
    Down,
    Other,
}

/// Status text at start-up.
pub open spec fn initial_message() -> Seq<char> {
    "DEMO MODE - No USRP hardware detected"@
}

/// Status text after the connect key.
pub open spec fn connected_message() -> Seq<char> {
    "MOCK USRP connected (demo mode)"@
}

/// Status text once streaming starts.
pub open spec fn started_message() -> Seq<char> {
    "Mock streaming started (demo mode)"@
}

/// Status text once streaming stops.
pub open spec fn stopped_message() -> Seq<char> {
    "Streaming stopped"@
}

/// The state of an `App` as values.
pub struct AppView {
    pub should_quit: bool,
    pub current_tab: Tab,
    pub params: Parameters,
    pub is_streaming: bool,
    pub status_message: Seq<char>,
    pub spectrum_data: Seq<u32>,
    pub sample_buffer: Seq<IqSample>,
}

impl AppView {
    /// The key starts streaming from this state.
    pub open spec fn starts_streaming(self, key: Key) -> bool {
        key == Key::Char('s') && !self.is_streaming
    }

    pub open spec fn started(self, batch: Seq<IqSample>) -> AppView {
        AppView {
            is_streaming: true,
            status_message: started_message(),
            sample_buffer: batch,
            ..self
        }
    }

    /// Streaming off; the last spectrum and samples stay.
    pub open spec fn stopped(self) -> AppView {
        AppView { is_streaming: false, status_message: stopped_message(), ..self }
    }

    /// The state after `key`. Where the key starts streaming, `batch` is the
    /// batch of samples made at that moment; otherwise it is not used.
    pub open spec fn after_key(self, key: Key, batch: Seq<IqSample>) -> AppView {
        if key == Key::Char('q') || key == Key::Esc {
            AppView { should_quit: true, ..self }
        } else if key == Key::Tab || key == Key::Right {
            AppView { current_tab: self.current_tab.spec_next(), ..self }
        } else if key == Key::Left {
            AppView { current_tab: self.current_tab.spec_prev(), ..self }
        } else if key == Key::Char('c') {
            AppView { status_message: connected_message(), ..self }
        } else if key == Key::Char('s') {
            if self.is_streaming {
                self.stopped()
            } else {
                self.started(batch)
            }
        } else if key == Key::Up {
            AppView { params: self.params.adjusted(self.current_tab, true), ..self }
        } else if key == Key::Down {
            AppView { params: self.params.adjusted(self.current_tab, false), ..self }
        } else {
            self
        }
    }

    /// The state after one tick with draws `d`: fresh data while streaming,
    /// nothing changed otherwise.
    pub open spec fn ticked(self, d: Seq<u32>) -> AppView {
        if self.is_streaming {
            AppView {
                spectrum_data: spectrum_frame(
                    self.params.frequency_hz as int,
                    d.subrange(0, SPECTRUM_BINS as int),
                ),
                sample_buffer: tick_batch(d.subrange(SPECTRUM_BINS as int, TICK_DRAWS as int)),
                ..self
            }
        } else {
            self
        }
    }

    /// One turn of the event loop: the key, if one came, then a tick. `sd`
    /// are the draws of a start batch, used only where the key starts
    /// streaming; `td` are the draws of the tick.
    pub open spec fn turn(self, key: Option<Key>, sd: Seq<u32>, td: Seq<u32>) -> AppView {
        match key {
            Some(k) => self.after_key(k, start_batch(sd)).ticked(td),
            None => self.ticked(td),
        }
    }

    /// The state after a turn for each entry of `keys`, the `i`-th taking
    /// the draws `sd[i]` and `td[i]`.
    pub open spec fn run(
        self,
        keys: Seq<Option<Key>>,
        sd: Seq<Seq<u32>>,
        td: Seq<Seq<u32>>,
    ) -> AppView
        decreases keys.len(),
    {
        if keys.len() == 0 {
            self
        } else {
            self.turn(keys[0], sd[0], td[0]).run(keys.drop_first(), sd.drop_first(), td.drop_first())
        }
    }
}

/// How long the event loop sleeps after a turn that took `elapsed_ms`, so
/// that a turn lasts at least `MIN_ITERATION_MS`.
pub fn pause_after(elapsed_ms: u64) -> (r: u64)
    ensures
        r == (if elapsed_ms < MIN_ITERATION_MS { MIN_ITERATION_MS - elapsed_ms } else { 0 }),
{
    if elapsed_ms < MIN_ITERATION_MS {
        MIN_ITERATION_MS - elapsed_ms
    } else {
        0
    }
}

/// Sum of the squared magnitudes of the samples.
pub open spec fn power_sum(s: Seq<IqSample>) -> int
    decreases s.len(),
{
    if s.len() == 0 {
        0
    } else {
        power_sum(s.drop_last()) + s.last().magnitude * s.last().magnitude
    }
}

/// Bins between two rows of the spectrum display.
pub const BAR_STRIDE: usize = 16;
/// Cells of a bar at full scale.
pub const BAR_WIDTH: usize = 20;

/// The application state, owned by the event loop.
pub struct App {
    pub should_quit: bool,
    pub current_tab: Tab,
    pub params: Parameters,
    pub is_streaming: bool,
    pub status_message: String,
    pub spectrum_data: Vec<u32>,
    pub sample_buffer: Vec<IqSample>,
}

impl View for App {
    type V = AppView;

    open spec fn view(&self) -> AppView {
        AppView {
            should_quit: self.should_quit,
            current_tab: self.current_tab,
            params: self.params,
            is_streaming: self.is_streaming,
            status_message: self.status_message@,
            spectrum_data: self.spectrum_data@,
            sample_buffer: self.sample_buffer@,
        }
    }
}

/// Every sample magnitude is at most full scale, and there are at most as
/// many samples as a start batch holds.
pub open spec fn samples_bounded(s: Seq<IqSample>) -> bool {
    &&& s.len() <= START_BATCH_LEN
    &&& forall|i: int| 0 <= i < s.len() ==> #[trigger] s[i].magnitude <= FULL_SCALE
}

impl App {
    /// Parameters within range, a full spectrum frame, a bounded sample
    /// batch.
    pub open spec fn wf(&self) -> bool {
        &&& self.params.wf()
        &&& self.spectrum_data@.len() == SPECTRUM_BINS
        &&& samples_bounded(self.sample_buffer@)
    }

    /// The start-up state: frequency tab, default tuning, not streaming, a
    /// silent spectrum and no samples.
    pub fn new() -> (r: App)
        ensures
            r.wf(),
            !r.should_quit,
            r.current_tab == Tab::Frequency,
            r.params == (Parameters { frequency_hz: 890_000_000, gain_db: 20, sample_rate_hz: 1_000_000 }),
            !r.is_streaming,
            r.status_message@ == initial_message(),
            r.spectrum_data@ == Seq::new(SPECTRUM_BINS as nat, |i: int| 0u32),
            r.sample_buffer@.len() == 0,
    {
        let mut spectrum_data: Vec<u32> = Vec::with_capacity(SPECTRUM_BINS);
        let mut i: usize = 0;
        while i < SPECTRUM_BINS
            invariant
                i <= SPECTRUM_BINS,
                spectrum_data@ == Seq::new(i as nat, |k: int| 0u32),
            decreases SPECTRUM_BINS - i,
        {
            spectrum_data.push(0);
            i = i + 1;
            assert(spectrum_data@ =~= Seq::new(i as nat, |k: int| 0u32));
        }
        App {
            should_quit: false,
            current_tab: Tab::Frequency,
            params: Parameters::new(),
            is_streaming: false,
            status_message: "DEMO MODE - No USRP hardware detected".to_string(),
            spectrum_data,
            sample_buffer: Vec::new(),
        }
    }
    /// Turns streaming on with the start batch that the draws `d` give,
    /// two per sample.
    pub fn start_streaming_with(&mut self, d: &Vec<u32>)
        requires
            old(self).wf(),
            d@.len() == START_DRAWS,
        ensures
            final(self).wf(),
            final(self)@ == old(self)@.started(start_batch(d@)),
    {
        let mut batch: Vec<IqSample> = Vec::with_capacity(START_BATCH_LEN);
        let mut i: usize = 0;
        while i < START_BATCH_LEN
            invariant
                i <= START_BATCH_LEN,
                d@.len() == START_DRAWS,
                batch@ == start_batch(d@).subrange(0, i as int),
            decreases START_BATCH_LEN - i,
        {
            batch.push(make_start_sample(d[2 * i], d[2 * i + 1]));
            i = i + 1;
            assert(batch@ =~= start_batch(d@).subrange(0, i as int));
        }
        assert(batch@ =~= start_batch(d@));
        self.is_streaming = true;
        self.status_message = "Mock streaming started (demo mode)".to_string();
        self.sample_buffer = batch;
        proof {
            crate::laws::start_batch_in_range(d@);
        }
    }

    /// Turns streaming on with a start batch from fresh draws.
    pub fn start_streaming(&mut self)
        requires
            old(self).wf(),
        ensures
            final(self).wf(),
            exists|d: Seq<u32>|
                d.len() == START_DRAWS && final(self)@ == old(self)@.started(#[trigger] start_batch(d)),
            final(self).sample_buffer@.len() == START_BATCH_LEN,
            forall|i: int|
                0 <= i < START_BATCH_LEN ==> 500_000 <= #[trigger] final(self).sample_buffer@[i].magnitude
                    <= FULL_SCALE,
    {
        let d = draws(START_DRAWS);
        self.start_streaming_with(&d);
        proof {
            crate::laws::start_batch_in_range(d@);
        }
    }

    /// Turns streaming off; the spectrum and the samples stay as they are.
    pub fn stop_streaming(&mut self)
        ensures
            final(self)@ == old(self)@.stopped(),
    {
        self.is_streaming = false;
        self.status_message = "Streaming stopped".to_string();
    }

    /// One tick with the draws `d`: while streaming, a new spectrum frame
    /// from the first 512 draws and a new sample batch from the remaining 60,
    /// three per sample; otherwise nothing changes.
    pub fn simulate_streaming_data_with(&mut self, d: &Vec<u32>)
        requires
            old(self).wf(),
            d@.len() == TICK_DRAWS,
        ensures
            final(self).wf(),
            final(self)@ == old(self)@.ticked(d@),
    {
        if !self.is_streaming {
            return;
        }
        let frequency_hz = self.params.frequency_hz;
        let ghost bins = d@.subrange(0, SPECTRUM_BINS as int);
        let mut spectrum: Vec<u32> = Vec::with_capacity(SPECTRUM_BINS);
        let mut i: usize = 0;
        while i < SPECTRUM_BINS
            invariant
                i <= SPECTRUM_BINS,
                d@.len() == TICK_DRAWS,
                bins == d@.subrange(0, SPECTRUM_BINS as int),
                spectrum@ == spectrum_frame(frequency_hz as int, bins).subrange(0, i as int),
            decreases SPECTRUM_BINS - i,
        {
            spectrum.push(spectrum_bin(i, frequency_hz, d[i]));
            i = i + 1;
            assert(spectrum@ =~= spectrum_frame(frequency_hz as int, bins).subrange(0, i as int));
        }
        assert(spectrum@ =~= spectrum_frame(frequency_hz as int, bins));
        let ghost rest = d@.subrange(SPECTRUM_BINS as int, TICK_DRAWS as int);
        let mut batch: Vec<IqSample> = Vec::with_capacity(TICK_BATCH_LEN);
        let mut k: usize = 0;
        while k < TICK_BATCH_LEN
            invariant
                k <= TICK_BATCH_LEN,
                d@.len() == TICK_DRAWS,
                rest == d@.subrange(SPECTRUM_BINS as int, TICK_DRAWS as int),
                batch@ == tick_batch(rest).subrange(0, k as int),
            decreases TICK_BATCH_LEN - k,
        {
            let at = SPECTRUM_BINS + 3 * k;
            batch.push(make_tick_sample(d[at], d[at + 1], d[at + 2]));
            k = k + 1;
            assert(batch@ =~= tick_batch(rest).subrange(0, k as int));
        }
        assert(batch@ =~= tick_batch(rest));
        self.spectrum_data = spectrum;
        self.sample_buffer = batch;
        proof {
            crate::laws::tick_output_in_range(frequency_hz as int, d@);
        }
    }

    /// One tick with fresh draws: while streaming, a new spectrum frame and
    /// sample batch; otherwise nothing changes.
    pub fn simulate_streaming_data(&mut self)
        requires
            old(self).wf(),
        ensures
            final(self).wf(),
            exists|d: Seq<u32>| d.len() == TICK_DRAWS && final(self)@ == #[trigger] old(self)@.ticked(d),
            old(self).is_streaming ==> {
                &&& forall|i: int|
                    0 <= i < SPECTRUM_BINS ==> #[trigger] final(self).spectrum_data@[i] <= FULL_SCALE
                &&& final(self).sample_buffer@.len() == TICK_BATCH_LEN
                &&& forall|i: int|
                    0 <= i < TICK_BATCH_LEN ==> 800_000 <= #[trigger] final(self).sample_buffer@[i].magnitude
                        < FULL_SCALE
            },
    {
        if !self.is_streaming {
            proof {
                let w = Seq::new(TICK_DRAWS as nat, |i: int| 0u32);
                assert(self@ == self@.ticked(w));
            }
            return;
        }
        let d = draws(TICK_DRAWS);
        self.simulate_streaming_data_with(&d);
        proof {
            crate::laws::tick_output_in_range(self.params.frequency_hz as int, d@);
        }
    }

    /// Handles one key press; see `AppView::after_key`. Where the key starts
    /// streaming, the new batch comes from fresh draws.
    pub fn on_key(&mut self, key: Key)
        requires
            old(self).wf(),
        ensures
            final(self).wf(),
            final(self)@ == old(self)@.after_key(key, final(self)@.sample_buffer),
            old(self)@.starts_streaming(key) ==> exists|d: Seq<u32>|
                d.len() == START_DRAWS && final(self)@.sample_buffer == #[trigger] start_batch(d),
    {
        match key {
            Key::Char('q') | Key::Esc => {
                self.should_quit = true;
            },
            Key::Tab | Key::Right => {
                self.current_tab = self.current_tab.next();
            },
            Key::Left => {
                self.current_tab = self.current_tab.prev();
            },
            Key::Char('c') => {
                self.status_message = "MOCK USRP connected (demo mode)".to_string();
            },
            Key::Char('s') => {
                if self.is_streaming {
                    self.stop_streaming();
                } else {
                    self.start_streaming();
                }
            },
            Key::Up => {
                let tab = self.current_tab;
                self.params.adjust(tab, true);
            },
            Key::Down => {
                let tab = self.current_tab;
                self.params.adjust(tab, false);
            },
            _ => {},
        }
    }

    /// One turn of the event loop once the wait for a key is over: the key,
    /// if one came, then a tick. Returns whether the loop goes on.
    pub fn update(&mut self, key: Option<Key>) -> (keep_running: bool)
        requires
            old(self).wf(),
        ensures
            final(self).wf(),
            keep_running == !final(self).should_quit,
            exists|sd: Seq<u32>, td: Seq<u32>|
                sd.len() == START_DRAWS && td.len() == TICK_DRAWS && final(self)@
                    == #[trigger] old(self)@.turn(key, sd, td),
    {
        let ghost before = self@;
        match key {
            Some(k) => self.on_key(k),
            None => {},
        }
        let ghost middle = self@;
        let ghost sd: Seq<u32> = if key is Some && before.starts_streaming(key->0) {
            choose|d: Seq<u32>| d.len() == START_DRAWS && middle.sample_buffer == #[trigger] start_batch(d)
        } else {
            Seq::new(START_DRAWS as nat, |i: int| 0u32)
        };
        assert(key is Some ==> middle == before.after_key(key->0, start_batch(sd)));
        self.simulate_streaming_data();
        let ghost td: Seq<u32> = choose|d: Seq<u32>| d.len() == TICK_DRAWS && self@ == #[trigger] middle.ticked(d);
        assert(self@ == before.turn(key, sd, td));
        !self.should_quit
    }

    /// Bar lengths of the spectrum display: one for every 16th bin, from 0
    /// cells at zero power to 20 at full scale.
    pub fn spectrum_bars(&self) -> (r: Vec<usize>)
        requires
            self.wf(),
        ensures
            r@.len() == SPECTRUM_BINS / BAR_STRIDE,
            forall|k: int|
                0 <= k < r@.len() ==> #[trigger] r@[k] as int == self.spectrum_data@[BAR_STRIDE * k]
                    as int * BAR_WIDTH as int / FULL_SCALE as int,
    {
        let mut r: Vec<usize> = Vec::with_capacity(SPECTRUM_BINS / BAR_STRIDE);
        let mut k: usize = 0;
        while k < SPECTRUM_BINS / BAR_STRIDE
            invariant
                k <= SPECTRUM_BINS / BAR_STRIDE,
                self.wf(),
                r@.len() == k,
                forall|j: int|
                    0 <= j < k ==> #[trigger] r@[j] as int == self.spectrum_data@[BAR_STRIDE * j]
                        as int * BAR_WIDTH as int / FULL_SCALE as int,
            decreases SPECTRUM_BINS / BAR_STRIDE - k,
        {
            let power: u64 = self.spectrum_data[BAR_STRIDE * k] as u64;
            r.push((power * BAR_WIDTH as u64 / FULL_SCALE as u64) as usize);
            k = k + 1;
        }
        r
    }

    /// Mean of the squared sample magnitudes, in units of 10^-12 of full
    /// scale; `None` when there are no samples.
    pub fn average_power(&self) -> (r: Option<u64>)
        requires
            self.wf(),
        ensures
            self.sample_buffer@.len() == 0 ==> r is None,
            self.sample_buffer@.len() > 0 ==> r == Some(
                (power_sum(self.sample_buffer@) / self.sample_buffer@.len() as int) as u64,
            ),
    {
        let n = self.sample_buffer.len();
        if n == 0 {
            return None;
        }
        let mut total: u64 = 0;
        let mut i: usize = 0;
        while i < n
            invariant
                i <= n,
                n == self.sample_buffer@.len(),
                self.wf(),
                total as int == power_sum(self.sample_buffer@.subrange(0, i as int)),
                total <= i * 1_000_000_000_000,
            decreases n - i,
        {
            let m: u64 = self.sample_buffer[i].magnitude as u64;
            assert(m * m <= 1_000_000_000_000) by (nonlinear_arith)
                requires m <= 1_000_000;
            assert(self.sample_buffer@.subrange(0, i + 1).drop_last() =~= self.sample_buffer@.subrange(0, i as int));
            total = total + m * m;
            i = i + 1;
        }
        assert(self.sample_buffer@.subrange(0, n as int) =~= self.sample_buffer@);
        proof {
            assert(total as int / n as int <= total as int) by (nonlinear_arith)
                requires n >= 1, total >= 0;
        }
        Some(total / n as u64)
    }
}

} // verus!
