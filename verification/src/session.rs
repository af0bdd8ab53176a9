//! A session: one track, its lyrics, and the clock that follows its playback.
//!
//! The session is driven from outside, frame by frame. Each frame hands in
//! the wall-clock time since the frame before; the session takes the steps
//! that fall due, asks the playback source whenever the estimate passes the
//! resync point, and ends when the source has nothing to report or plays
//! another track.

use vstd::prelude::*;
use crate::clients::{Client, PlaybackInfo};
use crate::clock::{capped_sum, law_ticks_never_rewind, Accumulator, ClockConfig, EngineState};
use crate::render::{ops_view, plan, render, RenderOp};
use crate::structs::{text_of, Lyrics, LyricsMetadata, Meta};
use crate::window::{
    active_position, cursor, law_active_line_never_moves_back, update, window_at, DisplayWindow,
    LeadIn, WindowView,
};

verus! {

/// Why a session is over.
#[derive(Clone, Copy, Debug, PartialEq, Eq, Structural)]
pub enum Signal {
    /// The source plays a track with another title.
    TrackChanged,
    /// The source has nothing to report.
    PlaybackLost,
}

/// What a frame did.
#[derive(Clone, Copy, Debug, PartialEq, Eq, Structural)]
pub struct FrameReport {
    /// The steps that were taken.
    pub steps: u64,
    /// How many of them led to a resync.
    pub resyncs: u64,
    /// Set when the frame ended the session.
    pub signal: Option<Signal>,
}

/// Everything that belongs to the display of one track.
#[derive(Debug)]
pub struct Session {
    pub lyrics: Lyrics,
    pub config: ClockConfig,
    /// The number of lines that the display has room for.
    pub capacity: usize,
    pub lead_in: LeadIn,
    /// The wall-clock time after which the session is over.
    pub max_duration: u64,
    pub state: EngineState,
    pub accumulator: Accumulator,
    /// The wall-clock time that the frames so far add up to.
    pub elapsed: u64,
    /// Set once the session is over for a reason other than its age.
    pub ended: Option<Signal>,
    /// The window that the terminal shows.
    pub shown: DisplayWindow,
}

/// Whether two optional strings hold the same text, or both none.
pub fn same_text(a: &Option<String>, b: &Option<String>) -> (same: bool)
    ensures
        same == (text_of(*a) == text_of(*b)),
{
    match (a, b) {
        (Some(x), Some(y)) => *x == *y,
        (None, None) => true,
        _ => false,
    }
}

/// What a resync makes of the answers of the playback source: the new state
/// and the signal, if the session ends.
///
/// Without a sample the playback is lost and the state stays. With one, the
/// state follows it; the session then ends if no track can be named or if
/// the title is not that of the loaded lyrics.
pub open spec fn resync_outcome(
    state: EngineState,
    resync_interval: u64,
    loaded: LyricsMetadata,
    sample: Option<PlaybackInfo>,
    current: Option<Meta>,
) -> (EngineState, Option<Signal>) {
    match sample {
        None => (state, Some(Signal::PlaybackLost)),
        Some(s) => (
            state.reconciled(s, resync_interval),
            match current {
                None => Some(Signal::PlaybackLost),
                Some(meta) => if text_of(meta.title) == text_of(loaded.title) {
                    None
                } else {
                    Some(Signal::TrackChanged)
                },
            },
        ),
    }
}

/// How far a frame has come: the state, the steps taken, the resyncs among
/// them, and the signal if the session has ended.
pub struct Progress {
    pub state: EngineState,
    pub steps: nat,
    pub resyncs: nat,
    pub signal: Option<Signal>,
}

/// The course of a frame of `n` steps from `start`, given what the playback
/// source answers at each resync: `answers[i]` holds its sample and its
/// metadata at the resync number `i`.
///
/// Each step moves the estimate forward. A step that takes it past the resync
/// point is followed by a resync, whose outcome the next step starts from.
/// Once a resync has ended the session no further step is taken.
pub open spec fn replay(
    start: EngineState,
    config: ClockConfig,
    loaded: LyricsMetadata,
    answers: Seq<(Option<PlaybackInfo>, Option<Meta>)>,
    n: nat,
) -> Progress
    decreases n,
{
    if n == 0 {
        Progress { state: start, steps: 0, resyncs: 0, signal: None }
    } else {
        let before = replay(start, config, loaded, answers, (n - 1) as nat);
        if before.signal is Some {
            before
        } else {
            let ticked = before.state.ticked(config.step_duration);
            if ticked.resync_due() {
                let answer = answers[before.resyncs as int];
                let outcome = resync_outcome(
                    ticked,
                    config.resync_interval,
                    loaded,
                    answer.0,
                    answer.1,
                );
                Progress {
                    state: outcome.0,
                    steps: before.steps + 1,
                    resyncs: before.resyncs + 1,
                    signal: outcome.1,
                }
            } else {
                Progress {
                    state: ticked,
                    steps: before.steps + 1,
                    resyncs: before.resyncs,
                    signal: None,
                }
            }
        }
    }
}

/// A frame only reads the answers of the resyncs that it makes: two lists of
/// answers that agree on those give the same course.
pub proof fn lemma_replay_reads_its_resyncs(
    start: EngineState,
    config: ClockConfig,
    loaded: LyricsMetadata,
    a: Seq<(Option<PlaybackInfo>, Option<Meta>)>,
    b: Seq<(Option<PlaybackInfo>, Option<Meta>)>,
    n: nat,
)
    requires
        forall|i: int| 0 <= i < replay(start, config, loaded, a, n).resyncs ==> a[i] == b[i],
    ensures
        replay(start, config, loaded, b, n) == replay(start, config, loaded, a, n),
    decreases n,
{
    if n > 0 {
        lemma_replay_reads_its_resyncs(start, config, loaded, a, b, (n - 1) as nat);
    }
}

/// Once a resync has ended the session, the frame stays where it is.
pub proof fn lemma_replay_stops_at_signal(
    start: EngineState,
    config: ClockConfig,
    loaded: LyricsMetadata,
    answers: Seq<(Option<PlaybackInfo>, Option<Meta>)>,
    n: nat,
    m: nat,
)
    requires
        n <= m,
        replay(start, config, loaded, answers, n).signal is Some,
    ensures
        replay(start, config, loaded, answers, m) == replay(start, config, loaded, answers, n),
    decreases m,
{
    if n < m {
        lemma_replay_stops_at_signal(start, config, loaded, answers, n, (m - 1) as nat);
    }
}

impl Session {
    /// The clock is well formed, and while the session runs a paused
    /// estimate stands at or before the resync point.
    pub open spec fn wf(&self) -> bool {
        &&& self.config.wf()
        &&& self.accumulator.wf(&self.config)
        &&& self.ended is None ==> self.state.held_while_paused()
    }

    /// What a session is set up with. No frame changes it.
    pub open spec fn same_setup(&self, other: &Session) -> bool {
        &&& self.lyrics == other.lyrics
        &&& self.config == other.config
        &&& self.capacity == other.capacity
        &&& self.lead_in == other.lead_in
        &&& self.max_duration == other.max_duration
    }

    /// The window for the current estimate.
    pub open spec fn window(&self) -> WindowView {
        window_at(
            self.lyrics.cues(),
            self.state.estimated_time as nat,
            self.capacity as nat,
            self.lead_in,
        )
    }

    /// Whether the session is over: it was ended, or it has lasted longer
    /// than allowed.
    pub open spec fn is_finished(&self) -> bool {
        self.ended is Some || self.elapsed > self.max_duration
    }

    /// A session for `lyrics` whose playback stands at `position`. The
    /// terminal is taken to show nothing yet.
    pub fn new(
        lyrics: Lyrics,
        position: u64,
        config: ClockConfig,
        capacity: usize,
        lead_in: LeadIn,
        max_duration: u64,
    ) -> (session: Session)
        requires
            config.wf(),
        ensures
            session.wf(),
            session.lyrics == lyrics,
            session.config == config,
            session.capacity == capacity,
            session.lead_in == lead_in,
            session.max_duration == max_duration,
            session.state == EngineState::starting_at(position),
            session.accumulator.carry == 0,
            session.elapsed == 0,
            session.ended is None,
            session.shown@.lines.len() == 0,
    {
        Session {
            lyrics,
            config,
            capacity,
            lead_in,
            max_duration,
            state: EngineState::new(position),
            accumulator: Accumulator::new(),
            elapsed: 0,
            ended: None,
            shown: DisplayWindow { lines: Vec::new(), active_index: 0, marked: false },
        }
    }

    /// `started` is what starting a session from `sample` gives: a fresh
    /// session at the reported position, or a lost playback where there is no
    /// sample or no position in it.
    pub open spec fn starts_from(
        started: Result<Session, Signal>,
        sample: Option<PlaybackInfo>,
        lyrics: Lyrics,
        config: ClockConfig,
        capacity: usize,
        lead_in: LeadIn,
        max_duration: u64,
    ) -> bool {
        match sample {
            Some(PlaybackInfo { position: Some(position), .. }) => {
                &&& started matches Ok(session)
                &&& session.wf()
                &&& session.lyrics == lyrics
                &&& session.config == config
                &&& session.capacity == capacity
                &&& session.lead_in == lead_in
                &&& session.max_duration == max_duration
                &&& session.state == EngineState::starting_at(position)
                &&& session.accumulator.carry == 0
                &&& session.elapsed == 0
                &&& session.ended is None
                &&& session.shown@.lines.len() == 0
            },
            _ => started == Err::<Session, Signal>(Signal::PlaybackLost),
        }
    }

    /// A session that starts where `sample` says playback stands. Without a
    /// sample, or without a position in it, there is nothing to start from.
    pub fn from_sample(
        lyrics: Lyrics,
        sample: Option<PlaybackInfo>,
        config: ClockConfig,
        capacity: usize,
        lead_in: LeadIn,
        max_duration: u64,
    ) -> (started: Result<Session, Signal>)
        requires
            config.wf(),
        ensures
            Session::starts_from(started, sample, lyrics, config, capacity, lead_in, max_duration),
    {
        match sample {
            Some(PlaybackInfo { position: Some(position), .. }) => Ok(
                Session::new(lyrics, position, config, capacity, lead_in, max_duration),
            ),
            _ => Err(Signal::PlaybackLost),
        }
    }

    /// Asks `client` where playback stands and starts a session there.
    /// Whatever the client answers, the result is that of
    /// [`Session::from_sample`] for some sample.
    pub fn begin<C: Client>(
        client: &C,
        lyrics: Lyrics,
        config: ClockConfig,
        capacity: usize,
        lead_in: LeadIn,
        max_duration: u64,
    ) -> (started: Result<Session, Signal>)
        requires
            config.wf(),
        ensures
            exists|sample: Option<PlaybackInfo>| #[trigger]
                Session::starts_from(
                    started,
                    sample,
                    lyrics,
                    config,
                    capacity,
                    lead_in,
                    max_duration,
                ),
            started matches Ok(session) ==> session.wf(),
    {
        let sample = client.get_pos();
        Session::from_sample(lyrics, sample, config, capacity, lead_in, max_duration)
    }

    /// Whether the session is in the shape that its frames rely on. A session
    /// that was started here and only changed by its own methods is.
    pub fn well_formed(&self) -> (ok: bool)
        ensures
            ok == self.wf(),
    {
        self.config.step_duration > 0 && self.accumulator.carry < self.config.step_duration && (
        self.ended.is_some() || !self.state.paused || self.state.estimated_time
            <= self.state.next_resync_at)
    }

    /// Whether the session is over.
    pub fn finished(&self) -> (over: bool)
        ensures
            over == self.is_finished(),
    {
        self.ended.is_some() || self.elapsed > self.max_duration
    }

    /// Carries out a resync with what the playback source answered: `sample`
    /// to the question where playback stands, `current` to the question what
    /// plays.
    pub fn reconcile(&mut self, sample: Option<PlaybackInfo>, current: Option<Meta>) -> (signal:
        Option<Signal>)
        ensures
            (final(self).state, signal) == resync_outcome(
                old(self).state,
                old(self).config.resync_interval,
                old(self).lyrics.metadata,
                sample,
                current,
            ),
            final(self).ended == if signal is Some {
                signal
            } else {
                old(self).ended
            },
            final(self).same_setup(old(self)),
            final(self).accumulator == old(self).accumulator,
            final(self).elapsed == old(self).elapsed,
            final(self).shown == old(self).shown,
            signal is None ==> final(self).state.held_while_paused(),
    {
        let signal = match sample {
            None => Some(Signal::PlaybackLost),
            Some(s) => {
                self.state = self.state.reconcile(&s, self.config.resync_interval);
                match current {
                    None => Some(Signal::PlaybackLost),
                    Some(meta) => if same_text(&meta.title, &self.lyrics.metadata.title) {
                        None
                    } else {
                        Some(Signal::TrackChanged)
                    },
                }
            },
        };
        if signal.is_some() {
            self.ended = signal;
        }
        signal
    }

    /// Asks `client` where playback stands and, if it stands anywhere, what
    /// plays, and carries out the resync. Whatever the client answers, the
    /// session is left as [`Session::reconcile`] leaves it for some pair of
    /// answers.
    pub fn resync<C: Client>(&mut self, client: &C) -> (signal: Option<Signal>)
        ensures
            exists|sample: Option<PlaybackInfo>, current: Option<Meta>|
                (final(self).state, signal) == #[trigger] resync_outcome(
                    old(self).state,
                    old(self).config.resync_interval,
                    old(self).lyrics.metadata,
                    sample,
                    current,
                ),
            final(self).ended == if signal is Some {
                signal
            } else {
                old(self).ended
            },
            final(self).same_setup(old(self)),
            final(self).accumulator == old(self).accumulator,
            final(self).elapsed == old(self).elapsed,
            final(self).shown == old(self).shown,
            signal is None ==> final(self).state.held_while_paused(),
    {
        match client.get_pos() {
            None => self.reconcile(None, None),
            Some(sample) => {
                let current = client.get_metadata();
                self.reconcile(Some(sample), current)
            },
        }
    }
    /// A frame of length `delta` passes without a resync: it completes no
    /// step, or all its steps leave the estimate at or before the resync
    /// point.
    pub open spec fn quiet_frame(&self, delta: u64) -> bool {
        let due = self.config.steps_due(self.accumulator.carry as nat, delta as nat);
        due == 0 || !self.state.ticked_times(self.config.step_duration, due).resync_due()
    }

    /// Runs one frame: `frame_delta` of wall-clock time has passed since the
    /// frame before.
    ///
    /// The frame counts towards the age of the session in full and towards
    /// the clock up to the configured maximum. The steps that fall due are
    /// taken one by one; a step that takes the estimate past the resync
    /// point is followed by a resync with `client`, and a resync that ends
    /// the session ends the frame. A session that is already ended is left
    /// as it is.
    ///
    /// The steps and the remainder are those of the accumulator whatever
    /// `client` answers. The client is asked exactly when the frame is not
    /// quiet; in a quiet frame the estimate moves forward by the steps and
    /// nothing else changes. In every frame the course is that of [`replay`]
    /// for the answers that the client gave.
    pub fn frame<C: Client>(&mut self, client: &C, frame_delta: u64) -> (report: FrameReport)
        requires
            old(self).wf(),
        ensures
            final(self).wf(),
            final(self).same_setup(old(self)),
            final(self).shown == old(self).shown,
            old(self).ended is Some ==> {
                &&& *final(self) == *old(self)
                &&& report == (FrameReport { steps: 0, resyncs: 0, signal: old(self).ended })
            },
            old(self).ended is None ==> {
                let due = old(self).config.steps_due(
                    old(self).accumulator.carry as nat,
                    frame_delta as nat,
                );
                &&& final(self).elapsed == capped_sum(old(self).elapsed, frame_delta)
                &&& final(self).accumulator.carry == old(self).config.carry_left(
                    old(self).accumulator.carry as nat,
                    frame_delta as nat,
                )
                &&& final(self).ended == report.signal
                &&& report.steps <= due
                &&& report.signal is None ==> report.steps == due
                &&& report.resyncs <= report.steps
                &&& report.resyncs == 0 <==> old(self).quiet_frame(frame_delta)
                &&& report.resyncs == 0 ==> {
                    &&& report.signal is None
                    &&& final(self).state == old(self).state.ticked_times(
                        old(self).config.step_duration,
                        due,
                    )
                }
                &&& final(self).state.next_resync_at >= old(self).state.next_resync_at
                &&& exists|answers: Seq<(Option<PlaybackInfo>, Option<Meta>)>|
                    {
                        &&& answers.len() == report.resyncs
                        &&& #[trigger] replay(
                            old(self).state,
                            old(self).config,
                            old(self).lyrics.metadata,
                            answers,
                            due,
                        ) == (Progress {
                            state: final(self).state,
                            steps: report.steps as nat,
                            resyncs: report.resyncs as nat,
                            signal: report.signal,
                        })
                    }
            },
    {
        if self.ended.is_some() {
            return FrameReport { steps: 0, resyncs: 0, signal: self.ended };
        }
        let config = self.config;
        let step = config.step_duration;
        self.elapsed = self.elapsed.saturating_add(frame_delta);
        let due = self.accumulator.absorb(&config, frame_delta);
        let ghost start = self.state;
        let ghost loaded = self.lyrics.metadata;
        let ghost mut answers: Seq<(Option<PlaybackInfo>, Option<Meta>)> = Seq::empty();
        let mut steps: u64 = 0;
        let mut resyncs: u64 = 0;
        let mut signal: Option<Signal> = None;
        while steps < due && signal.is_none()
            invariant
                self.wf(),
                self.same_setup(old(self)),
                self.config == config,
                step == config.step_duration,
                self.shown == old(self).shown,
                self.elapsed == capped_sum(old(self).elapsed, frame_delta),
                self.accumulator.carry == config.carry_left(
                    old(self).accumulator.carry as nat,
                    frame_delta as nat,
                ),
                self.ended == signal,
                steps <= due,
                resyncs <= steps,
                resyncs == 0 ==> signal is None && self.state == start.ticked_times(
                    step,
                    steps as nat,
                ),
                resyncs == 0 && steps > 0 ==> !self.state.resync_due(),
                resyncs > 0 ==> start.ticked_times(step, due as nat).resync_due(),
                self.state.next_resync_at >= start.next_resync_at,
                loaded == old(self).lyrics.metadata,
                answers.len() == resyncs,
                replay(start, config, loaded, answers, steps as nat) == (Progress {
                    state: self.state,
                    steps: steps as nat,
                    resyncs: resyncs as nat,
                    signal,
                }),
            decreases due - steps + if signal is None { 1nat } else { 0nat },
        {
            let ghost quiet_so_far = resyncs == 0;
            let ghost asked = answers;
            steps += 1;
            self.state = self.state.tick(step);
            if self.state.due() {
                proof {
                    if quiet_so_far {
                        lemma_ticks_are_monotone(start, step, steps as nat, due as nat);
                    }
                }
                let ghost ticked = self.state;
                resyncs += 1;
                signal = self.resync(client);
                proof {
                    let answer = choose|sample: Option<PlaybackInfo>, current: Option<Meta>|
                        (self.state, signal) == #[trigger] resync_outcome(
                            ticked,
                            config.resync_interval,
                            loaded,
                            sample,
                            current,
                        );
                    answers = asked.push(answer);
                    lemma_replay_reads_its_resyncs(
                        start,
                        config,
                        loaded,
                        asked,
                        answers,
                        (steps - 1) as nat,
                    );
                }
            }
        }
        proof {
            if steps < due {
                lemma_replay_stops_at_signal(
                    start,
                    config,
                    loaded,
                    answers,
                    steps as nat,
                    due as nat,
                );
            }
        }
        FrameReport { steps, resyncs, signal }
    }

    /// Brings the terminal up to date: lists what has to be written so that
    /// it shows the window for the current estimate, and records that it
    /// does.
    pub fn paint(&mut self) -> (ops: Vec<RenderOp>)
        ensures
            ops_view(ops@) == plan(old(self).window(), old(self).shown@),
            final(self).shown@ == old(self).window(),
            final(self).same_setup(old(self)),
            final(self).state == old(self).state,
            final(self).accumulator == old(self).accumulator,
            final(self).elapsed == old(self).elapsed,
            final(self).ended == old(self).ended,
    {
        let window = update(&self.lyrics, self.state.estimated_time, self.capacity, self.lead_in);
        let ops = render(&window, &self.shown);
        self.shown = window;
        ops
    }
}

/// More steps never leave the estimate earlier.
pub proof fn lemma_ticks_are_monotone(state: EngineState, step: u64, n: nat, m: nat)
    requires
        n <= m,
    ensures
        state.ticked_times(step, n).estimated_time <= state.ticked_times(step, m).estimated_time,
        state.ticked_times(step, n).next_resync_at == state.ticked_times(step, m).next_resync_at,
    decreases m,
{
    if n < m {
        lemma_ticks_are_monotone(state, step, n, (m - 1) as nat);
    }
}

/// As long as the clock only takes steps, with no resync in between, the
/// active line never moves back.
pub proof fn law_steps_never_move_active_line_back(
    cues: Seq<(Seq<char>, nat)>,
    state: EngineState,
    step: u64,
    n: nat,
)
    ensures
        cursor(cues, state.estimated_time as nat) <= cursor(
            cues,
            state.ticked_times(step, n).estimated_time as nat,
        ),
        active_position(cues, state.estimated_time as nat) matches Some(before) ==> (
        active_position(cues, state.ticked_times(step, n).estimated_time as nat) matches Some(
            after,
        ) && before <= after),
{
    law_ticks_never_rewind(state, step, n);
    law_active_line_never_moves_back(
        cues,
        state.estimated_time as nat,
        state.ticked_times(step, n).estimated_time as nat,
    );
}

} // verus!
