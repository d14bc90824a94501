//! The lesson session engine: it draws prompts, schedules their repeated
//! playback, judges candidate answers and keeps the statistics.
//!
//! The engine makes decisions only. Waiting, playing audio and talking to
//! participants are the caller's part: each decision names what to do next,
//! such as a prompt to play, a delay, and the task handle to report later.
//! A task is cancelled by replacing its handle. Handles carry the identity of
//! their lesson, so a callback with a handle that is no longer live, or that
//! belongs to another lesson, does nothing: that is how a stale timer is kept
//! from touching any session.
use vstd::prelude::*;

use crate::lesson::{get_lesson_gen, is_named_gen, probset_error, LessonAnswer, LessonError, LessonGen, LessonPrompt};
use crate::lesson::callsign::is_ja_callsign;
use crate::morse::{phrase_duration, phrase_duration_spec};
use crate::random::random_between;
use crate::text::{decimal_spec, digit_char, push_char, push_decimal, to_upper, upper_of};

verus! {

/// Time added to the length of a prompt between two playbacks, in
/// nanoseconds (10 s).
pub const REPEAT_MARGIN_NANOS: u128 = 10_000_000_000;

/// Time between the first right answer and the next prompt, in seconds.
pub const GRACE_SECS: u64 = 5;

/// Default speed range of a lesson, in WPM.
pub const DEFAULT_MIN_SPEED: u32 = 15;

pub const DEFAULT_MAX_SPEED: u32 = 20;

/// Default tone frequency range of a lesson, in Hz.
pub const DEFAULT_MIN_FREQ: u32 = 500;

pub const DEFAULT_MAX_FREQ: u32 = 1000;

/// The range of a lesson setting from optional bounds. A missing lower
/// bound is the default one, lowered to the upper bound when that is given
/// and smaller; a missing upper bound is the default one, raised to the
/// lower bound when that is larger.
pub open spec fn option_range_spec(min: Option<u32>, max: Option<u32>, lo: u32, hi: u32) -> (u32, u32) {
    let low = match min {
        Some(m) => m,
        None => match max {
            Some(x) => if lo <= x {
                lo
            } else {
                x
            },
            None => lo,
        },
    };
    let high = match max {
        Some(x) => x,
        None => if hi >= low {
            hi
        } else {
            low
        },
    };
    (low, high)
}

/// Computes [`option_range_spec`].
pub fn option_range(min: Option<u32>, max: Option<u32>, lo: u32, hi: u32) -> (r: (u32, u32))
    ensures
        r == option_range_spec(min, max, lo, hi),
{
    let low = match min {
        Some(m) => m,
        None => match max {
            Some(x) => if lo <= x {
                lo
            } else {
                x
            },
            None => lo,
        },
    };
    let high = match max {
        Some(x) => x,
        None => if hi >= low {
            hi
        } else {
            low
        },
    };
    (low, high)
}

/// Names a scheduled task of lesson `session`: the repeating playback, or
/// the grace timer.
#[derive(Clone, Copy, Debug, PartialEq, Eq)]
pub struct TaskHandle {
    pub session: u64,
    pub id: u64,
}

/// The verdict on a candidate answer.
#[derive(Clone, Copy, Debug, PartialEq, Eq)]
pub enum Feedback {
    /// Right, and the first right answer to this prompt.
    FirstCorrect,
    /// Right, after someone else already answered.
    AlreadyCorrect,
    /// Wrong.
    Incorrect,
}

/// A prompt to play, and how to repeat it: play `text` at `wpm` with a tone
/// of `freq` Hz now and every `interval_nanos`, calling
/// [`LessonModeState::repeat_tick`] with `task` before each repeat.
pub struct Playback {
    pub task: TaskHandle,
    pub text: String,
    pub wpm: u32,
    pub freq: u32,
    pub interval_nanos: u128,
}

/// What an advance decided.
pub enum Advance {
    /// The source gave no prompt: nothing plays until the session ends.
    Exhausted,
    /// A new prompt is up.
    Play(Playback),
}

/// One repeat of the current prompt.
pub struct RepeatPlay {
    pub text: String,
    pub wpm: u32,
    pub freq: u32,
}

/// The verdict on a candidate, and the grace timer to arm, if any: wait
/// [`GRACE_SECS`] and then call [`LessonModeState::grace_elapsed`] with it.
pub struct Submission {
    pub feedback: Feedback,
    pub grace: Option<TaskHandle>,
}

/// The statistics of a finished lesson.
pub struct LessonSummary {
    /// How many prompts were played.
    pub questions: u64,
    /// The mean number of playbacks per prompt, in hundredths, rounded half
    /// up.
    pub mean_hundredths: u128,
    /// `(participant, right answers, first right answers)`, most first right
    /// answers first; ties in the order participants first answered right.
    pub leaderboard: Vec<(u64, u64, u64)>,
}

/// How a lesson ended.
pub enum LessonEnd {
    /// Nothing was played: just a farewell.
    Bye,
    /// The statistics.
    Summary(LessonSummary),
}

/// The state of one lesson.
pub struct LessonModeState {
    session: u64,
    speed_range: (u32, u32),
    freq_range: (u32, u32),
    last_ans: Option<LessonPrompt>,
    last_freq: u32,
    last_speed: u32,
    gen: LessonGen,
    answered: bool,
    is_advancing: bool,
    playback_task: Option<u64>,
    advance_task: Option<u64>,
    next_task_id: u64,
    current_repeat: u64,
    repeat_counts: Vec<u64>,
    user_count: Vec<(u64, u64, u64)>,
}

/// The sum of a history of repeat counts.
pub open spec fn history_sum(h: Seq<u64>) -> nat
    decreases h.len(),
{
    if h.len() == 0 {
        0
    } else {
        history_sum(h.drop_last()) + h.last() as nat
    }
}

/// The mean of a non-empty history, in hundredths, rounded half up.
pub open spec fn mean_hundredths_spec(h: Seq<u64>) -> int {
    (200 * history_sum(h) + h.len()) as int / (2 * h.len()) as int
}

/// Where `user` stands in the tallies.
pub open spec fn tally_index(t: Seq<(u64, u64, u64)>, user: u64) -> int {
    choose|i: int| 0 <= i < t.len() && t[i].0 == user
}

/// Whether `user` has a tally.
pub open spec fn has_tally(t: Seq<(u64, u64, u64)>, user: u64) -> bool {
    exists|i: int| 0 <= i < t.len() && t[i].0 == user
}

/// The tallies after a right answer of `user`, first right answer when
/// `first`. A participant's first right answer appends their tally.
pub open spec fn credit(t: Seq<(u64, u64, u64)>, user: u64, first: bool) -> Seq<(u64, u64, u64)> {
    let bonus: int = if first {
        1
    } else {
        0
    };
    if has_tally(t, user) {
        let i = tally_index(t, user);
        t.update(i, (user, (t[i].1 + 1) as u64, (t[i].2 + bonus) as u64))
    } else {
        t.push((user, 1u64, bonus as u64))
    }
}

/// Whether each participant has at most one tally.
pub open spec fn unique_users(t: Seq<(u64, u64, u64)>) -> bool {
    forall|i: int, j: int| 0 <= i < j < t.len() ==> #[trigger] t[i].0 != #[trigger] t[j].0
}

/// Whether `order` lists every index of `t` once, most first right answers
/// first and, among equals, lower index first.
pub open spec fn is_leaderboard_order(t: Seq<(u64, u64, u64)>, order: Seq<usize>) -> bool {
    &&& order.len() == t.len()
    &&& forall|k: int| 0 <= k < order.len() ==> #[trigger] order[k] < t.len()
    &&& forall|a: int, b: int| 0 <= a < b < order.len() ==> #[trigger] order[a] != #[trigger] order[b]
    &&& forall|a: int, b: int|
        0 <= a < b < order.len() ==> #[trigger] t[order[a] as int].2 > #[trigger] t[order[b] as int].2
            || (t[order[a] as int].2 == t[order[b] as int].2 && order[a] < order[b])
}

/// The text played for a prompt: a leading space keeps a gap after the
/// previous playback.
pub open spec fn played_text(p: Seq<char>) -> Seq<char> {
    seq![' '] + p
}

/// Where `user` stands in the tallies, if anywhere.
fn find_user(t: &Vec<(u64, u64, u64)>, user: u64) -> (r: Option<usize>)
    ensures
        r matches Some(i) ==> i < t@.len() && t@[i as int].0 == user,
        r is None ==> forall|k: int| 0 <= k < t@.len() ==> #[trigger] t@[k].0 != user,
{
    let mut i: usize = 0;
    while i < t.len()
        invariant
            i <= t@.len(),
            forall|k: int| 0 <= k < i ==> #[trigger] t@[k].0 != user,
        decreases t@.len() - i,
    {
        if t[i].0 == user {
            return Some(i);
        }
        i = i + 1;
    }
    None
}

impl LessonModeState {
    /// The identity of this lesson, carried by all its task handles.
    pub closed spec fn session(&self) -> u64 {
        self.session
    }

    pub closed spec fn speed_range(&self) -> (u32, u32) {
        self.speed_range
    }

    pub closed spec fn freq_range(&self) -> (u32, u32) {
        self.freq_range
    }

    /// The prompt up now, if any.
    pub closed spec fn current(&self) -> Option<LessonPrompt> {
        self.last_ans
    }

    /// The speed of the current prompt.
    pub closed spec fn speed(&self) -> u32 {
        self.last_speed
    }

    /// The tone frequency of the current prompt.
    pub closed spec fn freq(&self) -> u32 {
        self.last_freq
    }

    pub closed spec fn generator(&self) -> LessonGen {
        self.gen
    }

    /// Whether someone answered the current prompt right.
    pub closed spec fn answered(&self) -> bool {
        self.answered
    }

    /// Whether a grace timer is pending.
    pub closed spec fn advancing(&self) -> bool {
        self.is_advancing
    }

    /// The live repeating playback task.
    pub closed spec fn playback(&self) -> Option<u64> {
        self.playback_task
    }

    /// The live grace timer.
    pub closed spec fn pending(&self) -> Option<u64> {
        self.advance_task
    }

    /// The identity the next task gets.
    pub closed spec fn next_id(&self) -> u64 {
        self.next_task_id
    }

    /// How often the current prompt was played.
    pub closed spec fn repeat(&self) -> u64 {
        self.current_repeat
    }

    /// How often each finished prompt was played (prompts never played are
    /// left out).
    pub closed spec fn history(&self) -> Seq<u64> {
        self.repeat_counts@
    }

    /// `(participant, right answers, first right answers)`, in the order
    /// participants first answered right.
    pub closed spec fn tallies(&self) -> Seq<(u64, u64, u64)> {
        self.user_count@
    }

    /// Whether two states agree in everything.
    pub open spec fn same_state(&self, o: &Self) -> bool {
        &&& self.session() == o.session()
        &&& self.speed_range() == o.speed_range()
        &&& self.freq_range() == o.freq_range()
        &&& self.current() == o.current()
        &&& self.speed() == o.speed()
        &&& self.freq() == o.freq()
        &&& self.generator() == o.generator()
        &&& self.answered() == o.answered()
        &&& self.advancing() == o.advancing()
        &&& self.playback() == o.playback()
        &&& self.pending() == o.pending()
        &&& self.next_id() == o.next_id()
        &&& self.repeat() == o.repeat()
        &&& self.history() == o.history()
        &&& self.tallies() == o.tallies()
    }

    /// The ranges are ordered, every task predates the next identity, a
    /// grace timer is pending exactly while advancing, and each participant
    /// has one tally.
    pub open spec fn wf(&self) -> bool {
        &&& self.speed_range().0 <= self.speed_range().1
        &&& self.freq_range().0 <= self.freq_range().1
        &&& self.playback() matches Some(id) ==> id < self.next_id()
        &&& self.pending() matches Some(id) ==> id < self.next_id()
        &&& self.advancing() <==> self.pending() is Some
        &&& unique_users(self.tallies())
    }

    /// Whether no counter is at its limit, so that one more step fits.
    pub open spec fn room(&self) -> bool {
        &&& self.next_id() < u64::MAX
        &&& self.repeat() < u64::MAX
        &&& forall|i: int|
            0 <= i < self.tallies().len() ==> #[trigger] self.tallies()[i].1 < u64::MAX
                && self.tallies()[i].2 < u64::MAX
    }

    /// Whether `task` is the live repeating playback.
    pub open spec fn playback_live(&self, task: TaskHandle) -> bool {
        task.session == self.session() && self.playback() == Some(task.id)
    }

    /// Whether `task` is the live grace timer.
    pub open spec fn grace_live(&self, task: TaskHandle) -> bool {
        task.session == self.session() && self.pending() == Some(task.id)
    }

    /// A fresh lesson over the given ranges and source: nothing played, no
    /// task, no tally.
    pub open spec fn fresh(&self, speed_range: (u32, u32), freq_range: (u32, u32)) -> bool {
        &&& self.speed_range() == speed_range
        &&& self.freq_range() == freq_range
        &&& self.current() is None
        &&& !self.answered()
        &&& !self.advancing()
        &&& self.playback() is None
        &&& self.pending() is None
        &&& self.next_id() == 0
        &&& self.repeat() == 0
        &&& self.history() == Seq::<u64>::empty()
        &&& self.tallies() == Seq::<(u64, u64, u64)>::empty()
    }

    /// The part of an advance from `old` to `new` that does not touch the
    /// grace timer. When a prompt comes up, the finished prompt's count
    /// joins the history (unless it was never played), a new speed and
    /// frequency are drawn from the ranges, and a new playback task replaces
    /// the old one. When none comes up, the current prompt and its playback
    /// are dropped.
    pub open spec fn advance_core(old: &Self, new: &Self, r: Advance) -> bool {
        &&& new.session() == old.session()
        &&& new.speed_range() == old.speed_range()
        &&& new.freq_range() == old.freq_range()
        &&& new.generator() == old.generator()
        &&& new.tallies() == old.tallies()
        &&& match r {
            Advance::Exhausted => {
                &&& new.current() is None
                &&& new.playback() is None
                &&& new.next_id() == old.next_id()
                &&& new.repeat() == old.repeat()
                &&& new.history() == old.history()
                &&& new.answered() == old.answered()
                &&& new.speed() == old.speed()
                &&& new.freq() == old.freq()
            },
            Advance::Play(p) => {
                &&& new.current() is Some
                &&& p.task.id == old.next_id()
                &&& p.task.session == old.session()
                &&& new.playback() == Some(old.next_id())
                &&& new.next_id() == old.next_id() + 1
                &&& new.repeat() == 0
                &&& new.history() == if old.repeat() != 0 {
                    old.history().push(old.repeat())
                } else {
                    old.history()
                }
                &&& !new.answered()
                &&& old.speed_range().0 <= new.speed() <= old.speed_range().1
                &&& old.freq_range().0 <= new.freq() <= old.freq_range().1
                &&& p.wpm == new.speed()
                &&& p.freq == new.freq()
                &&& p.text@ == played_text(new.current()->0.text())
                &&& p.interval_nanos == phrase_duration_spec(p.text@, new.speed())
                    + REPEAT_MARGIN_NANOS
            },
        }
    }

    /// An advance: the core step with the grace timer left as it was, and
    /// no prompt exactly when the source is exhausted.
    pub open spec fn advance_post(old: &Self, new: &Self, r: Advance) -> bool {
        &&& Self::advance_core(old, new, r)
        &&& new.advancing() == old.advancing()
        &&& new.pending() == old.pending()
        &&& (r is Exhausted <==> old.generator().exhausted())
    }

    /// The outcome of judging the upper-cased candidate `s` of `user`.
    /// Without a prompt nothing happens. A wrong answer changes nothing. A
    /// right one is credited (first right answer when nobody answered yet),
    /// stops the playback, and arms the grace timer unless one is pending.
    pub open spec fn submit_post(
        old: &Self,
        new: &Self,
        user: u64,
        s: Seq<char>,
        r: Option<Submission>,
    ) -> bool {
        if old.current() is None {
            r is None && new.same_state(old)
        } else if !old.current()->0.accepts(s) {
            r matches Some(sub) && sub.feedback == Feedback::Incorrect && sub.grace is None
                && new.same_state(old)
        } else {
            &&& r matches Some(sub)
            &&& sub.feedback == if old.answered() {
                Feedback::AlreadyCorrect
            } else {
                Feedback::FirstCorrect
            }
            &&& new.tallies() == credit(old.tallies(), user, !old.answered())
            &&& new.answered()
            &&& new.playback() is None
            &&& if old.advancing() {
                &&& sub.grace is None
                &&& new.pending() == old.pending()
                &&& new.advancing()
                &&& new.next_id() == old.next_id()
            } else {
                &&& sub.grace == Some(TaskHandle { session: old.session(), id: old.next_id() })
                &&& new.pending() == Some(old.next_id())
                &&& new.advancing()
                &&& new.next_id() == old.next_id() + 1
            }
            &&& new.session() == old.session()
            &&& new.speed_range() == old.speed_range()
            &&& new.freq_range() == old.freq_range()
            &&& new.current() == old.current()
            &&& new.speed() == old.speed()
            &&& new.freq() == old.freq()
            &&& new.generator() == old.generator()
            &&& new.repeat() == old.repeat()
            &&& new.history() == old.history()
        }
    }

    /// Lesson `session` over the given ranges and prompt source, not yet
    /// started. Handles of other lessons are never live in it.
    pub fn new(session: u64, speed_range: (u32, u32), freq_range: (u32, u32), gen: LessonGen) -> (r:
        Self)
        requires
            speed_range.0 <= speed_range.1,
            freq_range.0 <= freq_range.1,
        ensures
            r.wf(),
            r.fresh(speed_range, freq_range),
            r.session() == session,
            r.generator() == gen,
    {
        LessonModeState {
            session,
            speed_range,
            freq_range,
            last_ans: None,
            last_freq: 0,
            last_speed: 0,
            gen,
            answered: false,
            is_advancing: false,
            playback_task: None,
            advance_task: None,
            next_task_id: 0,
            current_repeat: 0,
            repeat_counts: Vec::new(),
            user_count: Vec::new(),
        }
    }

    /// Sets up a lesson and puts up its first prompt. The speed range is
    /// checked first, then the frequency range, then the prompt selector
    /// (see [`get_lesson_gen`]); nothing is set up on any error.
    pub fn start(
        session: u64,
        speed_range: (u32, u32),
        freq_range: (u32, u32),
        probset: &str,
        corpus: Option<Vec<String>>,
    ) -> (r: Result<(LessonModeState, Advance), LessonError>)
        requires
            speed_range.0 >= 1,
        ensures
            speed_range.0 > speed_range.1 ==> r == Err::<(LessonModeState, Advance), LessonError>(
                LessonError::MinSpeedAboveMax,
            ),
            speed_range.0 <= speed_range.1 && freq_range.0 > freq_range.1 ==> r == Err::<
                (LessonModeState, Advance),
                LessonError,
            >(LessonError::MinFreqAboveMax),
            speed_range.0 <= speed_range.1 && freq_range.0 <= freq_range.1 ==> match probset_error(
                probset@,
                corpus is Some,
            ) {
                Some(e) => r == Err::<(LessonModeState, Advance), LessonError>(e),
                None => r is Ok,
            },
            r matches Ok((s, a)) ==> s.wf() && s.session() == session && is_named_gen(
                s.generator(),
                probset@,
                corpus,
            ) && (s.current() matches Some(p) ==> s.generator().can_give(p)) && exists|
                s0: LessonModeState,
            |
                s0.fresh(speed_range, freq_range) && s0.generator() == s.generator()
                    && #[trigger] Self::advance_post(&s0, &s, a),
    {
        if speed_range.0 > speed_range.1 {
            return Err(LessonError::MinSpeedAboveMax);
        }
        if freq_range.0 > freq_range.1 {
            return Err(LessonError::MinFreqAboveMax);
        }
        let ghost named = corpus;
        let gen = match get_lesson_gen(probset, corpus) {
            Ok(g) => g,
            Err(e) => {
                return Err(e);
            },
        };
        let mut state = LessonModeState::new(session, speed_range, freq_range, gen);
        let ghost s0 = state;
        let first = state.play_next();
        proof {
            assert(Self::advance_post(&s0, &state, first));
        }
        Ok((state, first))
    }

    /// The identity of this lesson.
    pub fn session_id(&self) -> (r: u64)
        ensures
            r == self.session(),
    {
        self.session
    }

    /// Whether one more step fits in the counters (see [`Self::room`]).
    pub fn has_room(&self) -> (r: bool)
        ensures
            r == self.room(),
    {
        if self.next_task_id == u64::MAX || self.current_repeat == u64::MAX {
            return false;
        }
        let mut i: usize = 0;
        while i < self.user_count.len()
            invariant
                i <= self.user_count@.len(),
                forall|k: int|
                    0 <= k < i ==> #[trigger] self.user_count@[k].1 < u64::MAX
                        && self.user_count@[k].2 < u64::MAX,
            decreases self.user_count@.len() - i,
        {
            if self.user_count[i].1 == u64::MAX || self.user_count[i].2 == u64::MAX {
                proof {
                    assert(self.tallies()[i as int] == self.user_count@[i as int]);
                }
                return false;
            }
            i = i + 1;
        }
        true
    }

    /// Puts up `next` (or, when it is `None`, no prompt), to be played at
    /// `speed` WPM with a tone of `freq` Hz.
    pub fn play_next_with(&mut self, next: Option<LessonPrompt>, speed: u32, freq: u32) -> (r: Advance)
        requires
            old(self).wf(),
            old(self).room(),
            old(self).speed_range().0 <= speed <= old(self).speed_range().1,
            old(self).freq_range().0 <= freq <= old(self).freq_range().1,
            speed >= 1,
        ensures
            final(self).wf(),
            Self::advance_core(old(self), final(self), r),
            final(self).advancing() == old(self).advancing(),
            final(self).pending() == old(self).pending(),
            r is Exhausted <==> next is None,
            next is Some ==> final(self).current() == next && final(self).speed() == speed
                && final(self).freq() == freq,
    {
        match next {
            None => {
                self.last_ans = None;
                self.playback_task = None;
                Advance::Exhausted
            },
            Some(p) => {
                let c = self.current_repeat;
                if c != 0 {
                    self.repeat_counts.push(c);
                }
                self.current_repeat = 0;
                let mut text = String::new();
                push_char(&mut text, ' ');
                text.append(p.into_str());
                let interval = phrase_duration(text.as_str(), speed) + REPEAT_MARGIN_NANOS;
                self.last_ans = Some(p);
                self.last_speed = speed;
                self.last_freq = freq;
                self.answered = false;
                let id = self.next_task_id;
                self.playback_task = Some(id);
                self.next_task_id = id + 1;
                proof {
                    assert(text@ =~= played_text(self.last_ans->0.text()));
                }
                Advance::Play(
                    Playback {
                        task: TaskHandle { session: self.session, id },
                        text,
                        wpm: speed,
                        freq,
                        interval_nanos: interval,
                    },
                )
            },
        }
    }

    /// Draws the next prompt from the source and puts it up at a speed and
    /// frequency drawn from the ranges. A callsign source always gives a
    /// callsign of its grammar.
    pub fn play_next(&mut self) -> (r: Advance)
        requires
            old(self).wf(),
            old(self).room(),
            old(self).speed_range().0 >= 1,
        ensures
            final(self).wf(),
            Self::advance_post(old(self), final(self), r),
            final(self).current() matches Some(p) ==> old(self).generator().can_give(p),
            old(self).generator() is CallJa ==> (final(self).current() matches Some(p)
                && is_ja_callsign(p.text())),
    {
        let next = self.gen.next();
        let speed = random_between(self.speed_range.0, self.speed_range.1);
        let freq = random_between(self.freq_range.0, self.freq_range.1);
        self.play_next_with(next, speed, freq)
    }

    /// One repeat of the playback `task`: when it is live and a prompt is
    /// up, counts the playback and says what to play; else the task is over.
    pub fn repeat_tick(&mut self, task: TaskHandle) -> (r: Option<RepeatPlay>)
        requires
            old(self).wf(),
            old(self).room(),
        ensures
            final(self).wf(),
            final(self).speed_range() == old(self).speed_range(),
            final(self).session() == old(self).session(),
            !(old(self).playback_live(task) && old(self).current() is Some) ==> r is None
                && final(self).same_state(old(self)),
            old(self).playback_live(task) && old(self).current() is Some ==> (r matches Some(p)
                && p.text@ == played_text(old(self).current()->0.text()) && p.wpm == old(self).speed()
                && p.freq == old(self).freq() && final(self).repeat() == old(self).repeat() + 1
                && final(self).history() == old(self).history() && final(self).tallies()
                == old(self).tallies() && final(self).current() == old(self).current()
                && final(self).playback() == old(self).playback() && final(self).pending()
                == old(self).pending() && final(self).next_id() == old(self).next_id()
                && final(self).answered() == old(self).answered()),
    {
        if task.session != self.session || self.playback_task != Some(task.id) {
            return None;
        }
        match &self.last_ans {
            None => None,
            Some(p) => {
                let mut text = String::new();
                push_char(&mut text, ' ');
                text.append(p.into_str());
                proof {
                    assert(text@ =~= played_text(self.last_ans->0.text()));
                }
                self.current_repeat = self.current_repeat + 1;
                Some(RepeatPlay { text, wpm: self.last_speed, freq: self.last_freq })
            },
        }
    }

    /// Credits a right answer of `user`, as the first right answer to the
    /// prompt when `first`.
    fn credit_user(&mut self, user: u64, first: bool)
        requires
            old(self).wf(),
            old(self).room(),
        ensures
            final(self).user_count@ == credit(old(self).user_count@, user, first),
            unique_users(final(self).user_count@),
            final(self).session == old(self).session,
            final(self).speed_range == old(self).speed_range,
            final(self).freq_range == old(self).freq_range,
            final(self).last_ans == old(self).last_ans,
            final(self).last_speed == old(self).last_speed,
            final(self).last_freq == old(self).last_freq,
            final(self).gen == old(self).gen,
            final(self).answered == old(self).answered,
            final(self).is_advancing == old(self).is_advancing,
            final(self).playback_task == old(self).playback_task,
            final(self).advance_task == old(self).advance_task,
            final(self).next_task_id == old(self).next_task_id,
            final(self).current_repeat == old(self).current_repeat,
            final(self).repeat_counts == old(self).repeat_counts,
    {
        let bonus: u64 = if first {
            1
        } else {
            0
        };
        match find_user(&self.user_count, user) {
            Some(i) => {
                let (u, c, f) = self.user_count[i];
                proof {
                    assert(has_tally(self.user_count@, user));
                    let j = tally_index(self.user_count@, user);
                    assert(j == i as int) by {
                        if j != i as int {
                            if j < i as int {
                                assert(self.user_count@[j].0 != self.user_count@[i as int].0);
                            } else {
                                assert(self.user_count@[i as int].0 != self.user_count@[j].0);
                            }
                        }
                    }
                    assert(self.tallies()[i as int].1 < u64::MAX);
                }
                self.user_count.set(i, (u, c + 1, f + bonus));
                proof {
                    assert forall|a: int, b: int|
                        0 <= a < b < self.user_count@.len() implies #[trigger] self.user_count@[a].0
                        != #[trigger] self.user_count@[b].0 by {
                        assert(old(self).user_count@[a].0 != old(self).user_count@[b].0);
                    }
                }
            },
            None => {
                proof {
                    assert(!has_tally(self.user_count@, user));
                }
                self.user_count.push((user, 1, bonus));
                proof {
                    assert forall|a: int, b: int|
                        0 <= a < b < self.user_count@.len() implies #[trigger] self.user_count@[a].0
                        != #[trigger] self.user_count@[b].0 by {
                        if b < old(self).user_count@.len() {
                            assert(old(self).user_count@[a].0 != old(self).user_count@[b].0);
                        } else {
                            assert(old(self).user_count@[a].0 != user);
                        }
                    }
                }
            },
        }
    }

    /// Judges the already upper-cased candidate `s` of `user` (see
    /// [`Self::submit_post`]).
    pub fn on_normalized_message(&mut self, user: u64, s: &str) -> (r: Option<Submission>)
        requires
            old(self).wf(),
            old(self).room(),
        ensures
            final(self).wf(),
            Self::submit_post(old(self), final(self), user, s@, r),
    {
        let right = match &self.last_ans {
            None => {
                return None;
            },
            Some(p) => p.check(s),
        };
        if !right {
            return Some(Submission { feedback: Feedback::Incorrect, grace: None });
        }
        let answered = self.answered;
        self.credit_user(user, !answered);
        self.answered = true;
        self.playback_task = None;
        let feedback = if answered {
            Feedback::AlreadyCorrect
        } else {
            Feedback::FirstCorrect
        };
        if self.is_advancing {
            Some(Submission { feedback, grace: None })
        } else {
            let id = self.next_task_id;
            self.advance_task = Some(id);
            self.is_advancing = true;
            self.next_task_id = id + 1;
            Some(Submission { feedback, grace: Some(TaskHandle { session: self.session, id }) })
        }
    }

    /// Judges the candidate `text` of `user` after upper-casing it (see
    /// [`Self::submit_post`]).
    pub fn on_message(&mut self, user: u64, text: &str) -> (r: Option<Submission>)
        requires
            old(self).wf(),
            old(self).room(),
        ensures
            final(self).wf(),
            Self::submit_post(old(self), final(self), user, upper_of(text@), r),
    {
        let upper = to_upper(text);
        self.on_normalized_message(user, upper.as_str())
    }

    /// The grace timer `task` elapsed: when it is live, it is cleared and
    /// the next prompt comes up; else nothing happens.
    pub fn grace_elapsed(&mut self, task: TaskHandle) -> (r: Option<Advance>)
        requires
            old(self).wf(),
            old(self).room(),
            old(self).speed_range().0 >= 1,
        ensures
            final(self).wf(),
            !old(self).grace_live(task) ==> r is None && final(self).same_state(old(self)),
            old(self).grace_live(task) ==> (r matches Some(a) && Self::advance_core(
                old(self),
                final(self),
                a,
            ) && final(self).pending() is None && !final(self).advancing() && (a is Exhausted
                <==> old(self).generator().exhausted()) && (final(self).current() matches Some(p)
                ==> old(self).generator().can_give(p))),
    {
        if task.session != self.session || self.advance_task != Some(task.id) {
            return None;
        }
        self.advance_task = None;
        self.is_advancing = false;
        Some(self.play_next())
    }

    /// The history once the current prompt's count joins it (unless the
    /// prompt was never played).
    pub open spec fn flushed_history(&self) -> Seq<u64> {
        if self.repeat() != 0 {
            self.history().push(self.repeat())
        } else {
            self.history()
        }
    }

    /// Ending a lesson: every task is cancelled, the current prompt is
    /// dropped (nothing more is played or judged), its count joins the
    /// history, and the statistics are reported when anything was played.
    pub open spec fn end_post(old: &Self, new: &Self, r: LessonEnd) -> bool {
        &&& new.playback() is None
        &&& new.pending() is None
        &&& !new.advancing()
        &&& new.repeat() == 0
        &&& new.history() == old.flushed_history()
        &&& new.session() == old.session()
        &&& new.tallies() == old.tallies()
        &&& new.current() is None
        &&& new.next_id() == old.next_id()
        &&& new.speed_range() == old.speed_range()
        &&& new.freq_range() == old.freq_range()
        &&& new.generator() == old.generator()
        &&& if new.history().len() == 0 {
            r is Bye
        } else {
            r matches LessonEnd::Summary(s) && s.questions == new.history().len()
                && s.mean_hundredths == mean_hundredths_spec(new.history()) && exists|
                order: Seq<usize>,
            |
                is_leaderboard_order(new.tallies(), order) && s.leaderboard@ == order.map_values(
                    |k: usize| new.tallies()[k as int],
                )
        }
    }

    /// Ends the lesson (see [`Self::end_post`]).
    pub fn end(&mut self) -> (r: LessonEnd)
        requires
            old(self).wf(),
        ensures
            final(self).wf(),
            Self::end_post(old(self), final(self), r),
    {
        self.playback_task = None;
        self.advance_task = None;
        self.is_advancing = false;
        self.last_ans = None;
        let c = self.current_repeat;
        if c != 0 {
            self.repeat_counts.push(c);
        }
        self.current_repeat = 0;
        if self.repeat_counts.len() == 0 {
            return LessonEnd::Bye;
        }
        let mean = mean_hundredths(&self.repeat_counts);
        let order = leaderboard_order(&self.user_count);
        let mut leaderboard: Vec<(u64, u64, u64)> = Vec::new();
        let mut k: usize = 0;
        while k < order.len()
            invariant
                k <= order@.len(),
                is_leaderboard_order(self.user_count@, order@),
                leaderboard@ == order@.take(k as int).map_values(|j: usize| self.user_count@[j as int]),
            decreases order@.len() - k,
        {
            leaderboard.push(self.user_count[order[k]]);
            k = k + 1;
            proof {
                assert(leaderboard@ =~= order@.take(k as int).map_values(|j: usize| self.user_count@[j as int]));
            }
        }
        proof {
            assert(order@.take(k as int) =~= order@);
            assert(leaderboard@ =~= order@.map_values(|j: usize| self.tallies()[j as int]));
        }
        LessonEnd::Summary(
            LessonSummary { questions: self.repeat_counts.len() as u64, mean_hundredths: mean, leaderboard },
        )
    }
}

impl LessonModeState {
    /// The prompt up now, if any.
    pub fn get_current(&self) -> (r: Option<&LessonPrompt>)
        ensures
            r matches Some(p) ==> self.current() == Some(*p),
            r is None <==> self.current() is None,
    {
        match &self.last_ans {
            None => None,
            Some(p) => Some(p),
        }
    }

    /// The speed of the current prompt, in WPM.
    pub fn get_speed(&self) -> (r: u32)
        ensures
            r == self.speed(),
    {
        self.last_speed
    }

    /// The tone frequency of the current prompt, in Hz.
    pub fn get_freq(&self) -> (r: u32)
        ensures
            r == self.freq(),
    {
        self.last_freq
    }

    /// How often the current prompt was played.
    pub fn get_repeat(&self) -> (r: u64)
        ensures
            r == self.repeat(),
    {
        self.current_repeat
    }

    /// How often each finished prompt was played.
    pub fn get_history(&self) -> (r: &Vec<u64>)
        ensures
            r@ == self.history(),
    {
        &self.repeat_counts
    }

    /// `(participant, right answers, first right answers)` per participant.
    pub fn get_tallies(&self) -> (r: &Vec<(u64, u64, u64)>)
        ensures
            r@ == self.tallies(),
    {
        &self.user_count
    }

    /// Whether someone answered the current prompt right.
    pub fn is_answered(&self) -> (r: bool)
        ensures
            r == self.answered(),
    {
        self.answered
    }

    /// Whether `task` is the live repeating playback.
    pub fn is_playback_live(&self, task: TaskHandle) -> (r: bool)
        ensures
            r == self.playback_live(task),
    {
        task.session == self.session && self.playback_task == Some(task.id)
    }

    /// Whether `task` is the live grace timer.
    pub fn is_grace_live(&self, task: TaskHandle) -> (r: bool)
        ensures
            r == self.grace_live(task),
    {
        task.session == self.session && self.advance_task == Some(task.id)
    }
}

/// The mean of a non-empty history, in hundredths, rounded half up.
fn mean_hundredths(h: &Vec<u64>) -> (r: u128)
    requires
        h@.len() > 0,
    ensures
        r == mean_hundredths_spec(h@),
{
    let mut sum: u128 = 0;
    let mut i: usize = 0;
    while i < h.len()
        invariant
            i <= h@.len(),
            sum == history_sum(h@.take(i as int)),
            sum <= i * 0xffff_ffff_ffff_ffffu128,
        decreases h@.len() - i,
    {
        proof {
            assert(h@.take(i + 1).drop_last() =~= h@.take(i as int));
        }
        assert(sum + h[i as int] <= (i + 1) * 0xffff_ffff_ffff_ffffu128) by (nonlinear_arith)
            requires sum <= i * 0xffff_ffff_ffff_ffffu128, h[i as int] <= 0xffff_ffff_ffff_ffffu64;
        sum = sum + h[i] as u128;
        i = i + 1;
    }
    proof {
        assert(h@.take(i as int) =~= h@);
    }
    let len = h.len() as u128;
    let q = sum / len;
    let rem = sum % len;
    assert(q <= 0xffff_ffff_ffff_ffffu128) by (nonlinear_arith)
        requires q == sum / len, sum <= len * 0xffff_ffff_ffff_ffffu128, len >= 1;
    let frac = (200 * rem + len) / (2 * len);
    assert(frac <= 100) by (nonlinear_arith)
        requires frac == (200 * rem + len) / (2 * len), rem < len, len >= 1;
    assert(100 * q + frac == (200 * sum + len) / (2 * len)) by (nonlinear_arith)
        requires
            q == sum / len,
            rem == sum % len,
            frac == (200 * rem + len) / (2 * len),
            len >= 1,
    ;
    100 * q + frac
}

/// The order of the leaderboard: indices of `t`, most first right answers
/// first, ties in index order.
fn leaderboard_order(t: &Vec<(u64, u64, u64)>) -> (r: Vec<usize>)
    ensures
        is_leaderboard_order(t@, r@),
{
    let mut order: Vec<usize> = Vec::new();
    let mut i: usize = 0;
    while i < t.len()
        invariant
            i <= t@.len(),
            order@.len() == i,
            forall|k: int| 0 <= k < order@.len() ==> #[trigger] order@[k] < i,
            forall|a: int, b: int| 0 <= a < b < order@.len() ==> #[trigger] order@[a] != #[trigger] order@[b],
            forall|a: int, b: int|
                0 <= a < b < order@.len() ==> #[trigger] t@[order@[a] as int].2 > #[trigger] t@[order@[b] as int].2
                    || (t@[order@[a] as int].2 == t@[order@[b] as int].2 && order@[a] < order@[b]),
        decreases t@.len() - i,
    {
        let key = t[i].2;
        let mut p: usize = 0;
        while p < order.len() && t[order[p]].2 >= key
            invariant
                i < t@.len(),
                p <= order@.len(),
                forall|k: int| 0 <= k < order@.len() ==> #[trigger] order@[k] < i,
                forall|q: int| 0 <= q < p ==> #[trigger] t@[order@[q] as int].2 >= key,
            decreases order@.len() - p,
        {
            p = p + 1;
        }
        let ghost old_order = order@;
        proof {
            // past p every entry ranks below the new one
            assert forall|q: int| p <= q < old_order.len() implies #[trigger] t@[old_order[q] as int].2 < key by {
                if q > p {
                    assert(t@[old_order[p as int] as int].2 > t@[old_order[q] as int].2
                        || t@[old_order[p as int] as int].2 == t@[old_order[q] as int].2);
                }
            }
        }
        order.insert(p, i);
        proof {
            assert forall|k: int| 0 <= k < order@.len() implies #[trigger] order@[k] == if k < p {
                old_order[k]
            } else if k == p {
                i
            } else {
                old_order[k - 1]
            } by {}
            assert forall|a: int, b: int|
                0 <= a < b < order@.len() implies #[trigger] t@[order@[a] as int].2 > #[trigger] t@[order@[b] as int].2
                || (t@[order@[a] as int].2 == t@[order@[b] as int].2 && order@[a] < order@[b]) by {
                if b < p {
                } else if b == p {
                    assert(t@[old_order[a] as int].2 >= key);
                } else if a < p {
                    assert(order@[b] == old_order[b - 1]);
                } else if a == p {
                    assert(order@[b] == old_order[b - 1]);
                    assert(t@[old_order[b - 1] as int].2 < key);
                } else {
                    assert(order@[a] == old_order[a - 1]);
                    assert(order@[b] == old_order[b - 1]);
                }
            }
            assert forall|a: int, b: int|
                0 <= a < b < order@.len() implies #[trigger] order@[a] != #[trigger] order@[b] by {
                if a != p && b != p {
                    let a0 = if a < p { a } else { a - 1 };
                    let b0 = if b < p { b } else { b - 1 };
                    assert(old_order[a0] != old_order[b0]);
                }
            }
        }
        i = i + 1;
    }
    order
}

/// The two digits of a number below 100.
pub open spec fn two_digits(n: nat) -> Seq<char> {
    seq![digit_char(n / 10), digit_char(n % 10)]
}

/// The leaderboard lines: `mention: first / right`, one per line.
pub open spec fn leaderboard_lines(lb: Seq<(u64, u64, u64)>, mentions: Seq<Seq<char>>) -> Seq<char>
    decreases lb.len(),
{
    if lb.len() == 0 || mentions.len() < lb.len() {
        Seq::empty()
    } else {
        let k = lb.len() - 1;
        leaderboard_lines(lb.drop_last(), mentions) + mentions[k] + ": "@ + decimal_spec(
            lb[k].2 as nat,
        ) + " / "@ + decimal_spec(lb[k].1 as nat) + "\n"@
    }
}

/// The report of a lesson's statistics.
pub open spec fn summary_text(s: &LessonSummary, mentions: Seq<Seq<char>>) -> Seq<char> {
    "# Lesson Result\n\ntotal questions: "@ + decimal_spec(s.questions as nat) + "\naverage retry: "@
        + decimal_spec((s.mean_hundredths / 100) as nat) + "."@ + two_digits(
        (s.mean_hundredths % 100) as nat,
    ) + "\n\n(🥇 / ⭕)\n"@ + leaderboard_lines(s.leaderboard@, mentions) + "\nGood job!"@
}

impl LessonSummary {
    /// The report, with `mentions[i]` naming the participant of
    /// `leaderboard[i]`.
    pub fn render(&self, mentions: &Vec<String>) -> (r: String)
        requires
            mentions@.len() == self.leaderboard@.len(),
        ensures
            r@ == summary_text(self, mentions@.map_values(|m: String| m@)),
    {
        let ghost ms = mentions@.map_values(|m: String| m@);
        let mut out = String::new();
        out.append("# Lesson Result\n\ntotal questions: ");
        push_decimal(self.questions as u128, &mut out);
        out.append("\naverage retry: ");
        push_decimal(self.mean_hundredths / 100, &mut out);
        out.append(".");
        let cents = self.mean_hundredths % 100;
        push_decimal(cents / 10, &mut out);
        push_decimal(cents % 10, &mut out);
        proof {
            assert(decimal_spec((cents / 10) as nat) =~= seq![digit_char((cents / 10) as nat)]);
            assert(decimal_spec((cents % 10) as nat) =~= seq![digit_char((cents % 10) as nat)]);
        }
        out.append("\n\n(🥇 / ⭕)\n");
        let ghost head = out@;
        let mut k: usize = 0;
        while k < self.leaderboard.len()
            invariant
                k <= self.leaderboard@.len(),
                mentions@.len() == self.leaderboard@.len(),
                ms == mentions@.map_values(|m: String| m@),
                out@ == head + leaderboard_lines(self.leaderboard@.take(k as int), ms),
            decreases self.leaderboard@.len() - k,
        {
            let (_user, right, first) = self.leaderboard[k];
            out.append(mentions[k].as_str());
            out.append(": ");
            push_decimal(first as u128, &mut out);
            out.append(" / ");
            push_decimal(right as u128, &mut out);
            out.append("\n");
            proof {
                let lb = self.leaderboard@.take(k + 1);
                assert(lb.drop_last() =~= self.leaderboard@.take(k as int));
                assert(out@ =~= head + leaderboard_lines(lb, ms));
            }
            k = k + 1;
        }
        out.append("\nGood job!");
        proof {
            assert(self.leaderboard@.take(k as int) =~= self.leaderboard@);
            assert(out@ =~= summary_text(self, ms));
        }
        out
    }
}

/// Advancing twice from an exhausted source puts up no prompt either time
/// and leaves the session as the first advance left it.
pub proof fn lemma_exhausted_advance_idempotent(
    s0: LessonModeState,
    s1: LessonModeState,
    s2: LessonModeState,
    r1: Advance,
    r2: Advance,
)
    requires
        s0.generator().exhausted(),
        LessonModeState::advance_post(&s0, &s1, r1),
        LessonModeState::advance_post(&s1, &s2, r2),
    ensures
        r1 is Exhausted,
        r2 is Exhausted,
        s1.current() is None,
        s2.current() is None,
        s2.same_state(&s1),
{
}

/// Advance `j` of a run led from state `j` to state `j + 1` and put up a
/// prompt.
pub open spec fn advance_step_played(states: Seq<LessonModeState>, rs: Seq<Advance>, j: int) -> bool {
    LessonModeState::advance_post(&states[j], &states[j + 1], rs[j]) && rs[j] is Play
}

/// Each advance hands out the next task identity.
proof fn lemma_advance_ids(states: Seq<LessonModeState>, rs: Seq<Advance>, k: int)
    requires
        states.len() == rs.len() + 1,
        0 <= k <= rs.len(),
        forall|j: int| 0 <= j < rs.len() ==> #[trigger] advance_step_played(states, rs, j),
    ensures
        states[k].next_id() == states[0].next_id() + k,
    decreases k,
{
    if k > 0 {
        lemma_advance_ids(states, rs, k - 1);
        assert(advance_step_played(states, rs, k - 1));
    }
}

/// After consecutive advances that each put up a prompt, the playback task
/// of the last one is live and that of every earlier one is cancelled.
pub proof fn lemma_single_live_playback(states: Seq<LessonModeState>, rs: Seq<Advance>)
    requires
        rs.len() >= 1,
        states.len() == rs.len() + 1,
        forall|j: int| 0 <= j < rs.len() ==> #[trigger] advance_step_played(states, rs, j),
    ensures
        states.last().playback_live(rs.last()->Play_0.task),
        forall|k: int| 0 <= k < rs.len() - 1 ==> !states.last().playback_live(#[trigger] rs[k]->Play_0.task),
{
    let n = rs.len() as int;
    assert(advance_step_played(states, rs, n - 1));
    lemma_advance_ids(states, rs, n - 1);
    assert forall|k: int| 0 <= k < rs.len() - 1 implies !states.last().playback_live(
        #[trigger] rs[k]->Play_0.task,
    ) by {
        assert(advance_step_played(states, rs, k));
        lemma_advance_ids(states, rs, k);
    }
}

/// Two participants answer the current prompt right, one after the other,
/// before the grace timer elapses: both are credited, only the first with a
/// first right answer, and the one grace timer armed by the first answer is
/// the only one pending, so exactly one advance follows.
pub proof fn lemma_grace_race(
    s0: LessonModeState,
    s1: LessonModeState,
    s2: LessonModeState,
    a: u64,
    b: u64,
    text_a: Seq<char>,
    text_b: Seq<char>,
    r1: Option<Submission>,
    r2: Option<Submission>,
)
    requires
        s0.wf(),
        s0.current() is Some,
        !s0.answered(),
        !s0.advancing(),
        a != b,
        s0.current()->0.accepts(text_a),
        s0.current()->0.accepts(text_b),
        LessonModeState::submit_post(&s0, &s1, a, text_a, r1),
        LessonModeState::submit_post(&s1, &s2, b, text_b, r2),
    ensures
        r1 matches Some(x) && x.feedback == Feedback::FirstCorrect && x.grace == Some(
            (TaskHandle { session: s0.session(), id: s0.next_id() }),
        ),
        r2 matches Some(y) && y.feedback == Feedback::AlreadyCorrect && y.grace is None,
        s2.tallies() == credit(credit(s0.tallies(), a, true), b, false),
        forall|h: TaskHandle|
            s2.grace_live(h) <==> (h == (TaskHandle { session: s0.session(), id: s0.next_id() })),
        s2.playback() is None,
{
}

/// A plain prompt that nobody answered yet, answered with exactly its own
/// text: the answer is the first right one, it is credited as such, and it
/// arms the grace timer when none is pending.
pub proof fn lemma_own_text_is_first_correct(
    s: LessonModeState,
    t: LessonModeState,
    user: u64,
    r: Option<Submission>,
)
    requires
        s.current() matches Some(p) && p is Plain,
        !s.answered(),
        !s.advancing(),
        LessonModeState::submit_post(&s, &t, user, s.current()->0.text(), r),
    ensures
        r matches Some(x) && x.feedback == Feedback::FirstCorrect && x.grace == Some(
            (TaskHandle { session: s.session(), id: s.next_id() }),
        ),
        t.tallies() == credit(s.tallies(), user, true),
        t.answered(),
{
}

} // verus!
