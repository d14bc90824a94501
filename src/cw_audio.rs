//! The keyed-tone stream: a timeline of keyed and silent segments in samples,
//! and a cursor that hands it out in runs. Turning a run into PCM samples
//! (the sine tone and its raised-cosine fades) is the caller's part.
use vstd::prelude::*;

use crate::morse::{get_morse_str, phrase_duration, phrase_duration_spec, text_spans, Span};

verus! {

/// Samples in one dot at `wpm` words per minute and `srate` samples per
/// second: six fifths of a second divided by the speed, rounded down.
pub open spec fn dot_samples(wpm: u32, srate: u32) -> nat {
    ((6 * srate as nat) / (5 * wpm as nat)) as nat
}

/// The timeline of `t`: each span of its keying plan, scaled to samples.
pub open spec fn timeline_spec(t: Seq<char>, wpm: u32, srate: u32) -> Seq<(u64, bool)> {
    text_spans(t).map_values(|s: Span| ((s.0 as nat * dot_samples(wpm, srate)) as u64, s.1))
}

/// A piece of one timeline segment handed out by [`CWAudioPCM::fill`]:
/// `len` samples starting `offset` samples into segment `segment`, which is
/// `segment_len` samples long and keyed when `on`.
#[derive(Clone, Copy, Debug, PartialEq, Eq)]
pub struct KeyedRun {
    pub segment: usize,
    pub offset: u64,
    pub len: usize,
    pub segment_len: u64,
    pub on: bool,
}

/// Where a sample stands with respect to the fades of its segment.
#[derive(Clone, Copy, Debug, PartialEq, Eq)]
pub enum Envelope {
    /// `pos` samples into the fade-in.
    FadeIn(u64),
    /// `rem` samples before the end of the segment, inside the fade-out.
    FadeOut(u64),
    /// Between the fades: full level.
    Full,
}

/// Why the stream refused an operation.
#[derive(Clone, Copy, Debug, PartialEq, Eq)]
pub enum StreamError {
    /// The stream cannot seek.
    NotSeekable,
}

/// A resumable, non-seekable keyed-tone stream over a fixed timeline.
/// The cursor is the segment `epos` and the offset `spos` inside it; the
/// stream ends when the cursor reaches the final segment.
pub struct CWAudioPCM {
    epos: usize,
    spos: u64,
    events: Vec<(u64, bool)>,
    freq: u32,
    srate: u32,
}

/// The total length of runs, in samples.
pub open spec fn runs_total(r: Seq<KeyedRun>) -> nat
    decreases r.len(),
{
    if r.len() == 0 {
        0
    } else {
        runs_total(r.drop_last()) + r.last().len as nat
    }
}

/// Length of the fades at each tone transition: 10 ms of samples.
pub open spec fn envelope_len_spec(srate: u32) -> u64 {
    (srate / 100) as u64
}

/// Where sample `pos` of a keyed segment of `length` samples stands with
/// respect to fades of `env_len` samples. The fade-in wins where the two
/// overlap.
pub open spec fn envelope_spec(pos: u64, length: u64, env_len: u64) -> Envelope {
    if pos < env_len {
        Envelope::FadeIn(pos)
    } else if pos + env_len > length {
        Envelope::FadeOut(if length >= pos { (length - pos) as u64 } else { 0 })
    } else {
        Envelope::Full
    }
}

/// Classifies sample `pos` of a keyed segment (see [`envelope_spec`]).
pub fn envelope_at(pos: u64, length: u64, env_len: u64) -> (r: Envelope)
    ensures
        r == envelope_spec(pos, length, env_len),
{
    if pos < env_len {
        Envelope::FadeIn(pos)
    } else if pos as u128 + env_len as u128 > length as u128 {
        Envelope::FadeOut(length.saturating_sub(pos))
    } else {
        Envelope::Full
    }
}

impl CWAudioPCM {
    /// The timeline.
    pub closed spec fn events(&self) -> Seq<(u64, bool)> {
        self.events@
    }

    /// The segment the cursor stands in.
    pub closed spec fn cursor_segment(&self) -> int {
        self.epos as int
    }

    /// How far into that segment the cursor stands, in samples.
    pub closed spec fn cursor_offset(&self) -> int {
        self.spos as int
    }

    /// The tone frequency, in Hz.
    pub closed spec fn freq_spec(&self) -> u32 {
        self.freq
    }

    /// The sample rate, in samples per second.
    pub closed spec fn srate_spec(&self) -> u32 {
        self.srate
    }

    /// The timeline is non-empty with positive segments, and the cursor
    /// stands inside it: inside a segment before the final one, or at the
    /// start of the final one.
    pub open spec fn wf(&self) -> bool {
        &&& self.events().len() >= 1
        &&& forall|k: int| 0 <= k < self.events().len() ==> #[trigger] self.events()[k].0 > 0
        &&& 0 <= self.cursor_segment() < self.events().len()
        &&& 0 <= self.cursor_offset() < self.events()[self.cursor_segment()].0
        &&& self.cursor_segment() == self.events().len() - 1 ==> self.cursor_offset() == 0
    }

    /// Whether the stream has ended.
    pub open spec fn finished_spec(&self) -> bool {
        self.cursor_segment() == self.events().len() - 1
    }

    /// The stream of `text` keyed at `wpm` words per minute with a tone of
    /// `freq` Hz, at `srate` samples per second, with the cursor at its
    /// start. The speed must leave a dot at least one sample long.
    pub fn new(text: &str, wpm: u32, freq: u32, srate: u32) -> (r: Self)
        requires
            wpm >= 1,
            5 * wpm <= 6 * srate,
        ensures
            r.wf(),
            r.events() == timeline_spec(text@, wpm, srate),
            r.cursor_segment() == 0,
            r.cursor_offset() == 0,
            r.freq_spec() == freq,
            r.srate_spec() == srate,
    {
        let spans = get_morse_str(text);
        let dot: u64 = (6 * srate as u64) / (5 * wpm as u64);
        assert(dot as nat == dot_samples(wpm, srate));
        assert(dot >= 1 && dot <= 6 * 0x1_0000_0000u64) by (nonlinear_arith)
            requires
                dot == (6 * srate as u64) / (5 * wpm as u64),
                wpm >= 1,
                5 * wpm <= 6 * srate,
                srate <= 0xffff_ffff,
        ;
        proof {
            assert(spans@[0] == (2u8, false));
        }
        let mut events: Vec<(u64, bool)> = Vec::new();
        let mut i: usize = 0;
        while i < spans.len()
            invariant
                i <= spans.len(),
                spans@ == text_spans(text@),
                dot as nat == dot_samples(wpm, srate),
                1 <= dot <= 6 * 0x1_0000_0000u64,
                events@ == timeline_spec(text@, wpm, srate).take(i as int),
                forall|k: int| 0 <= k < events@.len() ==> #[trigger] events@[k].0 > 0,
            decreases spans.len() - i,
        {
            let (units, on) = spans[i];
            assert(units >= 1) by {
                lemma_span_units_positive(text@, i as int);
            }
            assert(units as u64 * dot <= 255 * 6 * 0x1_0000_0000u64) by (nonlinear_arith)
                requires units <= 255, dot <= 6 * 0x1_0000_0000u64;
            assert(units as u64 * dot >= 1) by (nonlinear_arith)
                requires units >= 1, dot >= 1;
            events.push((units as u64 * dot, on));
            i = i + 1;
            proof {
                assert(events@ =~= timeline_spec(text@, wpm, srate).take(i as int));
            }
        }
        proof {
            assert(events@ =~= timeline_spec(text@, wpm, srate));
        }
        CWAudioPCM { epos: 0, spos: 0, events, freq, srate }
    }

    /// How long `s` takes to send at `wpm` words per minute, in nanoseconds.
    pub fn get_duration(s: &str, wpm: u32) -> (r: u128)
        requires
            wpm >= 1,
        ensures
            r == phrase_duration_spec(s@, wpm),
    {
        phrase_duration(s, wpm)
    }

    /// The tone frequency, in Hz.
    pub fn freq(&self) -> (r: u32)
        ensures
            r == self.freq_spec(),
    {
        self.freq
    }

    /// The sample rate, in samples per second.
    pub fn sample_rate(&self) -> (r: u32)
        ensures
            r == self.srate_spec(),
    {
        self.srate
    }

    /// Length of the fades at each tone transition, in samples (10 ms).
    pub fn envelope_len(&self) -> (r: u64)
        ensures
            r == envelope_len_spec(self.srate_spec()),
    {
        (self.srate / 100) as u64
    }

    /// Whether the stream has ended.
    pub fn is_finished(&self) -> (r: bool)
        requires
            self.wf(),
        ensures
            r == self.finished_spec(),
    {
        self.epos == self.events.len() - 1
    }

    /// The stream cannot seek: every attempt fails.
    pub fn seek(&mut self, _pos: u64) -> (r: Result<u64, StreamError>)
        ensures
            r == Err::<u64, StreamError>(StreamError::NotSeekable),
            *final(self) == *old(self),
    {
        Err(StreamError::NotSeekable)
    }

    /// Hands out up to `capacity` samples of the stream, as consecutive runs
    /// from the cursor on, and advances the cursor past them. Fewer are
    /// handed out only where the stream ends; none once it has ended.
    pub fn fill(&mut self, capacity: usize) -> (r: Vec<KeyedRun>)
        requires
            old(self).wf(),
        ensures
            final(self).wf(),
            final(self).events() == old(self).events(),
            final(self).freq_spec() == old(self).freq_spec(),
            final(self).srate_spec() == old(self).srate_spec(),
            runs_total(r@) <= capacity,
            runs_total(r@) == capacity || final(self).finished_spec(),
            forall|k: int|
                0 <= k < r@.len() ==> {
                    let run = #[trigger] r@[k];
                    &&& run.len > 0
                    &&& 0 <= run.segment < old(self).events().len() - 1
                    &&& run.segment_len == old(self).events()[run.segment as int].0
                    &&& run.on == old(self).events()[run.segment as int].1
                    &&& run.offset + run.len <= run.segment_len
                },
            r@.len() > 0 ==> r@[0].segment == old(self).cursor_segment() && r@[0].offset
                == old(self).cursor_offset(),
            forall|k: int|
                0 <= k < r@.len() - 1 ==> {
                    &&& #[trigger] r@[k].offset + r@[k].len == r@[k].segment_len
                    &&& r@[k + 1].segment == r@[k].segment + 1
                    &&& r@[k + 1].offset == 0
                },
            r@.len() == 0 ==> final(self).cursor_segment() == old(self).cursor_segment()
                && final(self).cursor_offset() == old(self).cursor_offset(),
            r@.len() > 0 ==> {
                let last = r@.last();
                if last.offset + last.len == last.segment_len {
                    final(self).cursor_segment() == last.segment + 1 && final(self).cursor_offset()
                        == 0
                } else {
                    final(self).cursor_segment() == last.segment && final(self).cursor_offset()
                        == last.offset + last.len
                }
            },
    {
        let mut runs: Vec<KeyedRun> = Vec::new();
        let mut left: usize = capacity;
        let ghost start_seg = self.epos as int;
        let ghost start_off = self.spos as int;
        while self.epos < self.events.len() - 1 && left > 0
            invariant
                self.wf(),
                self.events() == old(self).events(),
                self.freq == old(self).freq,
                self.srate == old(self).srate,
                start_seg == old(self).cursor_segment(),
                start_off == old(self).cursor_offset(),
                left <= capacity,
                runs_total(runs@) + left == capacity,
                forall|k: int|
                    0 <= k < runs@.len() ==> {
                        let run = #[trigger] runs@[k];
                        &&& run.len > 0
                        &&& 0 <= run.segment < old(self).events().len() - 1
                        &&& run.segment_len == old(self).events()[run.segment as int].0
                        &&& run.on == old(self).events()[run.segment as int].1
                        &&& run.offset + run.len <= run.segment_len
                    },
                runs@.len() > 0 ==> runs@[0].segment == start_seg && runs@[0].offset == start_off,
                forall|k: int|
                    0 <= k < runs@.len() - 1 ==> {
                        &&& #[trigger] runs@[k].offset + runs@[k].len == runs@[k].segment_len
                        &&& runs@[k + 1].segment == runs@[k].segment + 1
                        &&& runs@[k + 1].offset == 0
                    },
                runs@.len() == 0 ==> self.epos == start_seg && self.spos == start_off,
                runs@.len() > 0 && runs@.last().offset + runs@.last().len < runs@.last().segment_len
                    ==> left == 0,
                runs@.len() > 0 ==> {
                    let last = runs@.last();
                    if last.offset + last.len == last.segment_len {
                        self.epos == last.segment + 1 && self.spos == 0
                    } else {
                        self.epos == last.segment && self.spos == last.offset + last.len
                    }
                },
            decreases left,
        {
            let (length, on) = self.events[self.epos];
            let t: u64 = length - self.spos;
            let c: u64 = if (left as u64) < t {
                left as u64
            } else {
                t
            };
            let run = KeyedRun {
                segment: self.epos,
                offset: self.spos,
                len: c as usize,
                segment_len: length,
                on,
            };
            let ghost prev = runs@;
            runs.push(run);
            proof {
                assert(runs@.drop_last() =~= prev);
            }
            left = left - c as usize;
            if c == t {
                self.epos = self.epos + 1;
                self.spos = 0;
            } else {
                self.spos = self.spos + c;
            }
        }
        runs
    }
}

/// Every span of a keying plan is at least one unit long.
proof fn lemma_span_units_positive(t: Seq<char>, i: int)
    requires
        0 <= i < text_spans(t).len(),
    ensures
        text_spans(t)[i].0 >= 1,
{
    crate::morse::lemma_spans_bounded(t);
    assert(1 <= text_spans(t)[i].0);
}

} // verus!
