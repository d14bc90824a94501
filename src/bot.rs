//! The calls the bot is in, and what each is doing: nothing, or a lesson.
use vstd::prelude::*;

use crate::session::{Advance, LessonEnd, LessonModeState, RepeatPlay, Submission, TaskHandle};
use crate::text::upper_of;
use std::collections::HashMap;

verus! {

/// The mode of a call.
pub enum BotStateMode {
    /// No lesson: messages are just played.
    Normal,
    /// A lesson runs.
    Lesson(LessonModeState),
}

impl Default for BotStateMode {
    fn default() -> (r: Self)
        ensures
            r is Normal,
    {
        BotStateMode::Normal
    }
}

impl BotStateMode {
    /// A lesson in the mode is well formed, with a positive lowest speed.
    pub open spec fn wf(&self) -> bool {
        match self {
            BotStateMode::Normal => true,
            BotStateMode::Lesson(s) => s.wf() && s.speed_range().0 >= 1,
        }
    }

    /// Winds the mode down before it is replaced: a lesson is ended (its
    /// tasks cancelled) and its report returned; the normal mode has none.
    pub fn discard(&mut self) -> (r: Option<LessonEnd>)
        requires
            old(self).wf(),
        ensures
            final(self).wf(),
            *old(self) is Normal ==> (r is None && *final(self) is Normal),
            *old(self) is Lesson ==> (*final(self) is Lesson && (r matches Some(e)
                && LessonModeState::end_post(&old(self)->Lesson_0, &final(self)->Lesson_0, e))),
    {
        match self {
            BotStateMode::Normal => None,
            BotStateMode::Lesson(s) => Some(s.end()),
        }
    }
}

/// Why a call operation failed.
#[derive(Clone, Copy, Debug, PartialEq, Eq)]
pub enum BotError {
    /// The bot is already in a call of that guild.
    AlreadyInCall,
    /// The bot is in no call of that guild.
    NotInCall,
    /// The lesson's identity was handed out before (see
    /// [`Bot::new_session_id`]), so timers of an older lesson could act on it.
    StaleSession,
}

/// What to do with a message in a call's text channel.
pub enum MessageAction {
    /// Nothing: not in a call, another channel, a muted message, or no room
    /// left in the lesson's counters.
    Ignore,
    /// Play the message as Morse code.
    PlayText,
    /// The lesson judged it.
    Lesson(Option<Submission>),
}

/// One call: the text channel bound to it and what it is doing.
pub struct BotState {
    pub txt_ch: u64,
    pub mode: BotStateMode,
}

/// The calls the bot is in, by guild, and the identity the next lesson
/// gets.
pub struct Bot {
    states: HashMap<u64, BotState>,
    next_session: u64,
}

impl Bot {
    /// The calls, by guild.
    pub closed spec fn calls(&self) -> Map<u64, BotState> {
        self.states@
    }

    /// The least lesson identity not handed out yet.
    pub closed spec fn next_session(&self) -> u64 {
        self.next_session
    }

    /// Every mode is well formed, and every lesson's identity was handed
    /// out already.
    pub open spec fn wf(&self) -> bool {
        forall|g: u64|
            #[trigger] self.calls().contains_key(g) ==> self.calls()[g].mode.wf() && (
            self.calls()[g].mode is Lesson ==> self.calls()[g].mode->Lesson_0.session()
                < self.next_session())
    }

    /// No calls.
    pub fn new() -> (r: Self)
        ensures
            r.wf(),
            r.calls() == Map::<u64, BotState>::empty(),
            r.next_session() == 0,
    {
        Bot { states: HashMap::new(), next_session: 0 }
    }

    /// The identity to give the next lesson of any call: larger than that
    /// of every lesson installed so far.
    pub fn new_session_id(&self) -> (r: u64)
        ensures
            r == self.next_session(),
    {
        self.next_session
    }

    /// Joins a call of `guild`, bound to text channel `ch`, in the normal
    /// mode; fails when already in a call of that guild.
    pub fn add_call_state(&mut self, guild_id: u64, ch: u64) -> (r: Result<(), BotError>)
        requires
            old(self).wf(),
        ensures
            final(self).wf(),
            final(self).next_session() == old(self).next_session(),
            old(self).calls().contains_key(guild_id) ==> r == Err::<(), BotError>(
                BotError::AlreadyInCall,
            ) && final(self).calls() == old(self).calls(),
            !old(self).calls().contains_key(guild_id) ==> r is Ok && final(self).calls()
                == old(self).calls().insert(guild_id, (BotState { txt_ch: ch, mode: BotStateMode::Normal })),
    {
        broadcast use vstd::std_specs::hash::group_hash_axioms;

        if self.states.contains_key(&guild_id) {
            return Err(BotError::AlreadyInCall);
        }
        self.states.insert(guild_id, BotState { txt_ch: ch, mode: BotStateMode::Normal });
        proof {
            assert forall|g: u64| #[trigger] self.calls().contains_key(g) implies self.calls()[g].mode.wf()
                && (self.calls()[g].mode is Lesson ==> self.calls()[g].mode->Lesson_0.session()
                < self.next_session()) by {
                if g != guild_id {
                    assert(old(self).calls().contains_key(g));
                }
            }
        }
        Ok(())
    }

    /// The text channel of the call of `guild`.
    pub fn get_call_txt_ch(&self, guild_id: u64) -> (r: Result<u64, BotError>)
        requires
            self.wf(),
        ensures
            !self.calls().contains_key(guild_id) ==> r == Err::<u64, BotError>(BotError::NotInCall),
            self.calls().contains_key(guild_id) ==> r == Ok::<u64, BotError>(
                self.calls()[guild_id].txt_ch,
            ),
    {
        broadcast use vstd::std_specs::hash::group_hash_axioms;

        match self.states.get(&guild_id) {
            None => Err(BotError::NotInCall),
            Some(st) => Ok(st.txt_ch),
        }
    }

    /// The mode of the call of `guild`.
    pub fn get_call_mode(&self, guild_id: u64) -> (r: Result<&BotStateMode, BotError>)
        requires
            self.wf(),
        ensures
            !self.calls().contains_key(guild_id) ==> r is Err,
            self.calls().contains_key(guild_id) ==> (r matches Ok(m) && *m
                == self.calls()[guild_id].mode),
    {
        broadcast use vstd::std_specs::hash::group_hash_axioms;

        match self.states.get(&guild_id) {
            None => Err(BotError::NotInCall),
            Some(st) => Ok(&st.mode),
        }
    }

    /// Replaces the mode of the call of `guild`, winding the old one down: a
    /// replaced lesson is ended and its report returned. A new lesson must
    /// carry an identity from [`Self::new_session_id`].
    pub fn switch_mode(&mut self, guild_id: u64, mode: BotStateMode) -> (r: Result<Option<LessonEnd>, BotError>)
        requires
            old(self).wf(),
            mode.wf(),
        ensures
            final(self).wf(),
            !old(self).calls().contains_key(guild_id) ==> r == Err::<Option<LessonEnd>, BotError>(
                BotError::NotInCall,
            ) && final(self).calls() == old(self).calls() && final(self).next_session()
                == old(self).next_session(),
            old(self).calls().contains_key(guild_id) && mode is Lesson && (mode->Lesson_0.session()
                < old(self).next_session() || mode->Lesson_0.session() == u64::MAX) ==> r == Err::<
                Option<LessonEnd>,
                BotError,
            >(BotError::StaleSession) && final(self).calls() == old(self).calls()
                && final(self).next_session() == old(self).next_session(),
            r is Ok ==> ({
                let old_mode = old(self).calls()[guild_id].mode;
                &&& old(self).calls().contains_key(guild_id)
                &&& final(self).calls().dom() == old(self).calls().dom()
                &&& final(self).calls()[guild_id].txt_ch == old(self).calls()[guild_id].txt_ch
                &&& final(self).calls()[guild_id].mode == mode
                &&& forall|g: u64| g != guild_id && #[trigger] old(self).calls().contains_key(g)
                    ==> final(self).calls()[g] == old(self).calls()[g]
                &&& mode is Lesson ==> final(self).next_session() == mode->Lesson_0.session() + 1
                &&& mode is Normal ==> final(self).next_session() == old(self).next_session()
                &&& old_mode is Normal ==> r == Ok::<Option<LessonEnd>, BotError>(None)
                &&& old_mode is Lesson ==> (r matches Ok(Some(e)) && exists|t: LessonModeState|
                    LessonModeState::end_post(&old_mode->Lesson_0, &t, e))
            }),
            old(self).calls().contains_key(guild_id) && !(mode is Lesson && (mode->Lesson_0.session()
                < old(self).next_session() || mode->Lesson_0.session() == u64::MAX)) ==> r is Ok,
    {
        broadcast use vstd::std_specs::hash::group_hash_axioms;

        if !self.states.contains_key(&guild_id) {
            return Err(BotError::NotInCall);
        }
        let next = match &mode {
            BotStateMode::Normal => self.next_session,
            BotStateMode::Lesson(s) => {
                let id = s.session_id();
                if id < self.next_session || id == u64::MAX {
                    return Err(BotError::StaleSession);
                }
                id + 1
            },
        };
        let previous = self.states.remove(&guild_id);
        match previous {
            None => Err(BotError::NotInCall),
            Some(st) => {
                let ghost old_mode = st.mode;
                proof {
                    assert(old(self).calls().contains_key(guild_id));
                }
                let mut replaced = st.mode;
                self.states.insert(guild_id, BotState { txt_ch: st.txt_ch, mode });
                self.next_session = next;
                let report = replaced.discard();
                proof {
                    assert forall|g: u64| #[trigger] self.calls().contains_key(g) implies self.calls()[g].mode.wf()
                        && (self.calls()[g].mode is Lesson ==> self.calls()[g].mode->Lesson_0.session()
                        < self.next_session()) by {
                        if g != guild_id {
                            assert(old(self).calls().contains_key(g));
                        }
                    }
                    assert(self.calls().dom() =~= old(self).calls().dom());
                    if old_mode is Lesson {
                        assert(LessonModeState::end_post(&old_mode->Lesson_0, &replaced->Lesson_0, report->0));
                    }
                }
                Ok(report)
            },
        }
    }

    /// Leaves the call of `guild`, winding its mode down: a lesson is ended
    /// and its report returned.
    pub fn erase_call_state(&mut self, guild_id: u64) -> (r: Result<Option<LessonEnd>, BotError>)
        requires
            old(self).wf(),
        ensures
            final(self).wf(),
            final(self).next_session() == old(self).next_session(),
            !old(self).calls().contains_key(guild_id) ==> r == Err::<Option<LessonEnd>, BotError>(
                BotError::NotInCall,
            ) && final(self).calls() == old(self).calls(),
            old(self).calls().contains_key(guild_id) ==> ({
                let old_mode = old(self).calls()[guild_id].mode;
                &&& final(self).calls() == old(self).calls().remove(guild_id)
                &&& old_mode is Normal ==> r == Ok::<Option<LessonEnd>, BotError>(None)
                &&& old_mode is Lesson ==> (r matches Ok(Some(e)) && exists|t: LessonModeState|
                    LessonModeState::end_post(&old_mode->Lesson_0, &t, e))
            }),
    {
        broadcast use vstd::std_specs::hash::group_hash_axioms;

        match self.states.remove(&guild_id) {
            None => Err(BotError::NotInCall),
            Some(st) => {
                let ghost old_mode = st.mode;
                let mut previous = st.mode;
                proof {
                    assert(old(self).calls().contains_key(guild_id));
                    assert forall|g: u64| #[trigger] self.calls().contains_key(g) implies self.calls()[g].mode.wf()
                        && (self.calls()[g].mode is Lesson ==> self.calls()[g].mode->Lesson_0.session()
                        < self.next_session()) by {
                        assert(old(self).calls().contains_key(g));
                    }
                }
                let report = previous.discard();
                proof {
                    if old_mode is Lesson {
                        assert(LessonModeState::end_post(&old_mode->Lesson_0, &previous->Lesson_0, report->0));
                    }
                }
                Ok(report)
            },
        }
    }

    /// Routes a message of `user` in `channel` of `guild`: ignored outside
    /// the call's text channel; in the normal mode played unless it starts
    /// with ';'; in a lesson judged as a candidate answer.
    pub fn message(&mut self, guild_id: u64, channel: u64, user: u64, text: &str) -> (r: MessageAction)
        requires
            old(self).wf(),
        ensures
            final(self).wf(),
            final(self).next_session() == old(self).next_session(),
            final(self).calls().dom() == old(self).calls().dom(),
            !old(self).calls().contains_key(guild_id) ==> r is Ignore,
            old(self).calls().contains_key(guild_id) && old(self).calls()[guild_id].txt_ch != channel
                ==> r is Ignore && final(self).calls() == old(self).calls(),
            old(self).calls().contains_key(guild_id) && old(self).calls()[guild_id].txt_ch == channel
                && old(self).calls()[guild_id].mode is Normal ==> (r is PlayText <==> !(text@.len()
                > 0 && text@[0] == ';')),
            old(self).calls().contains_key(guild_id) && old(self).calls()[guild_id].txt_ch == channel
                ==> ({
                let s = old(self).calls()[guild_id].mode->Lesson_0;
                let t = final(self).calls()[guild_id].mode->Lesson_0;
                old(self).calls()[guild_id].mode is Lesson && s.room() ==> (final(self).calls()[guild_id].mode is Lesson
                    && (r matches MessageAction::Lesson(sub)
                    && LessonModeState::submit_post(&s, &t, user, upper_of(text@), sub)))
            }),
    {
        broadcast use vstd::std_specs::hash::group_hash_axioms;

        let ch = match self.states.get(&guild_id) {
            None => {
                return MessageAction::Ignore;
            },
            Some(st) => st.txt_ch,
        };
        if ch != channel {
            return MessageAction::Ignore;
        }
        let st = match self.states.remove(&guild_id) {
            None => {
                return MessageAction::Ignore;
            },
            Some(st) => st,
        };
        proof {
            assert(old(self).calls().contains_key(guild_id));
        }
        let mut mode = st.mode;
        let action = match &mut mode {
            BotStateMode::Normal => {
                let cs = crate::text::chars_of(text);
                if cs.len() > 0 && cs[0] == ';' {
                    MessageAction::Ignore
                } else {
                    MessageAction::PlayText
                }
            },
            BotStateMode::Lesson(s) => {
                if s.has_room() {
                    MessageAction::Lesson(s.on_message(user, text))
                } else {
                    MessageAction::Ignore
                }
            },
        };
        self.states.insert(guild_id, BotState { txt_ch: st.txt_ch, mode });
        proof {
            assert(self.calls().dom() =~= old(self).calls().dom().insert(guild_id));
            assert(self.calls().dom() =~= old(self).calls().dom());
            self.lemma_reinsert_wf(old(self), guild_id);
        }
        action
    }

    /// After putting a call back with its lesson identity unchanged, the
    /// registry is well formed again.
    proof fn lemma_reinsert_wf(&self, old: &Self, guild_id: u64)
        requires
            old.wf(),
            old.calls().contains_key(guild_id),
            self.next_session() == old.next_session(),
            self.calls().dom() == old.calls().dom().insert(guild_id),
            forall|g: u64| g != guild_id && #[trigger] old.calls().contains_key(g) ==> self.calls()[g]
                == old.calls()[g],
            self.calls()[guild_id].mode.wf(),
            self.calls()[guild_id].mode is Lesson <==> old.calls()[guild_id].mode is Lesson,
            self.calls()[guild_id].mode is Lesson ==> self.calls()[guild_id].mode->Lesson_0.session()
                == old.calls()[guild_id].mode->Lesson_0.session(),
        ensures
            self.wf(),
    {
        assert forall|g: u64| #[trigger] self.calls().contains_key(g) implies self.calls()[g].mode.wf()
            && (self.calls()[g].mode is Lesson ==> self.calls()[g].mode->Lesson_0.session()
            < self.next_session()) by {
            if g != guild_id {
                assert(old.calls().contains_key(g));
            }
        }
    }

    /// One repeat of the lesson playback `task` of the call of `guild`;
    /// nothing when there is no such lesson or the task is over (a task of
    /// an earlier lesson never is live in a later one).
    pub fn lesson_tick(&mut self, guild_id: u64, task: TaskHandle) -> (r: Option<RepeatPlay>)
        requires
            old(self).wf(),
        ensures
            final(self).wf(),
            final(self).next_session() == old(self).next_session(),
            final(self).calls().dom() == old(self).calls().dom(),
            !old(self).calls().contains_key(guild_id) ==> r is None,
            old(self).calls().contains_key(guild_id) ==> ({
                let s = old(self).calls()[guild_id].mode->Lesson_0;
                let t = final(self).calls()[guild_id].mode->Lesson_0;
                old(self).calls()[guild_id].mode is Lesson && s.room() ==> (final(self).calls()[guild_id].mode is Lesson
                    && (r is Some <==> s.playback_live(task) && s.current() is Some)
                    && (r is None ==> t.same_state(&s))
                    && (r is Some ==> t.repeat() == s.repeat() + 1))
            }),
    {
        broadcast use vstd::std_specs::hash::group_hash_axioms;

        let st = match self.states.remove(&guild_id) {
            None => {
                return None;
            },
            Some(st) => st,
        };
        proof {
            assert(old(self).calls().contains_key(guild_id));
        }
        let mut mode = st.mode;
        let r = match &mut mode {
            BotStateMode::Normal => None,
            BotStateMode::Lesson(s) => {
                if s.has_room() {
                    s.repeat_tick(task)
                } else {
                    None
                }
            },
        };
        self.states.insert(guild_id, BotState { txt_ch: st.txt_ch, mode });
        proof {
            assert(self.calls().dom() =~= old(self).calls().dom().insert(guild_id));
            assert(self.calls().dom() =~= old(self).calls().dom());
            self.lemma_reinsert_wf(old(self), guild_id);
        }
        r
    }

    /// The lesson grace timer `task` of the call of `guild` elapsed.
    pub fn lesson_grace_elapsed(&mut self, guild_id: u64, task: TaskHandle) -> (r: Option<Advance>)
        requires
            old(self).wf(),
        ensures
            final(self).wf(),
            final(self).next_session() == old(self).next_session(),
            final(self).calls().dom() == old(self).calls().dom(),
            !old(self).calls().contains_key(guild_id) ==> r is None,
            old(self).calls().contains_key(guild_id) ==> ({
                let s = old(self).calls()[guild_id].mode->Lesson_0;
                let t = final(self).calls()[guild_id].mode->Lesson_0;
                old(self).calls()[guild_id].mode is Lesson && s.room() ==> (final(self).calls()[guild_id].mode is Lesson
                    && (r is Some <==> s.grace_live(task))
                    && (r is None ==> t.same_state(&s))
                    && (r matches Some(a) ==> LessonModeState::advance_core(&s, &t, a) && t.pending() is None))
            }),
    {
        broadcast use vstd::std_specs::hash::group_hash_axioms;

        let st = match self.states.remove(&guild_id) {
            None => {
                return None;
            },
            Some(st) => st,
        };
        proof {
            assert(old(self).calls().contains_key(guild_id));
        }
        let mut mode = st.mode;
        let r = match &mut mode {
            BotStateMode::Normal => None,
            BotStateMode::Lesson(s) => {
                if s.has_room() {
                    s.grace_elapsed(task)
                } else {
                    None
                }
            },
        };
        self.states.insert(guild_id, BotState { txt_ch: st.txt_ch, mode });
        proof {
            assert(self.calls().dom() =~= old(self).calls().dom().insert(guild_id));
            assert(self.calls().dom() =~= old(self).calls().dom());
            self.lemma_reinsert_wf(old(self), guild_id);
        }
        r
    }
}

} // verus!
