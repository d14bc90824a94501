use morsecord::bot::BotStateMode;
use morsecord::lesson::file::FileSourceGen;
use morsecord::lesson::{LessonAnswer, LessonError, LessonGen};
use morsecord::session::{Advance, Feedback, LessonEnd, LessonModeState, TaskHandle};

fn corpus_state(line: &str) -> LessonModeState {
    LessonModeState::new(0, (20, 20), (600, 600), LessonGen::File(FileSourceGen::new(vec![line.to_string()])))
}

fn play_task(a: Advance) -> TaskHandle {
    match a {
        Advance::Play(p) => p.task,
        Advance::Exhausted => panic!("expected a prompt"),
    }
}

#[test]
fn advance_puts_up_a_prompt_with_its_interval() {
    let mut s = corpus_state("ABC");
    match s.play_next() {
        Advance::Play(p) => {
            assert_eq!(p.text, " ABC");
            assert_eq!(p.wpm, 20);
            assert_eq!(p.freq, 600);
            // " ABC" is 2 + 4 + 8 + 12 + 14 = 40 dot units of 60 ms, plus 10 s
            assert_eq!(p.interval_nanos, 40 * 60_000_000 + 10_000_000_000);
        }
        Advance::Exhausted => panic!("expected a prompt"),
    }
    assert_eq!(s.get_current().unwrap().into_str(), "ABC");
}

#[test]
fn exhausted_source_advances_idempotently() {
    let mut s = LessonModeState::new(0, (20, 20), (600, 600), LessonGen::File(FileSourceGen::new(vec![])));
    assert!(matches!(s.play_next(), Advance::Exhausted));
    assert!(s.get_current().is_none());
    assert!(matches!(s.play_next(), Advance::Exhausted));
    assert!(s.get_current().is_none());
    assert!(s.on_message(1, "ABC").is_none());
    assert!(s.get_history().is_empty());
}

#[test]
fn only_the_last_playback_task_is_live() {
    let mut s = corpus_state("ABC");
    let mut handles = Vec::new();
    for _ in 0..5 {
        handles.push(play_task(s.play_next()));
    }
    for h in &handles[..4] {
        assert!(!s.is_playback_live(*h));
        assert!(s.repeat_tick(*h).is_none());
    }
    assert!(s.is_playback_live(handles[4]));
    let r = s.repeat_tick(handles[4]).unwrap();
    assert_eq!(r.text, " ABC");
    assert_eq!(s.get_repeat(), 1);
}

#[test]
fn grace_race_credits_both_and_advances_once() {
    let mut s = corpus_state("ABC");
    let h = play_task(s.play_next());
    s.repeat_tick(h);
    let first = s.on_message(7, "abc").unwrap();
    assert_eq!(first.feedback, Feedback::FirstCorrect);
    let grace = first.grace.unwrap();
    assert!(!s.is_playback_live(h));
    let second = s.on_message(8, "ABC").unwrap();
    assert_eq!(second.feedback, Feedback::AlreadyCorrect);
    assert!(second.grace.is_none());
    assert_eq!(s.get_tallies(), &vec![(7, 1, 1), (8, 1, 0)]);
    assert!(s.is_grace_live(grace));
    assert!(matches!(s.grace_elapsed(grace), Some(Advance::Play(_))));
    assert!(s.grace_elapsed(grace).is_none());
    assert_eq!(s.get_history(), &vec![1]);
}

#[test]
fn wrong_answer_changes_nothing() {
    let mut s = corpus_state("ABC");
    let h = play_task(s.play_next());
    let r = s.on_message(1, "ABD").unwrap();
    assert_eq!(r.feedback, Feedback::Incorrect);
    assert!(r.grace.is_none());
    assert!(s.get_tallies().is_empty());
    assert!(!s.is_answered());
    assert!(s.is_playback_live(h));
}

#[test]
fn end_reports_mean_and_leaderboard() {
    let mut s = corpus_state("ABC");
    let h1 = play_task(s.play_next());
    s.repeat_tick(h1);
    s.repeat_tick(h1);
    let g1 = s.on_message(1, "ABC").unwrap().grace.unwrap();
    let h2 = play_task(s.grace_elapsed(g1).unwrap());
    s.repeat_tick(h2);
    let g2 = s.on_message(2, "ABC").unwrap().grace.unwrap();
    assert_eq!(s.on_message(1, "ABC").unwrap().feedback, Feedback::AlreadyCorrect);
    let h3 = play_task(s.grace_elapsed(g2).unwrap());
    s.repeat_tick(h3);
    s.repeat_tick(h3);
    s.repeat_tick(h3);
    assert_eq!(s.on_message(2, "ABC").unwrap().feedback, Feedback::FirstCorrect);
    match s.end() {
        LessonEnd::Summary(sum) => {
            assert_eq!(s.get_history(), &vec![2, 1, 3]);
            assert_eq!(sum.questions, 3);
            assert_eq!(sum.mean_hundredths, 200);
            assert_eq!(sum.leaderboard, vec![(2, 2, 2), (1, 2, 1)]);
            let text = sum.render(&vec!["<@2>".to_string(), "<@1>".to_string()]);
            assert_eq!(
                text,
                "# Lesson Result\n\ntotal questions: 3\naverage retry: 2.00\n\n(🥇 / ⭕)\n<@2>: 2 / 2\n<@1>: 1 / 2\n\nGood job!"
            );
        }
        LessonEnd::Bye => panic!("expected a summary"),
    }
}

#[test]
fn leaderboard_ties_keep_first_answer_order() {
    let mut s = corpus_state("ABC");
    play_task(s.play_next());
    let g = s.on_message(5, "ABC").unwrap().grace.unwrap();
    s.on_message(3, "ABC");
    let h = play_task(s.grace_elapsed(g).unwrap());
    s.repeat_tick(h);
    s.on_message(3, "ABC");
    s.on_message(9, "ABC");
    match s.end() {
        LessonEnd::Summary(sum) => {
            assert_eq!(sum.leaderboard, vec![(5, 1, 1), (3, 2, 1), (9, 1, 0)]);
            assert_eq!(sum.questions, 1);
            assert_eq!(sum.mean_hundredths, 100);
        }
        LessonEnd::Bye => panic!("expected a summary"),
    }
}

#[test]
fn mean_rounds_half_up() {
    let mut s = corpus_state("ABC");
    let h = play_task(s.play_next());
    s.repeat_tick(h);
    let g = s.on_message(1, "ABC").unwrap().grace.unwrap();
    let h2 = play_task(s.grace_elapsed(g).unwrap());
    s.repeat_tick(h2);
    let g2 = s.on_message(1, "ABC").unwrap().grace.unwrap();
    let h3 = play_task(s.grace_elapsed(g2).unwrap());
    s.repeat_tick(h3);
    s.repeat_tick(h3);
    match s.end() {
        // history [1, 1, 2]: 4 / 3 = 1.333...
        LessonEnd::Summary(sum) => assert_eq!(sum.mean_hundredths, 133),
        LessonEnd::Bye => panic!("expected a summary"),
    }
}

#[test]
fn ended_lesson_plays_and_judges_nothing() {
    let mut s = corpus_state("ABC");
    let h = play_task(s.play_next());
    s.repeat_tick(h);
    let g = s.on_message(1, "ABC").unwrap().grace.unwrap();
    assert!(matches!(s.end(), LessonEnd::Summary(_)));
    assert!(s.get_current().is_none());
    assert!(s.on_message(2, "ABC").is_none());
    assert!(s.repeat_tick(h).is_none());
    assert!(s.grace_elapsed(g).is_none());
    assert!(matches!(s.end(), LessonEnd::Summary(_)));
    assert_eq!(s.get_history(), &vec![1]);
}

#[test]
fn end_without_playback_says_bye() {
    let mut s = corpus_state("ABC");
    play_task(s.play_next());
    assert!(matches!(s.end(), LessonEnd::Bye));
}

#[test]
fn start_checks_ranges_then_selector() {
    assert!(matches!(
        LessonModeState::start(0, (20, 15), (500, 1000), "call_ja", None),
        Err(LessonError::MinSpeedAboveMax)
    ));
    assert!(matches!(
        LessonModeState::start(0, (15, 20), (1000, 500), "bogus", None),
        Err(LessonError::MinFreqAboveMax)
    ));
    assert!(matches!(
        LessonModeState::start(0, (15, 20), (500, 1000), "bogus", None),
        Err(LessonError::UnknownProbSet)
    ));
}

#[test]
fn end_to_end_callsign_lesson() {
    let (mut s, first) = LessonModeState::start(0, (15, 20), (500, 1000), "call_ja", None).unwrap();
    let p = match first {
        Advance::Play(p) => p,
        Advance::Exhausted => panic!("expected a prompt"),
    };
    assert!((15..=20).contains(&p.wpm));
    assert!((500..=1000).contains(&p.freq));
    let text = s.get_current().unwrap().into_str().to_string();
    let c: Vec<char> = text.chars().collect();
    assert!(c.len() >= 5 && (c[0] == 'J' || c[0] == '7' || c[0] == '8'));
    assert!(text.chars().all(|x| x.is_ascii_uppercase() || x.is_ascii_digit() || x == '/'));
    let sub = s.on_message(42, &text).unwrap();
    assert_eq!(sub.feedback, Feedback::FirstCorrect);
    let g = sub.grace.unwrap();
    assert!(matches!(s.grace_elapsed(g), Some(Advance::Play(_))));
    assert!(s.grace_elapsed(g).is_none());
}

#[test]
fn discarding_a_lesson_ends_it() {
    let mut normal = BotStateMode::default();
    assert!(normal.discard().is_none());
    let mut s = corpus_state("ABC");
    let h = play_task(s.play_next());
    s.repeat_tick(h);
    let mut mode = BotStateMode::Lesson(s);
    match mode.discard() {
        Some(LessonEnd::Summary(sum)) => assert_eq!(sum.questions, 1),
        _ => panic!("expected a summary"),
    }
    if let BotStateMode::Lesson(s) = &mode {
        assert!(!s.is_playback_live(h));
    }
}

#[test]
fn handles_of_another_lesson_are_never_live() {
    let mut s = corpus_state("ABC");
    let h = play_task(s.play_next());
    let foreign = TaskHandle { session: h.session + 1, id: h.id };
    assert!(!s.is_playback_live(foreign));
    assert!(s.repeat_tick(foreign).is_none());
    assert_eq!(s.get_repeat(), 0);
    assert_eq!(s.session_id(), 0);
}

#[test]
fn room_is_available_at_start() {
    let s = corpus_state("ABC");
    assert!(s.has_room());
}
