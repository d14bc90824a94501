use morsecord::bot::{Bot, BotError, BotStateMode, MessageAction};
use morsecord::lesson::file::FileSourceGen;
use morsecord::lesson::LessonGen;
use morsecord::neko;
use morsecord::session::{
    option_range, Advance, Feedback, TaskHandle, LessonEnd, LessonModeState, DEFAULT_MAX_FREQ, DEFAULT_MAX_SPEED,
    DEFAULT_MIN_FREQ, DEFAULT_MIN_SPEED,
};
use morsecord::text::ascii_lowercase;

#[test]
fn neko_mews_between_one_and_thirty_two_times() {
    assert_eq!(neko::run(None), "にゃーん");
    assert_eq!(neko::run(Some(3)), "にゃーんにゃーんにゃーん");
    assert_eq!(neko::run(Some(0)), "にゃーん");
    assert_eq!(neko::run(Some(-5)), "にゃーん");
    assert_eq!(neko::run(Some(100)).chars().count(), 32 * 4);
}

#[test]
fn option_ranges_follow_the_given_bounds() {
    assert_eq!(option_range(None, None, DEFAULT_MIN_SPEED, DEFAULT_MAX_SPEED), (15, 20));
    assert_eq!(option_range(None, Some(10), DEFAULT_MIN_SPEED, DEFAULT_MAX_SPEED), (10, 10));
    assert_eq!(option_range(Some(25), None, DEFAULT_MIN_SPEED, DEFAULT_MAX_SPEED), (25, 25));
    assert_eq!(option_range(Some(12), Some(30), DEFAULT_MIN_SPEED, DEFAULT_MAX_SPEED), (12, 30));
    assert_eq!(option_range(None, None, DEFAULT_MIN_FREQ, DEFAULT_MAX_FREQ), (500, 1000));
    assert_eq!(option_range(Some(30), Some(12), DEFAULT_MIN_SPEED, DEFAULT_MAX_SPEED), (30, 12));
}

#[test]
fn selectors_are_lowercased() {
    assert_eq!(ascii_lowercase("Call_JA"), "call_ja");
    assert_eq!(ascii_lowercase("File:Words.TXT"), "file:words.txt");
    assert_eq!(ascii_lowercase("カナ"), "カナ");
}

fn lesson(session: u64) -> (BotStateMode, TaskHandle) {
    let mut s =
        LessonModeState::new(session, (20, 20), (600, 600), LessonGen::File(FileSourceGen::new(vec!["ABC".to_string()])));
    let task = match s.play_next() {
        Advance::Play(p) => p.task,
        Advance::Exhausted => panic!("expected a prompt"),
    };
    (BotStateMode::Lesson(s), task)
}

#[test]
fn calls_are_joined_once_and_left() {
    let mut bot = Bot::new();
    assert_eq!(bot.add_call_state(1, 100), Ok(()));
    assert_eq!(bot.add_call_state(1, 101), Err(BotError::AlreadyInCall));
    assert_eq!(bot.get_call_txt_ch(1), Ok(100));
    assert_eq!(bot.get_call_txt_ch(2), Err(BotError::NotInCall));
    assert!(matches!(bot.get_call_mode(1), Ok(BotStateMode::Normal)));
    assert!(matches!(bot.erase_call_state(1), Ok(None)));
    assert!(matches!(bot.erase_call_state(1), Err(BotError::NotInCall)));
    assert_eq!(bot.get_call_txt_ch(1), Err(BotError::NotInCall));
}

#[test]
fn switching_mode_ends_the_previous_lesson() {
    let mut bot = Bot::new();
    assert!(matches!(bot.switch_mode(1, BotStateMode::Normal), Err(BotError::NotInCall)));
    bot.add_call_state(1, 100).unwrap();
    let (first, task) = lesson(bot.new_session_id());
    assert!(matches!(bot.switch_mode(1, first), Ok(None)));
    assert!(bot.lesson_tick(1, task).is_some());
    match bot.switch_mode(1, BotStateMode::Normal) {
        Ok(Some(LessonEnd::Summary(sum))) => assert_eq!(sum.questions, 1),
        _ => panic!("expected the replaced lesson's report"),
    }
    assert!(matches!(bot.get_call_mode(1), Ok(BotStateMode::Normal)));
}

#[test]
fn an_old_lesson_cannot_be_installed_again() {
    let mut bot = Bot::new();
    bot.add_call_state(1, 100).unwrap();
    let (a, _) = lesson(bot.new_session_id());
    bot.switch_mode(1, a).unwrap();
    let (stale, _) = lesson(0);
    assert!(matches!(bot.switch_mode(1, stale), Err(BotError::StaleSession)));
}

#[test]
fn old_lesson_timers_do_not_drive_the_next_lesson() {
    let mut bot = Bot::new();
    bot.add_call_state(1, 100).unwrap();
    let (a, task_a) = lesson(bot.new_session_id());
    bot.switch_mode(1, a).unwrap();
    let grace_a = match bot.message(1, 100, 7, "ABC") {
        MessageAction::Lesson(Some(sub)) => sub.grace.unwrap(),
        _ => panic!("expected a verdict"),
    };
    bot.switch_mode(1, BotStateMode::Normal).unwrap();
    let (b, task_b) = lesson(bot.new_session_id());
    assert_eq!(task_a.id, task_b.id);
    bot.switch_mode(1, b).unwrap();
    assert!(bot.lesson_tick(1, task_a).is_none());
    assert!(bot.lesson_grace_elapsed(1, grace_a).is_none());
    assert!(bot.lesson_tick(1, task_b).is_some());
    if let Ok(BotStateMode::Lesson(s)) = bot.get_call_mode(1) {
        assert_eq!(s.get_repeat(), 1);
    } else {
        panic!("expected a lesson");
    }
}

#[test]
fn messages_are_routed_by_channel_and_mode() {
    let mut bot = Bot::new();
    assert!(matches!(bot.message(1, 100, 7, "CQ"), MessageAction::Ignore));
    bot.add_call_state(1, 100).unwrap();
    assert!(matches!(bot.message(1, 200, 7, "CQ"), MessageAction::Ignore));
    assert!(matches!(bot.message(1, 100, 7, "CQ"), MessageAction::PlayText));
    assert!(matches!(bot.message(1, 100, 7, ";quiet"), MessageAction::Ignore));
    let (l, _) = lesson(bot.new_session_id());
    bot.switch_mode(1, l).unwrap();
    match bot.message(1, 100, 7, "abc") {
        MessageAction::Lesson(Some(sub)) => {
            assert_eq!(sub.feedback, Feedback::FirstCorrect);
            let g = sub.grace.unwrap();
            assert!(matches!(bot.lesson_grace_elapsed(1, g), Some(Advance::Play(_))));
            assert!(bot.lesson_grace_elapsed(1, g).is_none());
        }
        _ => panic!("expected a verdict"),
    }
    match bot.message(1, 100, 8, "xyz") {
        MessageAction::Lesson(Some(sub)) => assert_eq!(sub.feedback, Feedback::Incorrect),
        _ => panic!("expected a verdict"),
    }
}
