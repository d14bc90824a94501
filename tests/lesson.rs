use morsecord::lesson::acag_number::{filter_and_to_string_numbers, ACAGNumberGen};
use morsecord::lesson::allja_number::AllJANumberGen;
use morsecord::lesson::callsign::{callsign_from, generate_callsign, JaCallsignGen};
use morsecord::lesson::file::FileSourceGen;
use morsecord::lesson::japanese::{normalize_japanese, JapaneseFiveCharGen, NormalizedJapaneseAnswer};
use morsecord::lesson::number::LessonAnswerContestNumber;
use morsecord::lesson::{corpus_request, get_lesson_gen, LessonAnswer, LessonError, LessonGen, LessonPrompt};
use morsecord::text::decimal;

fn is_ja_callsign(s: &str) -> bool {
    let (base, portable) = match s.split_once('/') {
        Some((b, d)) => (b, Some(d)),
        None => (s, None),
    };
    if let Some(d) = portable {
        if d.len() != 1 || !d.chars().all(|c| c.is_ascii_digit()) {
            return false;
        }
    }
    let c: Vec<char> = base.chars().collect();
    let alpha = |x: char| x.is_ascii_uppercase();
    let num = |x: char| x.is_ascii_digit();
    let alnum = |x: char| alpha(x) || num(x);
    match c.len() {
        6 if c[0] == '7' => "JKLMN".contains(c[1]) && num(c[2]) && c[3..].iter().all(|&x| alpha(x)),
        6 if c[0] == '8' => "JN".contains(c[1]) && num(c[2]) && c[3..].iter().all(|&x| alnum(x)),
        6 if c[0] == 'J' && c[1] == 'D' && c[2] == '1' => c[3..].iter().all(|&x| alpha(x)),
        6 if c[0] == 'J' => "AEFGHIJKLMNOPQRS".contains(c[1]) && num(c[2]) && c[3..].iter().all(|&x| alpha(x)),
        5 if c[0] == 'J' && c[1] == 'A' => num(c[2]) && alpha(c[3]) && alpha(c[4]),
        5 if c[0] == 'J' && c[1] == 'R' && c[2] == '6' => alpha(c[3]) && alpha(c[4]),
        _ => false,
    }
}

#[test]
fn test_allja_number() {
    let gen = AllJANumberGen::new();
    for _ in 0..100 {
        println!("{}", gen.next().unwrap());
    }
}

#[test]
fn test_japanese_five_char_gen() {
    let gen = JapaneseFiveCharGen;

    for _ in 0..10 {
        let result = gen.next().unwrap();
        let s = result.into_str();
        println!("Generated: {}", s);

        assert_eq!(s.chars().count(), 5);
    }
}

#[test]
fn allja_exchanges_have_report_number_and_power() {
    let gen = AllJANumberGen::new();
    assert_eq!(gen.number_at(0, 0), "101H");
    assert_eq!(gen.number_at(14, 150), "02M");
    assert_eq!(gen.number_at(60, 255), "48P");
    for _ in 0..200 {
        let s = gen.next().unwrap();
        assert!(s.starts_with("5NN "));
        assert!(s.ends_with('H') || s.ends_with('M') || s.ends_with('P'));
    }
}

#[test]
fn acag_numbers_leave_out_retired_ones() {
    assert!(ACAGNumberGen::default().next().is_some());
    let gen = ACAGNumberGen::new();
    assert_eq!(gen.number_at(0, 0), "0101H");
    assert_eq!(gen.number_at(0, 210), "0101L");
    assert_eq!(gen.number_at(0, 230), "0101P");
    for _ in 0..200 {
        let s = gen.next().unwrap();
        assert!(s != "0132H" && s != "0132M" && s != "0132L" && s != "0132P");
    }
}

#[test]
fn acag_table_holds_live_numbers_only() {
    let gen = ACAGNumberGen::new();
    let all: Vec<String> = (0..gen.len()).map(|i| gen.number_at(i, 0).trim_end_matches('H').to_string()).collect();
    for n in ["0101", "0136", "01001", "1002", "10002", "100101", "4715"] {
        assert!(all.iter().any(|x| x == n), "{}", n);
    }
    for n in ["0132", "01004", "1017", "10003", "4702"] {
        assert!(!all.iter().any(|x| x == n), "{}", n);
    }
    assert!(all.iter().all(|x| !x.is_empty() && x.chars().all(|c| c.is_ascii_digit())));
}

#[test]
fn filter_and_to_string_numbers_renders_ranges() {
    let v = filter_and_to_string_numbers(&[(8, 11), (20, 21)], &[9, 20], true);
    assert_eq!(v, vec!["08", "010", "011", "021"]);
    let w = filter_and_to_string_numbers(&[(1, 3)], &[], false);
    assert_eq!(w, vec!["1", "2", "3"]);
}

#[test]
fn callsigns_follow_the_grammar() {
    let gen = JaCallsignGen;
    for _ in 0..300 {
        let p = gen.next().unwrap();
        assert!(is_ja_callsign(p.into_str()), "{}", p.into_str());
    }
    assert_eq!(callsign_from(0, false, &vec![0, 1, 2, 3, 4], 100, 0), "7J1CDE");
    assert_eq!(callsign_from(15, false, &vec![9, 0, 25], 10, 3), "JA9AZ/3");
    assert_eq!(callsign_from(19, false, &vec![1, 2], 200, 0), "JR6BC");
    assert_eq!(callsign_from(200, false, &vec![0, 1, 2, 3, 4], 200, 0), "JA1CDE");
    assert_eq!(callsign_from(25, false, &vec![0, 1, 2], 200, 0), "JD1ABC");
    assert_eq!(callsign_from(25, true, &vec![1, 2, 0, 1, 2], 200, 0), "JD2ABC");
}

#[test]
fn classic_callsigns_have_no_jd1() {
    for _ in 0..300 {
        let s = generate_callsign();
        assert!(!s.starts_with("JD1") || s.len() >= 6, "{}", s);
        assert!(s.starts_with('7') || s.starts_with('8') || s.starts_with('J'));
    }
}

#[test]
fn contest_number_accepts_with_or_without_report() {
    let a = LessonAnswerContestNumber::new_5nn("0101H");
    assert_eq!(a.into_str(), "5NN 0101H");
    assert!(a.check("5NN 0101H"));
    assert!(a.check("0101H"));
    assert!(a.check("5NN0101H"));
    assert!(a.check("5NN  0101H "));
    assert!(!a.check("0101M"));
    assert!(!a.check("5NN 0101"));
}

#[test]
fn plain_prompt_accepts_only_itself() {
    let p = "JA1ABC".to_string();
    assert!(p.check("JA1ABC"));
    assert!(!p.check("JA1ABD"));
}

#[test]
fn japanese_answers_compare_after_normalisation() {
    let a = NormalizedJapaneseAnswer::new("カキ".to_string());
    assert_eq!(a.into_str(), "カキ");
    assert!(a.check("カキ"));
    assert!(a.check("ｶｷ"));
    assert!(a.check("かき"));
    let latin = NormalizedJapaneseAnswer::new("AB".to_string());
    assert!(latin.check("ab"));
    assert!(!a.check("カク"));
    let v = NormalizedJapaneseAnswer::new("ガ".to_string());
    assert!(v.check("ｶﾞ"));
    assert_eq!(normalize_japanese("ガ").chars().count(), 2);
    assert!(v.check_normalized(normalize_japanese("ガ").as_str()));
}

#[test]
fn decimal_writes_numbers() {
    assert_eq!(decimal(0), "0");
    assert_eq!(decimal(1234567890), "1234567890");
}

#[test]
fn file_source_draws_lines() {
    let gen = FileSourceGen::new(vec!["ONE".to_string(), "TWO".to_string()]);
    for _ in 0..20 {
        let p = gen.next().unwrap();
        assert!(p.into_str() == "ONE" || p.into_str() == "TWO");
    }
    assert!(FileSourceGen::new(vec![]).next().is_none());
    assert!(FileSourceGen::is_valid_name("words.txt"));
    assert!(!FileSourceGen::is_valid_name("../secret"));
}

#[test]
fn selector_resolution() {
    assert!(matches!(get_lesson_gen("call_ja", None), Ok(LessonGen::CallJa(_))));
    assert!(matches!(get_lesson_gen("nr_allja", None), Ok(LessonGen::NrAllJa(_))));
    assert!(matches!(get_lesson_gen("nr_acag", None), Ok(LessonGen::NrAcag(_))));
    assert!(matches!(get_lesson_gen("rand5_jp", None), Ok(LessonGen::Rand5Jp(_))));
    assert!(matches!(get_lesson_gen("bogus", None), Err(LessonError::UnknownProbSet)));
    assert!(matches!(get_lesson_gen("file:a/b", None), Err(LessonError::InvalidFilename)));
    assert!(matches!(get_lesson_gen("file:words", None), Err(LessonError::CorpusUnavailable)));
    assert!(matches!(
        get_lesson_gen("file:words", Some(vec!["X".to_string()])),
        Ok(LessonGen::File(_))
    ));
    assert_eq!(corpus_request("file:words"), Some("words".to_string()));
    assert_eq!(corpus_request("call_ja"), None);
    assert_eq!(corpus_request("file"), Some(String::new()));
}

#[test]
fn number_sources_give_contest_prompts() {
    let gen = get_lesson_gen("nr_acag", None).unwrap();
    match gen.next() {
        Some(LessonPrompt::ContestNumber(n)) => {
            let s = n.into_str();
            assert!(s.starts_with("5NN "));
            assert!(s[4..].chars().next().unwrap().is_ascii_digit());
        }
        _ => panic!("expected a contest exchange"),
    }
}
