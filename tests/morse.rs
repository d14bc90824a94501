use morsecord::cw_audio::{envelope_at, CWAudioPCM, Envelope, KeyedRun, StreamError};
use morsecord::morse::{get_morse, get_morse_str, phrase_duration, phrase_units, push_char_spans, split_voiced};

#[test]
fn char_a_timeline_is_dot_gap_dash_gap() {
    let mut v = Vec::new();
    push_char_spans('A', &mut v);
    assert_eq!(v, vec![(1, true), (1, false), (3, true), (3, false)]);
    assert_eq!(v[2].0, 3 * v[0].0);
}

#[test]
fn lowercase_letters_share_codes() {
    assert_eq!(get_morse('a'), get_morse('A'));
    assert_eq!(get_morse('A'), (2, 0b01));
    assert_eq!(get_morse('0'), (5, 0b11111));
    assert_eq!(get_morse('#'), (0, 0));
}

#[test]
fn text_plan_has_leading_pause_and_word_gap() {
    let plan = get_morse_str("E E");
    assert_eq!(plan, vec![(2, false), (1, true), (3, false), (4, false), (1, true), (3, false)]);
}

#[test]
fn unknown_characters_are_skipped() {
    assert_eq!(get_morse_str("#"), vec![(2, false)]);
    assert_eq!(get_morse_str(""), vec![(2, false)]);
}

#[test]
fn voiced_kana_is_sent_as_kana_and_mark() {
    assert_eq!(split_voiced('ガ'), Some(('カ', '゛')));
    assert_eq!(split_voiced('カ'), None);
    let plan = get_morse_str("ガ");
    assert_eq!(
        plan,
        vec![
            (2, false),
            (1, true),
            (1, false),
            (3, true),
            (1, false),
            (1, true),
            (1, false),
            (1, true),
            (3, false),
            (1, true),
            (1, false),
            (1, true),
            (3, false),
        ]
    );
}

#[test]
fn phrase_units_of_paris() {
    assert_eq!(phrase_units("PARIS"), 48);
    assert_eq!(phrase_units("PARIS "), 52);
}

#[test]
fn phrase_duration_exact_values() {
    assert_eq!(phrase_duration("A", 20), 600_000_000);
    assert_eq!(phrase_duration("PARIS ", 20), 3_120_000_000);
    assert_eq!(CWAudioPCM::get_duration("A", 20), 600_000_000);
    // a dot at 7 WPM is 171428571 ns, and "E" is 6 dot units
    assert_eq!(phrase_duration("E", 7), 6 * 171_428_571);
}

#[test]
fn space_adds_four_dots() {
    assert_eq!(phrase_duration("E E", 7) - phrase_duration("EE", 7), 4 * 171_428_571);
    assert_eq!(phrase_duration("CQ DE", 13) - phrase_duration("CQDE", 13), 4 * (1_200_000_000 / 13));
}

#[test]
fn phrase_duration_decreases_with_speed() {
    let mut last = phrase_duration("CQ DE JA1ZZZ", 5);
    assert_eq!(last, phrase_duration("CQ DE JA1ZZZ", 5));
    for wpm in 6..60 {
        let d = phrase_duration("CQ DE JA1ZZZ", wpm);
        assert!(d < last);
        last = d;
    }
}

#[test]
fn stream_timeline_in_samples() {
    // one dot at 20 WPM and 48 kHz is 2880 samples
    let mut pcm = CWAudioPCM::new("E", 20, 600, 48000);
    assert_eq!(pcm.freq(), 600);
    assert_eq!(pcm.sample_rate(), 48000);
    assert_eq!(pcm.envelope_len(), 480);
    assert!(!pcm.is_finished());
    let runs = pcm.fill(10_000);
    assert_eq!(
        runs,
        vec![
            KeyedRun { segment: 0, offset: 0, len: 5760, segment_len: 5760, on: false },
            KeyedRun { segment: 1, offset: 0, len: 2880, segment_len: 2880, on: true },
        ]
    );
    assert!(pcm.is_finished());
    assert!(pcm.fill(10_000).is_empty());
}

#[test]
fn stream_resumes_across_reads() {
    let mut pcm = CWAudioPCM::new("E", 20, 600, 48000);
    let a = pcm.fill(5000);
    assert_eq!(a, vec![KeyedRun { segment: 0, offset: 0, len: 5000, segment_len: 5760, on: false }]);
    let b = pcm.fill(1000);
    assert_eq!(
        b,
        vec![
            KeyedRun { segment: 0, offset: 5000, len: 760, segment_len: 5760, on: false },
            KeyedRun { segment: 1, offset: 0, len: 240, segment_len: 2880, on: true },
        ]
    );
    let c = pcm.fill(0);
    assert!(c.is_empty());
    let d = pcm.fill(100_000);
    assert_eq!(d, vec![KeyedRun { segment: 1, offset: 240, len: 2640, segment_len: 2880, on: true }]);
    assert!(pcm.is_finished());
}

#[test]
fn stream_cannot_seek() {
    let mut pcm = CWAudioPCM::new("E", 20, 600, 48000);
    assert_eq!(pcm.seek(10), Err(StreamError::NotSeekable));
}

#[test]
fn same_inputs_same_stream() {
    let mut a = CWAudioPCM::new("CQ TEST", 25, 700, 44100);
    let mut b = CWAudioPCM::new("CQ TEST", 25, 700, 44100);
    assert_eq!(a.fill(1 << 20), b.fill(1 << 20));
}

#[test]
fn envelope_positions() {
    assert_eq!(envelope_at(10, 2880, 480), Envelope::FadeIn(10));
    assert_eq!(envelope_at(1000, 2880, 480), Envelope::Full);
    assert_eq!(envelope_at(2800, 2880, 480), Envelope::FadeOut(80));
    assert_eq!(envelope_at(479, 600, 480), Envelope::FadeIn(479));
}
