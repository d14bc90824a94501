//! International and Japanese (wabun) Morse code, and the timing of keyed
//! text in dot units.
use vstd::prelude::*;

use crate::text::chars_of;

verus! {

/// One keyed or silent span, measured in dot units: `(units, tone_on)`.
pub type Span = (u8, bool);

/// The Morse code of `c` as `(element count, pattern)`. Of the `count` low
/// bits of the pattern the most significant is the first element; a set bit
/// is a dash. A character without a code maps to `(0, 0)`.
pub open spec fn morse_code(c: char) -> (u8, u8) {
    match c {
        'A' | 'a' => (2, 0b01),
        'B' | 'b' => (4, 0b1000),
        'C' | 'c' => (4, 0b1010),
        'D' | 'd' => (3, 0b100),
        'E' | 'e' => (1, 0b0),
        'F' | 'f' => (4, 0b0010),
        'G' | 'g' => (3, 0b110),
        'H' | 'h' => (4, 0b0000),
        'I' | 'i' => (2, 0b00),
        'J' | 'j' => (4, 0b0111),
        'K' | 'k' => (3, 0b101),
        'L' | 'l' => (4, 0b0100),
        'M' | 'm' => (2, 0b11),
        'N' | 'n' => (2, 0b10),
        'O' | 'o' => (3, 0b111),
        'P' | 'p' => (4, 0b0110),
        'Q' | 'q' => (4, 0b1101),
        'R' | 'r' => (3, 0b010),
        'S' | 's' => (3, 0b000),
        'T' | 't' => (1, 0b1),
        'U' | 'u' => (3, 0b001),
        'V' | 'v' => (4, 0b0001),
        'W' | 'w' => (3, 0b011),
        'X' | 'x' => (4, 0b1001),
        'Y' | 'y' => (4, 0b1011),
        'Z' | 'z' => (4, 0b1100),
        '0' => (5, 0b11111),
        '1' => (5, 0b01111),
        '2' => (5, 0b00111),
        '3' => (5, 0b00011),
        '4' => (5, 0b00001),
        '5' => (5, 0b00000),
        '6' => (5, 0b10000),
        '7' => (5, 0b11000),
        '8' => (5, 0b11100),
        '9' => (5, 0b11110),
        '.' => (6, 0b010101),
        ',' => (6, 0b110011),
        '?' => (6, 0b001100),
        '/' => (5, 0b10010),
        '=' => (5, 0b10001),
        '-' => (6, 0b100001),
        '(' => (5, 0b10110),
        ')' => (6, 0b101101),
        '\'' => (6, 0b011110),
        ':' => (6, 0b111000),
        '+' => (5, 0b01010),
        '@' => (6, 0b011010),
        '"' => (6, 0b010010),
        'イ' => (2, 0b01),
        'ロ' => (4, 0b0101),
        'ハ' => (4, 0b1000),
        'ニ' => (4, 0b1010),
        'ホ' => (3, 0b100),
        'ヘ' => (1, 0b0),
        'ト' => (5, 0b00100),
        'チ' => (4, 0b0010),
        'リ' => (3, 0b110),
        'ヌ' => (4, 0b0000),
        'ル' => (5, 0b10110),
        'ヲ' => (4, 0b0111),
        'ワ' => (3, 0b101),
        'カ' => (4, 0b0100),
        'ヨ' => (2, 0b11),
        'タ' => (2, 0b10),
        'レ' => (3, 0b111),
        'ソ' => (4, 0b1110),
        'ツ' => (4, 0b0110),
        'ネ' => (4, 0b1101),
        'ナ' => (3, 0b010),
        'ラ' => (3, 0b000),
        'ム' => (1, 0b1),
        'ウ' => (3, 0b001),
        'ヰ' => (5, 0b01001),
        'ノ' => (4, 0b0011),
        'オ' => (5, 0b01000),
        'ク' => (4, 0b0001),
        'ヤ' => (3, 0b011),
        'マ' => (4, 0b1001),
        'ケ' => (4, 0b1011),
        'フ' => (4, 0b1100),
        'コ' => (4, 0b1111),
        'エ' => (5, 0b10111),
        'テ' => (5, 0b01011),
        'ア' => (5, 0b11011),
        'サ' => (5, 0b10101),
        'キ' => (5, 0b10100),
        'ユ' => (5, 0b10011),
        'メ' => (5, 0b10001),
        'ミ' => (5, 0b00101),
        'シ' => (5, 0b11010),
        'ヱ' => (5, 0b01100),
        'ヒ' => (5, 0b11001),
        'モ' => (5, 0b10010),
        'セ' => (5, 0b01110),
        'ス' => (5, 0b11101),
        'ン' => (5, 0b01010),
        '゛' => (2, 0b00),
        '゜' => (5, 0b00110),
        'ー' => (5, 0b01101),
        _ => (0, 0),
    }
}

/// Looks up the Morse code of one character (see [`morse_code`]).
pub fn get_morse(c: char) -> (r: (u8, u8))
    ensures
        r == morse_code(c),
{
    match c {
        'A' | 'a' => (2, 0b01),
        'B' | 'b' => (4, 0b1000),
        'C' | 'c' => (4, 0b1010),
        'D' | 'd' => (3, 0b100),
        'E' | 'e' => (1, 0b0),
        'F' | 'f' => (4, 0b0010),
        'G' | 'g' => (3, 0b110),
        'H' | 'h' => (4, 0b0000),
        'I' | 'i' => (2, 0b00),
        'J' | 'j' => (4, 0b0111),
        'K' | 'k' => (3, 0b101),
        'L' | 'l' => (4, 0b0100),
        'M' | 'm' => (2, 0b11),
        'N' | 'n' => (2, 0b10),
        'O' | 'o' => (3, 0b111),
        'P' | 'p' => (4, 0b0110),
        'Q' | 'q' => (4, 0b1101),
        'R' | 'r' => (3, 0b010),
        'S' | 's' => (3, 0b000),
        'T' | 't' => (1, 0b1),
        'U' | 'u' => (3, 0b001),
        'V' | 'v' => (4, 0b0001),
        'W' | 'w' => (3, 0b011),
        'X' | 'x' => (4, 0b1001),
        'Y' | 'y' => (4, 0b1011),
        'Z' | 'z' => (4, 0b1100),
        '0' => (5, 0b11111),
        '1' => (5, 0b01111),
        '2' => (5, 0b00111),
        '3' => (5, 0b00011),
        '4' => (5, 0b00001),
        '5' => (5, 0b00000),
        '6' => (5, 0b10000),
        '7' => (5, 0b11000),
        '8' => (5, 0b11100),
        '9' => (5, 0b11110),
        '.' => (6, 0b010101),
        ',' => (6, 0b110011),
        '?' => (6, 0b001100),
        '/' => (5, 0b10010),
        '=' => (5, 0b10001),
        '-' => (6, 0b100001),
        '(' => (5, 0b10110),
        ')' => (6, 0b101101),
        '\'' => (6, 0b011110),
        ':' => (6, 0b111000),
        '+' => (5, 0b01010),
        '@' => (6, 0b011010),
        '"' => (6, 0b010010),
        'イ' => (2, 0b01),
        'ロ' => (4, 0b0101),
        'ハ' => (4, 0b1000),
        'ニ' => (4, 0b1010),
        'ホ' => (3, 0b100),
        'ヘ' => (1, 0b0),
        'ト' => (5, 0b00100),
        'チ' => (4, 0b0010),
        'リ' => (3, 0b110),
        'ヌ' => (4, 0b0000),
        'ル' => (5, 0b10110),
        'ヲ' => (4, 0b0111),
        'ワ' => (3, 0b101),
        'カ' => (4, 0b0100),
        'ヨ' => (2, 0b11),
        'タ' => (2, 0b10),
        'レ' => (3, 0b111),
        'ソ' => (4, 0b1110),
        'ツ' => (4, 0b0110),
        'ネ' => (4, 0b1101),
        'ナ' => (3, 0b010),
        'ラ' => (3, 0b000),
        'ム' => (1, 0b1),
        'ウ' => (3, 0b001),
        'ヰ' => (5, 0b01001),
        'ノ' => (4, 0b0011),
        'オ' => (5, 0b01000),
        'ク' => (4, 0b0001),
        'ヤ' => (3, 0b011),
        'マ' => (4, 0b1001),
        'ケ' => (4, 0b1011),
        'フ' => (4, 0b1100),
        'コ' => (4, 0b1111),
        'エ' => (5, 0b10111),
        'テ' => (5, 0b01011),
        'ア' => (5, 0b11011),
        'サ' => (5, 0b10101),
        'キ' => (5, 0b10100),
        'ユ' => (5, 0b10011),
        'メ' => (5, 0b10001),
        'ミ' => (5, 0b00101),
        'シ' => (5, 0b11010),
        'ヱ' => (5, 0b01100),
        'ヒ' => (5, 0b11001),
        'モ' => (5, 0b10010),
        'セ' => (5, 0b01110),
        'ス' => (5, 0b11101),
        'ン' => (5, 0b01010),
        '゛' => (2, 0b00),
        '゜' => (5, 0b00110),
        'ー' => (5, 0b01101),
        _ => (0, 0),
    }
}

/// A voiced or semi-voiced katakana, sent as its plain kana followed by the
/// voicing mark.
pub open spec fn voiced_parts(c: char) -> Option<(char, char)> {
    match c {
        'ガ' => Some(('カ', '゛')),
        'ギ' => Some(('キ', '゛')),
        'グ' => Some(('ク', '゛')),
        'ゲ' => Some(('ケ', '゛')),
        'ゴ' => Some(('コ', '゛')),
        'ザ' => Some(('サ', '゛')),
        'ジ' => Some(('シ', '゛')),
        'ズ' => Some(('ス', '゛')),
        'ゼ' => Some(('セ', '゛')),
        'ゾ' => Some(('ソ', '゛')),
        'ダ' => Some(('タ', '゛')),
        'ヂ' => Some(('チ', '゛')),
        'ヅ' => Some(('ツ', '゛')),
        'デ' => Some(('テ', '゛')),
        'ド' => Some(('ト', '゛')),
        'バ' => Some(('ハ', '゛')),
        'ビ' => Some(('ヒ', '゛')),
        'ブ' => Some(('フ', '゛')),
        'ベ' => Some(('ヘ', '゛')),
        'ボ' => Some(('ホ', '゛')),
        'ヴ' => Some(('ウ', '゛')),
        'パ' => Some(('ハ', '゜')),
        'ピ' => Some(('ヒ', '゜')),
        'プ' => Some(('フ', '゜')),
        'ペ' => Some(('ヘ', '゜')),
        'ポ' => Some(('ホ', '゜')),
        _ => None,
    }
}

/// Splits a voiced or semi-voiced katakana into its plain kana and its mark.
pub fn split_voiced(c: char) -> (r: Option<(char, char)>)
    ensures
        r == voiced_parts(c),
{
    match c {
        'ガ' => Some(('カ', '゛')),
        'ギ' => Some(('キ', '゛')),
        'グ' => Some(('ク', '゛')),
        'ゲ' => Some(('ケ', '゛')),
        'ゴ' => Some(('コ', '゛')),
        'ザ' => Some(('サ', '゛')),
        'ジ' => Some(('シ', '゛')),
        'ズ' => Some(('ス', '゛')),
        'ゼ' => Some(('セ', '゛')),
        'ゾ' => Some(('ソ', '゛')),
        'ダ' => Some(('タ', '゛')),
        'ヂ' => Some(('チ', '゛')),
        'ヅ' => Some(('ツ', '゛')),
        'デ' => Some(('テ', '゛')),
        'ド' => Some(('ト', '゛')),
        'バ' => Some(('ハ', '゛')),
        'ビ' => Some(('ヒ', '゛')),
        'ブ' => Some(('フ', '゛')),
        'ベ' => Some(('ヘ', '゛')),
        'ボ' => Some(('ホ', '゛')),
        'ヴ' => Some(('ウ', '゛')),
        'パ' => Some(('ハ', '゜')),
        'ピ' => Some(('ヒ', '゜')),
        'プ' => Some(('フ', '゜')),
        'ペ' => Some(('ヘ', '゜')),
        'ポ' => Some(('ホ', '゜')),
        _ => None,
    }
}

/// Whether element `i` (counted from the first) of `code` is a dash.
pub open spec fn is_dash(code: (u8, u8), i: int) -> bool {
    ((code.1 >> ((code.0 - 1 - i) as u8)) & 1u8) == 1u8
}

/// The spans of one coded character: each element keyed for 1 (dot) or 3
/// (dash) units, followed by a 1-unit gap, except after the last element,
/// which is followed by the 3-unit gap between characters.
pub open spec fn code_spans(code: (u8, u8)) -> Seq<Span> {
    Seq::new(
        2 * code.0 as nat,
        |j: int|
            if j % 2 == 0 {
                (if is_dash(code, j / 2) { 3u8 } else { 1u8 }, true)
            } else {
                (if j == 2 * code.0 - 1 { 3u8 } else { 1u8 }, false)
            },
    )
}

/// The spans of one character of text. A space adds 4 silent units to the 3
/// that end the previous character, for the 7-unit gap between words; a
/// character without a code is skipped.
pub open spec fn char_spans(c: char) -> Seq<Span> {
    if c == ' ' {
        seq![(4u8, false)]
    } else {
        match voiced_parts(c) {
            Some((base, mark)) => code_spans(morse_code(base)) + code_spans(morse_code(mark)),
            None => code_spans(morse_code(c)),
        }
    }
}

/// The spans of a text, character after character.
pub open spec fn text_body_spans(t: Seq<char>) -> Seq<Span>
    decreases t.len(),
{
    if t.len() == 0 {
        Seq::empty()
    } else {
        text_body_spans(t.drop_last()) + char_spans(t.last())
    }
}

/// The whole keying plan of a text: a 2-unit leading pause, then its spans.
pub open spec fn text_spans(t: Seq<char>) -> Seq<Span> {
    seq![(2u8, false)] + text_body_spans(t)
}

/// The total length of spans, in dot units.
pub open spec fn total_units(s: Seq<Span>) -> nat
    decreases s.len(),
{
    if s.len() == 0 {
        0
    } else {
        total_units(s.drop_last()) + s.last().0 as nat
    }
}

/// Nanoseconds in one dot at 1 WPM (a dot lasts six fifths of a second divided by the speed).
pub const DOT_NANOS_AT_ONE_WPM: u64 = 1_200_000_000;

/// The length of one dot at `wpm` words per minute, in whole nanoseconds
/// (rounded down).
pub open spec fn dot_nanos(wpm: u32) -> int {
    DOT_NANOS_AT_ONE_WPM as int / wpm as int
}

/// How long `t` takes to send at `wpm` words per minute, in nanoseconds:
/// the whole-nanosecond dot length times the number of dot units.
#[verifier::opaque]
pub open spec fn phrase_duration_spec(t: Seq<char>, wpm: u32) -> int {
    dot_nanos(wpm) * total_units(text_spans(t))
}

/// Appends the spans of one coded character to `out`.
fn push_code_spans(code: (u8, u8), out: &mut Vec<Span>)
    requires
        code.0 <= 8,
    ensures
        final(out)@ == old(out)@ + code_spans(code),
{
    let n = code.0;
    let ghost start = old(out)@;
    let mut i: u8 = 0;
    while i < n
        invariant
            n == code.0,
            n <= 8,
            i <= n,
            out@ == start + code_spans(code).take(2 * i as int),
        decreases n - i,
    {
        let dash = ((code.1 >> (n - 1 - i)) & 1u8) == 1u8;
        out.push((if dash { 3u8 } else { 1u8 }, true));
        out.push((if i + 1 == n { 3u8 } else { 1u8 }, false));
        proof {
            let cs = code_spans(code);
            assert(cs[2 * i as int] == (if dash { 3u8 } else { 1u8 }, true));
            assert(cs.take(2 * i as int + 2) =~= cs.take(2 * i as int) + seq![
                cs[2 * i as int],
                cs[2 * i as int + 1],
            ]);
        }
        i = i + 1;
    }
    proof {
        assert(code_spans(code).take(2 * n as int) =~= code_spans(code));
    }
}

/// Every code in the table has at most 8 elements.
proof fn lemma_code_len(c: char)
    ensures
        morse_code(c).0 <= 8,
{
}

/// Appends the spans of one character of text to `out`.
pub fn push_char_spans(c: char, out: &mut Vec<Span>)
    ensures
        final(out)@ == old(out)@ + char_spans(c),
{
    if c == ' ' {
        out.push((4u8, false));
        proof {
            assert(final(out)@ =~= old(out)@ + char_spans(c));
        }
    } else {
        match split_voiced(c) {
            Some((base, mark)) => {
                proof {
                    lemma_code_len(base);
                    lemma_code_len(mark);
                }
                push_code_spans(get_morse(base), out);
                push_code_spans(get_morse(mark), out);
                proof {
                    assert(final(out)@ =~= old(out)@ + char_spans(c));
                }
            },
            None => {
                proof {
                    lemma_code_len(c);
                }
                push_code_spans(get_morse(c), out);
            },
        }
    }
}

/// The keying plan of `text` in dot units: a 2-unit leading pause, then the
/// spans of each character in turn.
pub fn get_morse_str(text: &str) -> (r: Vec<Span>)
    ensures
        r@ == text_spans(text@),
{
    let chars = chars_of(text);
    let mut out: Vec<Span> = Vec::new();
    out.push((2u8, false));
    let mut i: usize = 0;
    while i < chars.len()
        invariant
            i <= chars.len(),
            chars@ == text@,
            out@ == seq![(2u8, false)] + text_body_spans(text@.take(i as int)),
        decreases chars.len() - i,
    {
        proof {
            assert(text@.take(i + 1).drop_last() =~= text@.take(i as int));
        }
        push_char_spans(chars[i], &mut out);
        i = i + 1;
        proof {
            assert(out@ =~= seq![(2u8, false)] + text_body_spans(text@.take(i as int)));
        }
    }
    proof {
        assert(text@.take(i as int) =~= text@);
    }
    out
}

/// The length of a prefix grows by the length of the next span.
proof fn lemma_total_units_step(s: Seq<Span>, i: int)
    requires
        0 <= i < s.len(),
    ensures
        total_units(s.take(i + 1)) == total_units(s.take(i)) + s[i].0,
{
    assert(s.take(i + 1).drop_last() =~= s.take(i));
}

/// Every span of a character is 1 to 4 units long.
proof fn lemma_char_spans_bounded(c: char)
    ensures
        forall|k: int| 0 <= k < char_spans(c).len() ==> 1 <= #[trigger] char_spans(c)[k].0 <= 4,
{
    match voiced_parts(c) {
        Some((base, mark)) => {
            let a = code_spans(morse_code(base));
            let b = code_spans(morse_code(mark));
            assert forall|k: int| 0 <= k < (a + b).len() implies 1 <= #[trigger] (a + b)[k].0 <= 4 by {
                if k < a.len() {
                    assert((a + b)[k] == a[k]);
                } else {
                    assert((a + b)[k] == b[k - a.len()]);
                }
            }
        },
        None => {},
    }
}

/// Every span of a text is 1 to 4 units long.
proof fn lemma_body_spans_bounded(t: Seq<char>)
    ensures
        forall|k: int| 0 <= k < text_body_spans(t).len() ==> 1 <= #[trigger] text_body_spans(t)[k].0 <= 4,
    decreases t.len(),
{
    if t.len() > 0 {
        lemma_body_spans_bounded(t.drop_last());
        lemma_char_spans_bounded(t.last());
        let a = text_body_spans(t.drop_last());
        let b = char_spans(t.last());
        assert forall|k: int| 0 <= k < (a + b).len() implies 1 <= #[trigger] (a + b)[k].0 <= 4 by {
            if k < a.len() {
                assert((a + b)[k] == a[k]);
            } else {
                assert((a + b)[k] == b[k - a.len()]);
            }
        }
    }
}

/// Every span of a keying plan is 1 to 4 units long.
pub(crate) proof fn lemma_spans_bounded(t: Seq<char>)
    ensures
        forall|k: int| 0 <= k < text_spans(t).len() ==> 1 <= #[trigger] text_spans(t)[k].0 <= 4,
{
    lemma_body_spans_bounded(t);
    let a = seq![(2u8, false)];
    let b = text_body_spans(t);
    assert forall|k: int| 0 <= k < (a + b).len() implies 1 <= #[trigger] (a + b)[k].0 <= 4 by {
        if k < a.len() {
            assert((a + b)[k] == a[k]);
        } else {
            assert((a + b)[k] == b[k - a.len()]);
        }
    }
}

/// The number of dot units that `text` takes to send.
pub fn phrase_units(text: &str) -> (r: u128)
    ensures
        r == total_units(text_spans(text@)),
        r <= 0x4_0000_0000_0000_0000,
{
    let spans = get_morse_str(text);
    let mut sum: u128 = 0;
    let mut i: usize = 0;
    proof {
        lemma_spans_bounded(text@);
    }
    while i < spans.len()
        invariant
            i <= spans.len(),
            spans@ == text_spans(text@),
            forall|k: int| 0 <= k < spans@.len() ==> #[trigger] spans@[k].0 <= 4,
            sum == total_units(spans@.take(i as int)),
            sum <= 4 * i,
        decreases spans.len() - i,
    {
        proof {
            lemma_total_units_step(spans@, i as int);
        }
        sum = sum + spans[i].0 as u128;
        i = i + 1;
    }
    proof {
        assert(spans@.take(i as int) =~= spans@);
    }
    sum
}

/// How long `text` takes to send at `wpm` words per minute, in nanoseconds
/// (rounded down). The leading pause counts; the replay margin does not.
pub fn phrase_duration(text: &str, wpm: u32) -> (r: u128)
    requires
        wpm >= 1,
    ensures
        r == phrase_duration_spec(text@, wpm),
        r <= 0x4_0000_0000_0000_0000 * 1_200_000_000,
{
    reveal(phrase_duration_spec);
    let units = phrase_units(text);
    let dot = DOT_NANOS_AT_ONE_WPM as u128 / wpm as u128;
    assert(dot <= 1_200_000_000) by (nonlinear_arith)
        requires dot == 1_200_000_000u128 / wpm as u128, wpm >= 1;
    assert(dot * units <= 0x4_0000_0000_0000_0000 * 1_200_000_000) by (nonlinear_arith)
        requires dot <= 1_200_000_000, units <= 0x4_0000_0000_0000_0000u128;
    dot * units
}

/// Every text takes at least the 2-unit leading pause.
proof fn lemma_total_units_at_least_pause(t: Seq<char>)
    ensures
        total_units(text_spans(t)) >= 2,
{
    let s = text_spans(t);
    assert forall|i: int| 0 <= i <= s.len() implies total_units(#[trigger] s.take(i)) >= 2 || i == 0 by {
        if i > 0 {
            lemma_total_prefix_from_first(s, i);
        }
    }
    assert(s.take(s.len() as int) =~= s);
}

proof fn lemma_total_prefix_from_first(s: Seq<Span>, i: int)
    requires
        0 < i <= s.len(),
        s[0] == (2u8, false),
    ensures
        total_units(s.take(i)) >= 2,
    decreases i,
{
    if i == 1 {
        assert(s.take(1).drop_last() =~= Seq::<Span>::empty());
    } else {
        lemma_total_prefix_from_first(s, i - 1);
        lemma_total_units_step(s, i - 1);
    }
}

/// Sending a text takes strictly less time at a higher speed: for speeds up
/// to 34000 WPM two speeds never round to the same whole-nanosecond dot.
pub proof fn lemma_phrase_duration_decreasing(t: Seq<char>, w1: u32, w2: u32)
    requires
        1 <= w1 < w2 <= 34_000,
    ensures
        phrase_duration_spec(t, w2) < phrase_duration_spec(t, w1),
{
    reveal(phrase_duration_spec);
    lemma_total_units_at_least_pause(t);
    let u = total_units(text_spans(t)) as int;
    let a = DOT_NANOS_AT_ONE_WPM as int;
    let q2 = a / w2 as int;
    let q1 = a / w1 as int;
    assert(q2 * w2 <= a) by (nonlinear_arith)
        requires q2 == a / w2 as int, w2 >= 1;
    assert(q2 >= 35_000) by (nonlinear_arith)
        requires q2 == a / w2 as int, a == 1_200_000_000, 1 <= w2 <= 34_000;
    assert((q2 + 1) * w1 <= a) by (nonlinear_arith)
        requires q2 * w2 <= a, q2 >= 35_000, 1 <= w1 < w2 <= 34_000;
    assert(q1 >= q2 + 1) by (nonlinear_arith)
        requires q1 == a / w1 as int, (q2 + 1) * w1 <= a, w1 >= 1;
    assert(q2 * u < q1 * u) by (nonlinear_arith)
        requires q1 >= q2 + 1, u >= 2;
}

/// The duration is the whole-nanosecond dot length times the unit count.
pub proof fn lemma_phrase_duration_is_dots(t: Seq<char>, wpm: u32)
    ensures
        phrase_duration_spec(t, wpm) == dot_nanos(wpm) * total_units(text_spans(t)),
{
    reveal(phrase_duration_spec);
}

/// The spans of two texts one after the other are those of each in turn.
proof fn lemma_body_spans_concat(x: Seq<char>, y: Seq<char>)
    ensures
        text_body_spans(x + y) == text_body_spans(x) + text_body_spans(y),
    decreases y.len(),
{
    if y.len() == 0 {
        assert(x + y =~= x);
        assert(text_body_spans(x) + text_body_spans(y) =~= text_body_spans(x));
    } else {
        assert((x + y).drop_last() =~= x + y.drop_last());
        assert((x + y).last() == y.last());
        lemma_body_spans_concat(x, y.drop_last());
        assert(text_body_spans(x + y) =~= text_body_spans(x) + text_body_spans(y));
    }
}

/// The length of spans one after the other is the sum of their lengths.
proof fn lemma_total_units_concat(p: Seq<Span>, q: Seq<Span>)
    ensures
        total_units(p + q) == total_units(p) + total_units(q),
    decreases q.len(),
{
    if q.len() == 0 {
        assert(p + q =~= p);
    } else {
        assert((p + q).drop_last() =~= p + q.drop_last());
        lemma_total_units_concat(p, q.drop_last());
    }
}

/// The number of dot units of a text, split at any point.
proof fn lemma_units_concat(x: Seq<char>, y: Seq<char>)
    ensures
        total_units(text_spans(x + y)) == total_units(text_spans(x)) + total_units(
            text_body_spans(y),
        ),
{
    lemma_body_spans_concat(x, y);
    assert(text_spans(x + y) =~= text_spans(x) + text_body_spans(y));
    lemma_total_units_concat(text_spans(x), text_body_spans(y));
}

/// A space on its own is four silent dot units.
proof fn lemma_space_units()
    ensures
        total_units(text_body_spans(seq![' '])) == 4,
{
    let sp = seq![' '];
    let e = Seq::<char>::empty();
    assert(sp.drop_last() =~= e);
    assert(sp.len() == 1 && sp.last() == ' ');
    assert(text_body_spans(e) == Seq::<Span>::empty());
    assert(text_body_spans(sp) == text_body_spans(sp.drop_last()) + char_spans(sp.last()));
    assert(char_spans(' ') == seq![(4u8, false)]);
    let g = seq![(4u8, false)];
    assert(text_body_spans(sp) =~= g);
    assert(g.drop_last() =~= Seq::<Span>::empty());
    assert(total_units(g) == total_units(g.drop_last()) + 4);
}

/// A space between two texts adds four dot lengths: with the three that end
/// the character before it, the gap between words is seven dots.
pub proof fn lemma_space_adds_word_gap(a: Seq<char>, b: Seq<char>, wpm: u32)
    ensures
        phrase_duration_spec(a + seq![' '] + b, wpm) == phrase_duration_spec(a + b, wpm) + 4
            * dot_nanos(wpm),
{
    let sp = seq![' '];
    lemma_units_concat(a + sp, b);
    lemma_units_concat(a, sp);
    lemma_units_concat(a, b);
    lemma_space_units();
    let ua = total_units(text_spans(a)) as int;
    let ub = total_units(text_body_spans(b)) as int;
    assert(total_units(text_spans(a + sp + b)) == ua + 4 + ub);
    assert(total_units(text_spans(a + b)) == ua + ub);
    lemma_phrase_duration_is_dots(a + sp + b, wpm);
    lemma_phrase_duration_is_dots(a + b, wpm);
    let d = dot_nanos(wpm);
    assert(d * (ua + 4 + ub) == d * (ua + ub) + 4 * d) by (nonlinear_arith);
}

} // verus!
