//! Japanese amateur radio callsigns drawn from a fixed grammar.
use vstd::prelude::*;

use crate::lesson::LessonPrompt;
use crate::random::{random_below, random_byte};
use crate::text::push_char;

verus! {

pub const ALPHA: &'static str = "ABCDEFGHIJKLMNOPQRSTUVWXYZ";

pub const ALNUM: &'static str = "ABCDEFGHIJKLMNOPQRSTUVWXYZ0123456789";

pub const NUM: &'static str = "0123456789";

/// Second letters of "J" callsigns.
pub const JA_PRF: &'static str = "AEFGHIJKLMNOPQRS";

/// Second letters of "J" callsigns in the classic grammar.
pub const JA_PRF_CLASSIC: &'static str = "ADEFGHJKLMNPQRS";

/// Second letters of "7" callsigns.
pub const JA_SEVEN: &'static str = "JKLMN";

/// Second letters of "8" callsigns.
pub const JA_EIGHT: &'static str = "JN";

/// The fixed opening of a callsign of the template picked by `kind`. The
/// classic grammar has no "JD1" template.
pub open spec fn prefix_spec(kind: u8, classic: bool) -> Seq<char> {
    if kind <= 13 {
        seq!['7']
    } else if kind == 14 {
        seq!['8']
    } else if kind <= 18 {
        seq!['J', 'A']
    } else if kind == 19 {
        seq!['J', 'R', '6']
    } else if kind <= 29 && !classic {
        seq!['J', 'D', '1']
    } else {
        seq!['J']
    }
}

/// The character classes that follow the opening, one per position.
pub open spec fn classes_spec(kind: u8, classic: bool) -> Seq<&'static str> {
    if kind <= 13 {
        seq![JA_SEVEN, NUM, ALPHA, ALPHA, ALPHA]
    } else if kind == 14 {
        seq![JA_EIGHT, NUM, ALNUM, ALNUM, ALNUM]
    } else if kind <= 18 {
        seq![NUM, ALPHA, ALPHA]
    } else if kind == 19 {
        seq![ALPHA, ALPHA]
    } else if kind <= 29 && !classic {
        seq![ALPHA, ALPHA, ALPHA]
    } else if classic {
        seq![JA_PRF_CLASSIC, NUM, ALPHA, ALPHA, ALPHA]
    } else {
        seq![JA_PRF, NUM, ALPHA, ALPHA, ALPHA]
    }
}

/// Whether `picks` picks one character of each class, and `digit` a digit.
pub open spec fn valid_picks(kind: u8, classic: bool, picks: Seq<usize>, digit: usize) -> bool {
    &&& picks.len() == classes_spec(kind, classic).len()
    &&& forall|k: int|
        0 <= k < picks.len() ==> #[trigger] picks[k] < classes_spec(kind, classic)[k]@.len()
    &&& digit < NUM@.len()
}

/// The callsign of template `kind` with the picked characters; when
/// `portable` is below 50 it is followed by "/" and the picked digit.
pub open spec fn callsign_spec(
    kind: u8,
    classic: bool,
    picks: Seq<usize>,
    portable: u8,
    digit: usize,
) -> Seq<char> {
    let cl = classes_spec(kind, classic);
    let base = prefix_spec(kind, classic) + Seq::new(cl.len(), |k: int| cl[k]@[picks[k] as int]);
    if portable < 50 {
        base + seq!['/', NUM@[digit as int]]
    } else {
        base
    }
}

/// Whether `s` is a callsign of the grammar (the classic one when
/// `classic`).
pub open spec fn is_callsign_of(s: Seq<char>, classic: bool) -> bool {
    exists|kind: u8, picks: Seq<usize>, portable: u8, digit: usize|
        valid_picks(kind, classic, picks, digit) && s == #[trigger] callsign_spec(
            kind,
            classic,
            picks,
            portable,
            digit,
        )
}

/// Whether `s` is a callsign of the lesson grammar.
pub open spec fn is_ja_callsign(s: Seq<char>) -> bool {
    is_callsign_of(s, false)
}

fn prefix(kind: u8, classic: bool) -> (r: String)
    ensures
        r@ == prefix_spec(kind, classic),
{
    let mut s = String::new();
    if kind <= 13 {
        push_char(&mut s, '7');
    } else if kind == 14 {
        push_char(&mut s, '8');
    } else if kind <= 18 {
        push_char(&mut s, 'J');
        push_char(&mut s, 'A');
    } else if kind == 19 {
        push_char(&mut s, 'J');
        push_char(&mut s, 'R');
        push_char(&mut s, '6');
    } else if kind <= 29 && !classic {
        push_char(&mut s, 'J');
        push_char(&mut s, 'D');
        push_char(&mut s, '1');
    } else {
        push_char(&mut s, 'J');
    }
    proof {
        assert(s@ =~= prefix_spec(kind, classic));
    }
    s
}

fn classes(kind: u8, classic: bool) -> (r: Vec<&'static str>)
    ensures
        r@ == classes_spec(kind, classic),
{
    let mut v: Vec<&'static str> = Vec::new();
    if kind <= 13 {
        v.push(JA_SEVEN);
        v.push(NUM);
        v.push(ALPHA);
        v.push(ALPHA);
        v.push(ALPHA);
    } else if kind == 14 {
        v.push(JA_EIGHT);
        v.push(NUM);
        v.push(ALNUM);
        v.push(ALNUM);
        v.push(ALNUM);
    } else if kind <= 18 {
        v.push(NUM);
        v.push(ALPHA);
        v.push(ALPHA);
    } else if kind == 19 {
        v.push(ALPHA);
        v.push(ALPHA);
    } else if kind <= 29 && !classic {
        v.push(ALPHA);
        v.push(ALPHA);
        v.push(ALPHA);
    } else if classic {
        v.push(JA_PRF_CLASSIC);
        v.push(NUM);
        v.push(ALPHA);
        v.push(ALPHA);
        v.push(ALPHA);
    } else {
        v.push(JA_PRF);
        v.push(NUM);
        v.push(ALPHA);
        v.push(ALPHA);
        v.push(ALPHA);
    }
    proof {
        assert(v@ =~= classes_spec(kind, classic));
    }
    v
}

/// The callsign of template `kind` with the given picks (see
/// [`callsign_spec`]).
pub fn callsign_from(kind: u8, classic: bool, picks: &Vec<usize>, portable: u8, digit: usize) -> (r:
    String)
    requires
        valid_picks(kind, classic, picks@, digit),
    ensures
        r@ == callsign_spec(kind, classic, picks@, portable, digit),
{
    let cl = classes(kind, classic);
    let mut s = prefix(kind, classic);
    let ghost base_start = s@;
    let mut i: usize = 0;
    while i < cl.len()
        invariant
            cl@ == classes_spec(kind, classic),
            valid_picks(kind, classic, picks@, digit),
            i <= cl.len(),
            base_start == prefix_spec(kind, classic),
            s@ == base_start + Seq::new(i as nat, |k: int| cl@[k]@[picks@[k] as int]),
        decreases cl.len() - i,
    {
        let c = cl[i].get_char(picks[i]);
        push_char(&mut s, c);
        i = i + 1;
        proof {
            assert(s@ =~= base_start + Seq::new(i as nat, |k: int| cl@[k]@[picks@[k] as int]));
        }
    }
    if portable < 50 {
        push_char(&mut s, '/');
        push_char(&mut s, NUM.get_char(digit));
        proof {
            assert(s@ =~= callsign_spec(kind, classic, picks@, portable, digit));
        }
    }
    s
}

/// Draws a callsign of the grammar (the classic one when `classic`).
fn draw_callsign(classic: bool) -> (r: String)
    ensures
        is_callsign_of(r@, classic),
{
    let kind = random_byte();
    let cl = classes(kind, classic);
    let mut picks: Vec<usize> = Vec::new();
    let mut i: usize = 0;
    while i < cl.len()
        invariant
            cl@ == classes_spec(kind, classic),
            i <= cl.len(),
            picks@.len() == i,
            forall|k: int| 0 <= k < i ==> #[trigger] picks@[k] < cl@[k]@.len(),
        decreases cl.len() - i,
    {
        let n = cl[i].unicode_len();
        proof {
            reveal_strlit("ABCDEFGHIJKLMNOPQRSTUVWXYZ");
            reveal_strlit("ABCDEFGHIJKLMNOPQRSTUVWXYZ0123456789");
            reveal_strlit("0123456789");
            reveal_strlit("AEFGHIJKLMNOPQRS");
            reveal_strlit("ADEFGHJKLMNPQRS");
            reveal_strlit("JKLMN");
            reveal_strlit("JN");
        }
        let p = random_below(n);
        picks.push(p);
        i = i + 1;
    }
    let portable = random_byte();
    let digits = NUM.unicode_len();
    proof {
        reveal_strlit("0123456789");
    }
    let digit = random_below(digits);
    let s = callsign_from(kind, classic, &picks, portable, digit);
    proof {
        assert(valid_picks(kind, classic, picks@, digit));
    }
    s
}

/// Draws a callsign of the classic grammar, which knows no "JD1" callsigns
/// and a different set of second letters.
pub fn generate_callsign() -> (r: String)
    ensures
        is_callsign_of(r@, true),
{
    draw_callsign(true)
}

/// A source of random Japanese callsigns; it never runs dry.
pub struct JaCallsignGen;

impl JaCallsignGen {
    /// Draws a callsign of the grammar.
    pub fn next(&self) -> (r: Option<LessonPrompt>)
        ensures
            r matches Some(p) && p is Plain && is_ja_callsign(p->Plain_0@),
    {
        Some(LessonPrompt::Plain(draw_callsign(false)))
    }
}

} // verus!
