//! Japanese prompts: random katakana, judged after width and voicing
//! normalisation.
use vstd::prelude::*;

use crate::lesson::{LessonAnswer, LessonPrompt};
use crate::random::random_below;
use crate::text::push_char;


verus! {

/// What kanaria makes of one code point when it upper-cases and then turns
/// hiragana into katakana: `a`-`z` and full-width `ａ`-`ｚ` drop by 0x20,
/// hiragana (U+3041-U+3096 and U+309D-U+309F) rise by 0x60 to katakana,
/// anything else stays.
pub open spec fn kana_fold_code(x: int) -> int {
    let u = if (0x61 <= x <= 0x7a) || (0xff41 <= x <= 0xff5a) {
        x - 0x20
    } else {
        x
    };
    if (0x3041 <= u <= 0x3096) || (0x309d <= u <= 0x309f) {
        u + 0x60
    } else {
        u
    }
}

/// Whether `r` is `s` with each character folded by [`kana_fold_code`].
pub open spec fn is_kana_folding(s: Seq<char>, r: Seq<char>) -> bool {
    &&& r.len() == s.len()
    &&& forall|i: int| 0 <= i < s.len() ==> #[trigger] r[i] as int == kana_fold_code(s[i] as int)
}

/// `s` with each character folded by [`kana_fold_code`].
pub open spec fn kana_fold_spec(s: Seq<char>) -> Seq<char> {
    choose|r: Seq<char>| is_kana_folding(s, r)
}

/// Only one text is the folding of a text.
proof fn lemma_kana_folding_unique(s: Seq<char>, r: Seq<char>)
    requires
        is_kana_folding(s, r),
    ensures
        r == kana_fold_spec(s),
{
    let c = kana_fold_spec(s);
    assert(is_kana_folding(s, c));
    assert forall|i: int| 0 <= i < r.len() implies r[i] == c[i] by {
        assert(r[i] as int == c[i] as int);
    }
    assert(r =~= c);
}

/// The Unicode compatibility decomposition (NFKD) of a text.
pub uninterp spec fn nfkd_of(s: Seq<char>) -> Seq<char>;

/// Relies on kanaria's `UCSStr`: built by `from_str`, set to `upper_case`
/// and `katakana`, converted by `to_string`; each character is mapped on its
/// own, and every result is a valid character.
#[verifier::external_body]
fn kana_fold(s: &str) -> (r: String)
    ensures
        is_kana_folding(s@, r@),
{
    kanaria::string::UCSStr::from_str(s).upper_case().katakana().to_string()
}

/// Relies on unicode-normalization's `UnicodeNormalization::nfkd`,
/// collected into a `String`.
#[verifier::external_body]
fn nfkd(s: &str) -> (r: String)
    ensures
        r@ == nfkd_of(s@),
{
    unicode_normalization::UnicodeNormalization::nfkd(s).collect::<String>()
}

/// The normal form in which Japanese answers are compared: upper-cased,
/// hiragana as katakana, then decomposed by NFKD (which also widens
/// half-width forms and splits a voiced kana into its plain kana and a
/// voicing mark).
pub open spec fn normalize_spec(s: Seq<char>) -> Seq<char> {
    nfkd_of(kana_fold_spec(s))
}

/// Brings a text to the normal form of [`normalize_spec`].
pub fn normalize_japanese(s: &str) -> (r: String)
    ensures
        r@ == normalize_spec(s@),
{
    let folded = kana_fold(s);
    proof {
        lemma_kana_folding_unique(s@, folded@);
    }
    nfkd(folded.as_str())
}

/// A Japanese prompt, with its normal form kept for judging.
pub struct NormalizedJapaneseAnswer {
    shown: String,
    normalized: String,
}

impl View for NormalizedJapaneseAnswer {
    type V = Seq<char>;

    closed spec fn view(&self) -> Seq<char> {
        self.shown@
    }
}

impl NormalizedJapaneseAnswer {
    #[verifier::type_invariant]
    spec fn inv(&self) -> bool {
        self.normalized@ == normalize_spec(self.shown@)
    }

    /// The prompt showing `text`.
    pub fn new(text: String) -> (r: Self)
        ensures
            r@ == text@,
    {
        let normalized = normalize_japanese(text.as_str());
        NormalizedJapaneseAnswer { shown: text, normalized }
    }

    /// Judges a candidate already brought to normal form: right when it
    /// equals the normal form of this prompt.
    pub fn check_normalized(&self, normalized_input: &str) -> (r: bool)
        ensures
            r == (normalized_input@ == normalize_spec(self@)),
    {
        proof {
            use_type_invariant(self);
        }
        let candidate = normalized_input.to_owned();
        self.normalized == candidate
    }

    /// A copy of this prompt.
    pub fn clone_answer(&self) -> (r: Self)
        ensures
            r@ == self@,
    {
        proof {
            use_type_invariant(self);
        }
        NormalizedJapaneseAnswer { shown: self.shown.clone(), normalized: self.normalized.clone() }
    }
}

impl LessonAnswer for NormalizedJapaneseAnswer {
    open spec fn text(&self) -> Seq<char> {
        self@
    }

    open spec fn accepts(&self, s: Seq<char>) -> bool {
        normalize_spec(s) == normalize_spec(self@)
    }

    fn check(&self, s: &str) -> (r: bool) {
        let normalized_input = normalize_japanese(s);
        self.check_normalized(normalized_input.as_str())
    }

    fn into_str(&self) -> (r: &str) {
        self.shown.as_str()
    }
}

/// The katakana that five-character prompts are drawn from: plain, voiced
/// and semi-voiced.
pub const KATAKANA: &'static str = "アイウエオカキクケコサシスセソタチツテトナニヌネノハヒフヘホマミムメモヤユヨラリルレロワヲンガギグゲゴザジズゼゾダヂヅデドバビブベボパピプペポ";

/// A source of prompts of five random katakana.
pub struct JapaneseFiveCharGen;

/// Whether every character of `s` is one of the katakana prompts use.
pub open spec fn all_katakana(s: Seq<char>) -> bool {
    forall|k: int| 0 <= k < s.len() ==> KATAKANA@.contains(#[trigger] s[k])
}

impl JapaneseFiveCharGen {
    /// The word whose characters are the katakana at `picks`.
    pub fn word_from(picks: &Vec<usize>) -> (r: String)
        requires
            forall|k: int| 0 <= k < picks@.len() ==> #[trigger] picks@[k] < KATAKANA@.len(),
        ensures
            r@ == Seq::new(picks@.len(), |k: int| KATAKANA@[picks@[k] as int]),
    {
        let mut s = String::new();
        let mut i: usize = 0;
        while i < picks.len()
            invariant
                i <= picks.len(),
                forall|k: int| 0 <= k < picks@.len() ==> #[trigger] picks@[k] < KATAKANA@.len(),
                s@ == Seq::new(i as nat, |k: int| KATAKANA@[picks@[k] as int]),
            decreases picks.len() - i,
        {
            let c = KATAKANA.get_char(picks[i]);
            push_char(&mut s, c);
            i = i + 1;
            proof {
                assert(s@ =~= Seq::new(i as nat, |k: int| KATAKANA@[picks@[k] as int]));
            }
        }
        s
    }

    /// Draws a prompt of five random katakana.
    pub fn next(&self) -> (r: Option<LessonPrompt>)
        ensures
            r matches Some(p) && p is Japanese && p.text().len() == 5 && all_katakana(p.text()),
    {
        let n = KATAKANA.unicode_len();
        proof {
            reveal_strlit("アイウエオカキクケコサシスセソタチツテトナニヌネノハヒフヘホマミムメモヤユヨラリルレロワヲンガギグゲゴザジズゼゾダヂヅデドバビブベボパピプペポ");
        }
        let mut picks: Vec<usize> = Vec::new();
        let mut i: usize = 0;
        while i < 5
            invariant
                i <= 5,
                n == KATAKANA@.len(),
                n > 0,
                picks@.len() == i,
                forall|k: int| 0 <= k < picks@.len() ==> #[trigger] picks@[k] < KATAKANA@.len(),
            decreases 5 - i,
        {
            picks.push(random_below(n));
            i = i + 1;
        }
        let word = Self::word_from(&picks);
        proof {
            assert forall|k: int| 0 <= k < word@.len() implies KATAKANA@.contains(#[trigger] word@[k]) by {
                assert(KATAKANA@[picks@[k] as int] == word@[k]);
            }
        }
        Some(LessonPrompt::Japanese(NormalizedJapaneseAnswer::new(word)))
    }
}

} // verus!
