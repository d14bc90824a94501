//! Practice prompts: what a participant must transcribe, how a candidate
//! answer is judged, and the sources that draw prompts.
use vstd::prelude::*;

pub mod number;
pub mod japanese;
pub mod callsign;
pub mod acag_number;
pub mod allja_number;
pub mod file;


use crate::lesson::acag_number::{acag_power, ACAGNumberGen};
use crate::lesson::allja_number::{allja_numbers_spec, allja_power, AllJANumberGen};
use crate::lesson::callsign::{is_ja_callsign, JaCallsignGen};
use crate::lesson::file::{valid_corpus_name, FileSourceGen};
use crate::lesson::japanese::{all_katakana, JapaneseFiveCharGen, NormalizedJapaneseAnswer};
use crate::lesson::number::{report_prefix, LessonAnswerContestNumber};
use crate::text::{chars_of, string_of};

verus! {

/// A prompt: the text to send, and the candidate answers it accepts.
/// Candidates are judged after upper-casing.
pub trait LessonAnswer {
    /// The text that is sent and shown.
    spec fn text(&self) -> Seq<char>;

    /// Whether the (upper-cased) candidate `s` is a right answer.
    spec fn accepts(&self, s: Seq<char>) -> bool;

    /// Judges the (upper-cased) candidate `s`.
    fn check(&self, s: &str) -> (r: bool)
        ensures
            r == self.accepts(s@),
    ;

    /// The text that is sent and shown.
    fn into_str(&self) -> (r: &str)
        ensures
            r@ == self.text(),
    ;
}

/// A plain prompt accepts exactly its own text.
impl LessonAnswer for String {
    open spec fn text(&self) -> Seq<char> {
        self@
    }

    open spec fn accepts(&self, s: Seq<char>) -> bool {
        s == self@
    }

    fn check(&self, s: &str) -> (r: bool) {
        let candidate = s.to_owned();
        *self == candidate
    }

    fn into_str(&self) -> (r: &str) {
        self.as_str()
    }
}

/// A prompt of any kind that the sources draw.
pub enum LessonPrompt {
    /// Accepts exactly its own text.
    Plain(String),
    /// A contest exchange: the leading signal report may be left out.
    ContestNumber(LessonAnswerContestNumber),
    /// Japanese text, compared after width and voicing normalisation.
    Japanese(NormalizedJapaneseAnswer),
}

impl LessonAnswer for LessonPrompt {
    open spec fn text(&self) -> Seq<char> {
        match self {
            LessonPrompt::Plain(p) => p.text(),
            LessonPrompt::ContestNumber(p) => p.text(),
            LessonPrompt::Japanese(p) => p.text(),
        }
    }

    open spec fn accepts(&self, s: Seq<char>) -> bool {
        match self {
            LessonPrompt::Plain(p) => p.accepts(s),
            LessonPrompt::ContestNumber(p) => p.accepts(s),
            LessonPrompt::Japanese(p) => p.accepts(s),
        }
    }

    fn check(&self, s: &str) -> (r: bool) {
        match self {
            LessonPrompt::Plain(p) => p.check(s),
            LessonPrompt::ContestNumber(p) => p.check(s),
            LessonPrompt::Japanese(p) => p.check(s),
        }
    }

    fn into_str(&self) -> (r: &str) {
        match self {
            LessonPrompt::Plain(p) => p.into_str(),
            LessonPrompt::ContestNumber(p) => p.into_str(),
            LessonPrompt::Japanese(p) => p.into_str(),
        }
    }
}

impl LessonPrompt {
    /// A copy of this prompt.
    pub fn clone_prompt(&self) -> (r: LessonPrompt)
        ensures
            r.text() == self.text(),
            forall|s: Seq<char>| r.accepts(s) == self.accepts(s),
    {
        match self {
            LessonPrompt::Plain(p) => LessonPrompt::Plain(p.clone()),
            LessonPrompt::ContestNumber(p) => LessonPrompt::ContestNumber(p.clone_answer()),
            LessonPrompt::Japanese(p) => LessonPrompt::Japanese(p.clone_answer()),
        }
    }
}

/// Whether `a` from `start` on equals `b`.
pub fn chars_equal_from(a: &Vec<char>, start: usize, b: &Vec<char>) -> (r: bool)
    requires
        start <= a.len(),
    ensures
        r == (a@.skip(start as int) == b@),
{
    if a.len() - start != b.len() {
        proof {
            assert(a@.skip(start as int).len() != b@.len());
        }
        return false;
    }
    let mut i: usize = 0;
    while i < b.len()
        invariant
            a.len() - start == b.len(),
            start <= a.len(),
            i <= b.len(),
            forall|k: int| 0 <= k < i ==> a@[start + k] == b@[k],
        decreases b.len() - i,
    {
        if a[start + i] != b[i] {
            proof {
                assert(a@.skip(start as int)[i as int] != b@[i as int]);
            }
            return false;
        }
        i = i + 1;
    }
    proof {
        assert(a@.skip(start as int) =~= b@);
    }
    true
}

/// Why a lesson could not be set up.
#[derive(Clone, Copy, Debug, PartialEq, Eq)]
pub enum LessonError {
    /// The lowest speed is above the highest.
    MinSpeedAboveMax,
    /// The lowest frequency is above the highest.
    MinFreqAboveMax,
    /// No prompt source has the requested name.
    UnknownProbSet,
    /// The corpus name reaches into another directory.
    InvalidFilename,
    /// The named corpus could not be loaded.
    CorpusUnavailable,
}

/// The prompt sources a lesson can draw from.
pub enum LessonGen {
    /// Random Japanese callsigns.
    CallJa(JaCallsignGen),
    /// Lines of a text corpus.
    File(FileSourceGen),
    /// All-JA contest exchanges.
    NrAllJa(AllJANumberGen),
    /// All-Cities/All-Gun contest exchanges.
    NrAcag(ACAGNumberGen),
    /// Five random katakana.
    Rand5Jp(JapaneseFiveCharGen),
}

impl LessonGen {
    /// Whether the source can give no prompt: only a source over an empty
    /// table or corpus.
    pub open spec fn exhausted(&self) -> bool {
        match self {
            LessonGen::File(f) => f.lines().len() == 0,
            LessonGen::NrAllJa(g) => g.numbers().len() == 0,
            LessonGen::NrAcag(g) => g.numbers().len() == 0,
            _ => false,
        }
    }

    /// Whether `p` is a prompt this source can give: a callsign of the
    /// grammar, a line of the corpus, an exchange of the number table, or
    /// five katakana.
    pub open spec fn can_give(&self, p: LessonPrompt) -> bool {
        match self {
            LessonGen::CallJa(_) => p is Plain && is_ja_callsign(p.text()),
            LessonGen::File(f) => p is Plain && f.lines().contains(p.text()),
            LessonGen::NrAllJa(g) => p is ContestNumber && exists|i: int, pw: u8|
                0 <= i < g.numbers().len() && p.text() == report_prefix() + g.numbers()[i].push(
                    allja_power(pw),
                ),
            LessonGen::NrAcag(g) => p is ContestNumber && exists|i: int, pw: u8|
                0 <= i < g.numbers().len() && p.text() == report_prefix() + g.numbers()[i].push(
                    acag_power(pw),
                ),
            LessonGen::Rand5Jp(_) => p is Japanese && p.text().len() == 5 && all_katakana(p.text()),
        }
    }

    /// Draws the next prompt; nothing only from an exhausted source.
    pub fn next(&self) -> (r: Option<LessonPrompt>)
        ensures
            r is None <==> self.exhausted(),
            r matches Some(p) ==> self.can_give(p),
            self is CallJa ==> (r matches Some(p) && p is Plain && is_ja_callsign(p.text())),
            self is Rand5Jp ==> (r matches Some(p) && p is Japanese && p.text().len() == 5
                && all_katakana(p.text())),
            self is File ==> (r matches Some(p) ==> p is Plain && self->File_0.lines().contains(
                p.text(),
            )),
            self is NrAllJa ==> (r matches Some(p) ==> p is ContestNumber && exists|i: int, pw: u8|
                0 <= i < self->NrAllJa_0.numbers().len() && p.text() == report_prefix()
                    + self->NrAllJa_0.numbers()[i].push(allja_power(pw))),
            self is NrAcag ==> (r matches Some(p) ==> p is ContestNumber && exists|i: int, pw: u8|
                0 <= i < self->NrAcag_0.numbers().len() && p.text() == report_prefix()
                    + self->NrAcag_0.numbers()[i].push(acag_power(pw))),
    {
        match self {
            LessonGen::CallJa(g) => g.next(),
            LessonGen::File(g) => g.next(),
            LessonGen::NrAllJa(g) => match g.next_number() {
                None => None,
                Some(n) => Some(LessonPrompt::ContestNumber(LessonAnswerContestNumber::new_5nn(n.as_str()))),
            },
            LessonGen::NrAcag(g) => match g.next() {
                None => None,
                Some(n) => Some(LessonPrompt::ContestNumber(LessonAnswerContestNumber::new_5nn(n.as_str()))),
            },
            LessonGen::Rand5Jp(g) => g.next(),
        }
    }
}

/// Whether `k` is the position of the first ':' of `s`.
pub open spec fn is_first_colon(s: Seq<char>, k: int) -> bool {
    &&& 0 <= k < s.len()
    &&& s[k] == ':'
    &&& forall|j: int| 0 <= j < k ==> s[j] != ':'
}

/// The source name of a selector: what precedes the first ':', or all of it.
pub open spec fn probset_name(s: Seq<char>) -> Seq<char> {
    if s.contains(':') {
        s.take(choose|k: int| is_first_colon(s, k))
    } else {
        s
    }
}

/// The arguments of a selector: what follows the first ':', or nothing.
pub open spec fn probset_args(s: Seq<char>) -> Seq<char> {
    if s.contains(':') {
        s.skip((choose|k: int| is_first_colon(s, k)) + 1)
    } else {
        Seq::empty()
    }
}

/// Splits a selector into its source name and its arguments.
pub fn split_probset(probset: &str) -> (r: (Vec<char>, Vec<char>))
    ensures
        r.0@ == probset_name(probset@),
        r.1@ == probset_args(probset@),
{
    let cs = chars_of(probset);
    let mut i: usize = 0;
    while i < cs.len() && cs[i] != ':'
        invariant
            i <= cs.len(),
            cs@ == probset@,
            forall|j: int| 0 <= j < i ==> cs@[j] != ':',
        decreases cs.len() - i,
    {
        i = i + 1;
    }
    let mut name: Vec<char> = Vec::new();
    let mut k: usize = 0;
    while k < i
        invariant
            k <= i <= cs.len(),
            name@ == cs@.take(k as int),
        decreases i - k,
    {
        name.push(cs[k]);
        k = k + 1;
        proof {
            assert(name@ =~= cs@.take(k as int));
        }
    }
    let mut args: Vec<char> = Vec::new();
    if i < cs.len() {
        let mut m: usize = i + 1;
        while m < cs.len()
            invariant
                i < cs.len(),
                i + 1 <= m <= cs.len(),
                args@ == cs@.subrange(i + 1, m as int),
            decreases cs.len() - m,
        {
            args.push(cs[m]);
            m = m + 1;
            proof {
                assert(args@ =~= cs@.subrange(i + 1, m as int));
            }
        }
        proof {
            let s = probset@;
            assert(is_first_colon(s, i as int));
            assert(s.contains(':'));
            let c = choose|k: int| is_first_colon(s, k);
            assert(is_first_colon(s, c));
            assert(c == i) by {
                if c < i {
                    assert(s[c] != ':');
                }
                if c > i {
                    assert(s[i as int] != ':');
                }
            }
            assert(args@ =~= s.skip(i + 1));
        }
    } else {
        proof {
            assert(!probset@.contains(':'));
            assert(name@ =~= probset@);
            assert(args@ =~= Seq::<char>::empty());
        }
    }
    (name, args)
}

/// Whether the name spells the literal `lit`.
fn name_is(name: &Vec<char>, lit: &str) -> (r: bool)
    ensures
        r == (name@ == lit@),
{
    let l = chars_of(lit);
    let r = chars_equal_from(name, 0, &l);
    proof {
        assert(name@.skip(0) =~= name@);
    }
    r
}

/// The corpus a selector asks to load: its arguments when it names the
/// text-corpus source.
pub fn corpus_request(probset: &str) -> (r: Option<String>)
    ensures
        probset_name(probset@) == "file"@ ==> (r matches Some(n) && n@ == probset_args(probset@)),
        probset_name(probset@) != "file"@ ==> r is None,
{
    let (name, args) = split_probset(probset);
    if name_is(&name, "file") {
        Some(string_of(&args))
    } else {
        None
    }
}

/// Why a selector names no usable source, if it does not: an unknown name,
/// a corpus name reaching into another directory, or a corpus that was not
/// loaded.
pub open spec fn probset_error(probset: Seq<char>, has_corpus: bool) -> Option<LessonError> {
    let name = probset_name(probset);
    if name == "call_ja"@ || name == "nr_allja"@ || name == "nr_acag"@ || name == "rand5_jp"@ {
        None
    } else if name == "file"@ {
        if !valid_corpus_name(probset_args(probset)) {
            Some(LessonError::InvalidFilename)
        } else if !has_corpus {
            Some(LessonError::CorpusUnavailable)
        } else {
            None
        }
    } else {
        Some(LessonError::UnknownProbSet)
    }
}

/// Whether `g` is the source that selector `probset` names, over `corpus`
/// for a text corpus.
pub open spec fn is_named_gen(g: LessonGen, probset: Seq<char>, corpus: Option<Vec<String>>) -> bool {
    let name = probset_name(probset);
    &&& name == "call_ja"@ ==> g is CallJa
    &&& name == "file"@ ==> (g is File && corpus is Some && g->File_0.lines()
        == corpus->0@.map_values(|s: String| s@))
    &&& name == "nr_allja"@ ==> (g is NrAllJa && g->NrAllJa_0.numbers() == allja_numbers_spec())
    &&& name == "nr_acag"@ ==> (g is NrAcag && g->NrAcag_0.numbers().len() > 0)
    &&& name == "rand5_jp"@ ==> g is Rand5Jp
}

/// The prompt source a selector names: "call_ja", "file:<corpus>" (whose
/// lines the caller loaded into `corpus`), "nr_allja", "nr_acag" or
/// "rand5_jp".
pub fn get_lesson_gen(probset: &str, corpus: Option<Vec<String>>) -> (r: Result<LessonGen, LessonError>)
    ensures
        r is Ok <==> probset_error(probset@, corpus is Some) is None,
        r matches Err(e) ==> probset_error(probset@, corpus is Some) == Some(e),
        r matches Ok(g) ==> is_named_gen(g, probset@, corpus),
        ({
            let name = probset_name(probset@);
            let args = probset_args(probset@);
            &&& name == "call_ja"@ ==> (r matches Ok(g) && g is CallJa)
            &&& name == "file"@ && !valid_corpus_name(args) ==> r == Err::<LessonGen, LessonError>(
                LessonError::InvalidFilename,
            )
            &&& name == "file"@ && valid_corpus_name(args) && corpus is None ==> r == Err::<
                LessonGen,
                LessonError,
            >(LessonError::CorpusUnavailable)
            &&& name == "file"@ && valid_corpus_name(args) && corpus is Some ==> (r matches Ok(g)
                && g is File && g->File_0.lines() == corpus->0@.map_values(|s: String| s@))
            &&& name == "nr_allja"@ ==> (r matches Ok(g) && g is NrAllJa
                && g->NrAllJa_0.numbers() == allja_numbers_spec())
            &&& name == "nr_acag"@ ==> (r matches Ok(g) && g is NrAcag
                && g->NrAcag_0.numbers().len() > 0)
            &&& name == "rand5_jp"@ ==> (r matches Ok(g) && g is Rand5Jp)
            &&& name != "call_ja"@ && name != "file"@ && name != "nr_allja"@ && name != "nr_acag"@
                && name != "rand5_jp"@ ==> r == Err::<LessonGen, LessonError>(
                LessonError::UnknownProbSet,
            )
        }),
{
    proof {
        reveal_strlit("call_ja");
        reveal_strlit("file");
        reveal_strlit("nr_allja");
        reveal_strlit("nr_acag");
        reveal_strlit("rand5_jp");
        assert("call_ja"@.len() == 7 && "call_ja"@[0] == 'c');
        assert("file"@.len() == 4);
        assert("nr_allja"@.len() == 8 && "nr_allja"@[0] == 'n');
        assert("nr_acag"@.len() == 7 && "nr_acag"@[0] == 'n');
        assert("rand5_jp"@.len() == 8 && "rand5_jp"@[0] == 'r');
    }
    let (name, args) = split_probset(probset);
    if name_is(&name, "call_ja") {
        Ok(LessonGen::CallJa(JaCallsignGen))
    } else if name_is(&name, "file") {
        let corpus_name = string_of(&args);
        if !FileSourceGen::is_valid_name(corpus_name.as_str()) {
            return Err(LessonError::InvalidFilename);
        }
        match corpus {
            None => Err(LessonError::CorpusUnavailable),
            Some(lines) => Ok(LessonGen::File(FileSourceGen::new(lines))),
        }
    } else if name_is(&name, "nr_allja") {
        Ok(LessonGen::NrAllJa(AllJANumberGen::new()))
    } else if name_is(&name, "nr_acag") {
        Ok(LessonGen::NrAcag(ACAGNumberGen::new()))
    } else if name_is(&name, "rand5_jp") {
        Ok(LessonGen::Rand5Jp(JapaneseFiveCharGen))
    } else {
        Err(LessonError::UnknownProbSet)
    }
}

} // verus!
