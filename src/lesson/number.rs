//! Contest exchanges: a signal report followed by a number.
use vstd::prelude::*;

use crate::lesson::{chars_equal_from, LessonAnswer};
use crate::text::{chars_of, push_char, trim, trim_spec};

verus! {

/// The signal report that opens an exchange: "5NN ".
pub open spec fn report_prefix() -> Seq<char> {
    seq!['5', 'N', 'N', ' ']
}

/// Whether the candidate `s` names the exchange `answer` (which opens with
/// the report): either the number alone, or "5NN" followed by the number,
/// with white space around the number ignored.
pub open spec fn contest_accepts(answer: Seq<char>, s: Seq<char>) -> bool {
    let rest = if s.len() >= 3 && s.take(3) == seq!['5', 'N', 'N'] {
        trim_spec(s.skip(3))
    } else {
        s
    };
    rest == answer.skip(4)
}

/// A contest exchange such as "5NN 0101H".
#[derive(Debug)]
pub struct LessonAnswerContestNumber(String);

impl View for LessonAnswerContestNumber {
    type V = Seq<char>;

    closed spec fn view(&self) -> Seq<char> {
        self.0@
    }
}

impl LessonAnswerContestNumber {
    #[verifier::type_invariant]
    spec fn inv(&self) -> bool {
        self.0@.len() >= 4 && self.0@.take(4) == report_prefix()
    }

    /// The exchange made of the report "5NN " and the number `s`.
    pub fn new_5nn(s: &str) -> (r: Self)
        ensures
            r@ == report_prefix() + s@,
    {
        let mut text = String::new();
        push_char(&mut text, '5');
        push_char(&mut text, 'N');
        push_char(&mut text, 'N');
        push_char(&mut text, ' ');
        text.append(s);
        proof {
            assert(text@.take(4) =~= report_prefix());
        }
        LessonAnswerContestNumber(text)
    }

    /// A copy of this exchange.
    pub fn clone_answer(&self) -> (r: Self)
        ensures
            r@ == self@,
    {
        proof {
            use_type_invariant(self);
        }
        LessonAnswerContestNumber(self.0.clone())
    }
}

impl LessonAnswer for LessonAnswerContestNumber {
    open spec fn text(&self) -> Seq<char> {
        self@
    }

    open spec fn accepts(&self, s: Seq<char>) -> bool {
        contest_accepts(self@, s)
    }

    fn check(&self, s: &str) -> (r: bool) {
        proof {
            use_type_invariant(self);
        }
        let cs = chars_of(s);
        let answer = chars_of(self.0.as_str());
        let starts = cs.len() >= 3 && cs[0] == '5' && cs[1] == 'N' && cs[2] == 'N';
        proof {
            if cs.len() >= 3 {
                assert((cs@.take(3) == seq!['5', 'N', 'N']) == (cs@[0] == '5' && cs@[1] == 'N'
                    && cs@[2] == 'N')) by {
                    if cs@[0] == '5' && cs@[1] == 'N' && cs@[2] == 'N' {
                        assert(cs@.take(3) =~= seq!['5', 'N', 'N']);
                    }
                    if cs@.take(3) == seq!['5', 'N', 'N'] {
                        assert(cs@.take(3)[1] == 'N');
                    }
                }
            }
        }
        if starts {
            let mut tail: Vec<char> = Vec::new();
            let mut i: usize = 3;
            while i < cs.len()
                invariant
                    3 <= i <= cs.len(),
                    tail@ == cs@.subrange(3, i as int),
                decreases cs.len() - i,
            {
                tail.push(cs[i]);
                i = i + 1;
                proof {
                    assert(tail@ =~= cs@.subrange(3, i as int));
                }
            }
            proof {
                assert(tail@ =~= cs@.skip(3));
            }
            let rest = trim(&tail);
            let r = chars_equal_from(&answer, 4, &rest);
            proof {
                assert(r == (rest@ == answer@.skip(4)));
            }
            r
        } else {
            chars_equal_from(&answer, 4, &cs)
        }
    }

    fn into_str(&self) -> (r: &str) {
        self.0.as_str()
    }
}

} // verus!
