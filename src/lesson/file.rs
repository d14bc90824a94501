//! Prompts drawn from a line-delimited text corpus.
use vstd::prelude::*;

use crate::lesson::LessonPrompt;
use crate::random::choose_line;

verus! {

/// A source of prompts drawn at random from the lines of a corpus. An empty
/// corpus gives no prompt.
pub struct FileSourceGen {
    data: Vec<String>,
}

/// Whether a corpus name is acceptable: it must not reach into another
/// directory.
pub open spec fn valid_corpus_name(name: Seq<char>) -> bool {
    !name.contains('/')
}

impl FileSourceGen {
    /// The lines prompts are drawn from.
    pub closed spec fn lines(&self) -> Seq<Seq<char>> {
        self.data@.map_values(|s: String| s@)
    }

    /// The source over the lines of a corpus.
    pub fn new(data: Vec<String>) -> (r: Self)
        ensures
            r.lines() == data@.map_values(|s: String| s@),
    {
        FileSourceGen { data }
    }

    /// Whether `name` is acceptable as a corpus name.
    pub fn is_valid_name(name: &str) -> (r: bool)
        ensures
            r == valid_corpus_name(name@),
    {
        let cs = crate::text::chars_of(name);
        let mut i: usize = 0;
        while i < cs.len()
            invariant
                i <= cs.len(),
                cs@ == name@,
                forall|k: int| 0 <= k < i ==> cs@[k] != '/',
            decreases cs.len() - i,
        {
            if cs[i] == '/' {
                return false;
            }
            i = i + 1;
        }
        true
    }

    /// Draws one line of the corpus, or nothing from an empty one.
    pub fn next(&self) -> (r: Option<LessonPrompt>)
        ensures
            r is None <==> self.lines().len() == 0,
            r matches Some(p) ==> p is Plain && self.lines().contains(p->Plain_0@),
    {
        match choose_line(&self.data) {
            None => None,
            Some(line) => {
                let p = line.clone();
                proof {
                    let i = choose|i: int| 0 <= i < self.data@.len() && self.data@[i] == *line;
                    assert(self.lines()[i] == p@);
                }
                Some(LessonPrompt::Plain(p))
            },
        }
    }
}

} // verus!
