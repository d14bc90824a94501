//! The cat command: it mews.
use vstd::prelude::*;

use crate::text::concat;

verus! {

/// One mew.
pub const MEW: &'static str = "にゃーん";

/// How many mews a count asks for: one by default, between 1 and 32.
pub open spec fn mew_count(count: Option<i64>) -> int {
    match count {
        None => 1,
        Some(c) => if c < 1 {
            1
        } else if c > 32 {
            32
        } else {
            c as int
        },
    }
}

/// `s` written `n` times.
pub open spec fn repeat_text(s: Seq<char>, n: nat) -> Seq<char>
    decreases n,
{
    if n == 0 {
        Seq::empty()
    } else {
        repeat_text(s, (n - 1) as nat) + s
    }
}

/// The reply to the cat command with an optional count.
pub fn run(count: Option<i64>) -> (r: String)
    ensures
        r@ == repeat_text(MEW@, mew_count(count) as nat),
{
    let n: i64 = match count {
        None => 1,
        Some(c) => if c < 1 {
            1
        } else if c > 32 {
            32
        } else {
            c
        },
    };
    let mut out = String::new();
    let mut i: i64 = 0;
    while i < n
        invariant
            0 <= i <= n,
            n == mew_count(count),
            out@ == repeat_text(MEW@, i as nat),
        decreases n - i,
    {
        out = concat(out.as_str(), MEW);
        i = i + 1;
    }
    out
}

} // verus!
