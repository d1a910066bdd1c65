//! Reading the reinstall prompt's answer. The only affirmative answers
//! begin with `y` or `Y` after leading whitespace; anything else — an
//! empty line included — is "no", the safe default.

use vstd::prelude::*;

verus! {

/// ASCII whitespace, as it appears around a line read from a terminal.
pub open spec fn spec_is_space(c: char) -> bool {
    c == ' ' || c == '\t' || c == '\n' || c == '\r'
}

/// Whether an answer counts as "yes": its first character past leading
/// whitespace is `y` or `Y`. Empty or all-whitespace input is "no".
pub open spec fn spec_answer_is_yes(s: Seq<char>) -> bool
    decreases s.len(),
{
    if s.len() == 0 {
        false
    } else if spec_is_space(s[0]) {
        spec_answer_is_yes(s.subrange(1, s.len() as int))
    } else {
        s[0] == 'y' || s[0] == 'Y'
    }
}

/// Decides whether the prompt's answer is an affirmative.
pub fn answer_is_yes(input: &str) -> (r: bool)
    ensures
        r == spec_answer_is_yes(input@),
{
    let len: usize = input.unicode_len();
    let mut i: usize = 0;
    proof {
        assert(input@.subrange(0, len as int) =~= input@);
    }
    while i < len
        invariant
            len == input@.len(),
            i <= len,
            spec_answer_is_yes(input@) == spec_answer_is_yes(
                input@.subrange(i as int, len as int),
            ),
        decreases len - i,
    {
        let c = input.get_char(i);
        if c == ' ' || c == '\t' || c == '\n' || c == '\r' {
            proof {
                assert(input@.subrange(i as int, len as int).subrange(
                    1,
                    input@.subrange(i as int, len as int).len() as int,
                ) =~= input@.subrange(i + 1, len as int));
            }
            i = i + 1;
        } else {
            proof {
                assert(input@.subrange(i as int, len as int)[0] == input@[i as int]);
            }
            return c == 'y' || c == 'Y';
        }
    }
    proof {
        assert(input@.subrange(i as int, len as int).len() == 0);
    }
    false
}

} // verus!
