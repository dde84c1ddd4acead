//! Menu helpers: spotting the words that leave a menu or a conversation.

use vstd::prelude::*;

use crate::text::{check_quit_word, first_word, is_quit_word};

verus! {

/// Whether the first word of a line quits the menu.
pub fn parse_quit(words: Vec<String>) -> (r: bool)
    ensures
        r == is_quit_word(first_word(words.deep_view())),
{
    let w: &str = if words.len() > 0 {
        words[0].as_str()
    } else {
        proof {
            reveal_strlit("");
        }
        ""
    };
    proof {
        if words.len() == 0 {
            assert(w@ =~= first_word(words.deep_view()));
        } else {
            assert(w@ == first_word(words.deep_view()));
        }
    }
    check_quit_word(w)
}

} // verus!
