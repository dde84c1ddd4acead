//! Text handling for the command loop: unwrapping optional words, case
//! folding, splitting a line into words, and parsing numbers.
//!
//! Lines are split on the Unicode white-space characters and folded through
//! the standard library's lowercase mapping, as the command loop expects;
//! on ASCII input the fold is exactly the A-Z to a-z one, which is what the
//! dispatch contracts build on.

use vstd::prelude::*;

use vstd::utf8::is_ascii_chars;

verus! {

/// Unwraps the option possibly containing a string.
///
/// Can return an empty string.
pub fn unwrap_str<'a>(w: Option<&'a String>) -> (r: &'a str)
    ensures
        r@ == (match w {
            Some(s) => s@,
            None => Seq::<char>::empty(),
        }),
{
    match w {
        Some(s) => s.as_str(),
        None => {
            let r = "";
            proof {
                reveal_strlit("");
                assert(r@ =~= Seq::<char>::empty());
            }
            r
        },
    }
}

/// Character-for-character equality of two string slices.
pub fn str_eq(a: &str, b: &str) -> (r: bool)
    ensures
        r == (a@ == b@),
{
    let alen = a.unicode_len();
    let blen = b.unicode_len();
    if alen != blen {
        return false;
    }
    let mut i: usize = 0;
    while i < alen
        invariant
            i <= alen,
            alen == a@.len(),
            alen == b@.len(),
            forall|j: int| 0 <= j < i ==> a@[j] == b@[j],
        decreases alen - i,
    {
        if a.get_char(i) != b.get_char(i) {
            return false;
        }
        i = i + 1;
    }
    proof {
        assert(a@ =~= b@);
    }
    true
}

/// The ASCII lower-case counterpart of a character; everything outside
/// `'A'..='Z'` is left as it is.
pub open spec fn lower_char(c: char) -> char {
    if c == 'A' {
        'a'
    } else if c == 'B' {
        'b'
    } else if c == 'C' {
        'c'
    } else if c == 'D' {
        'd'
    } else if c == 'E' {
        'e'
    } else if c == 'F' {
        'f'
    } else if c == 'G' {
        'g'
    } else if c == 'H' {
        'h'
    } else if c == 'I' {
        'i'
    } else if c == 'J' {
        'j'
    } else if c == 'K' {
        'k'
    } else if c == 'L' {
        'l'
    } else if c == 'M' {
        'm'
    } else if c == 'N' {
        'n'
    } else if c == 'O' {
        'o'
    } else if c == 'P' {
        'p'
    } else if c == 'Q' {
        'q'
    } else if c == 'R' {
        'r'
    } else if c == 'S' {
        's'
    } else if c == 'T' {
        't'
    } else if c == 'U' {
        'u'
    } else if c == 'V' {
        'v'
    } else if c == 'W' {
        'w'
    } else if c == 'X' {
        'x'
    } else if c == 'Y' {
        'y'
    } else if c == 'Z' {
        'z'
    } else {
        c
    }
}

/// A whole sequence of characters, folded to lower case.
pub open spec fn lower_seq(s: Seq<char>) -> Seq<char> {
    s.map_values(|c: char| lower_char(c))
}

/// What the lowercase mapping of one character is: the characters that
/// stand for it in lower case, a function of the character alone.
pub uninterp spec fn lower_char_of(c: char) -> Seq<char>;

/// A whole word, folded character by character through the lowercase
/// mapping.
pub open spec fn lower_of(s: Seq<char>) -> Seq<char>
    decreases s.len(),
{
    if s.len() == 0 {
        Seq::empty()
    } else {
        lower_char_of(s[0]) + lower_of(s.drop_first())
    }
}

/// Relies on `char::to_lowercase`: the Unicode lowercase mapping of one
/// character, which depends on the character alone; an ASCII character maps
/// to exactly its single ASCII lower-case counterpart.
#[verifier::external_body]
fn to_lowercase_chars(c: char) -> (r: Vec<char>)
    ensures
        r@ == lower_char_of(c),
        '\0' <= c <= '\u{7f}' ==> r@ == seq![lower_char(c)],
{
    c.to_lowercase().collect()
}

/// Folding a word one character at a time agrees with folding it whole.
pub proof fn lemma_lower_of_snoc(s: Seq<char>, c: char)
    ensures
        lower_of(s.push(c)) == lower_of(s) + lower_char_of(c),
    decreases s.len(),
{
    if s.len() == 0 {
        assert(s.push(c)[0] == c);
        assert(s.push(c).drop_first() =~= Seq::<char>::empty());
        assert(lower_of(Seq::<char>::empty()) == Seq::<char>::empty());
        assert(lower_of(s.push(c)) == lower_char_of(c) + Seq::<char>::empty());
        assert(lower_char_of(c) + Seq::<char>::empty() =~= lower_char_of(c));
        assert(lower_of(s) + lower_char_of(c) =~= lower_char_of(c));
    } else {
        assert(s.push(c)[0] == s[0]);
        assert(s.push(c).drop_first() =~= s.drop_first().push(c));
        lemma_lower_of_snoc(s.drop_first(), c);
        assert(lower_of(s.push(c)) == lower_char_of(s[0]) + (lower_of(s.drop_first())
            + lower_char_of(c)));
        assert(lower_char_of(s[0]) + (lower_of(s.drop_first()) + lower_char_of(c)) =~= (
        lower_char_of(s[0]) + lower_of(s.drop_first())) + lower_char_of(c));
    }
}

/// Relies on std's `String::push`: appends exactly one character at the end.
#[verifier::external_body]
pub fn push_char(s: &mut String, c: char)
    ensures
        final(s)@ == old(s)@.push(c),
{
    s.push(c)
}

/// Folds a whole word to lower case, one character at a time; on an ASCII
/// word that is exactly the A-Z to a-z fold.
pub fn clean_words(word: String) -> (r: String)
    ensures
        r@ == lower_of(word@),
        is_ascii_chars(word@) ==> r@ == lower_seq(word@),
{
    let s = word.as_str();
    let n = s.unicode_len();
    let mut out = String::new();
    let mut i: usize = 0;
    proof {
        assert(word@.take(0) =~= Seq::<char>::empty());
        assert(lower_of(Seq::<char>::empty()) == Seq::<char>::empty());
        assert(lower_seq(Seq::<char>::empty()) =~= Seq::<char>::empty());
    }
    while i < n
        invariant
            i <= n,
            n == word@.len(),
            s@ == word@,
            out@ == lower_of(word@.take(i as int)),
            is_ascii_chars(word@.take(i as int)) ==> out@ == lower_seq(word@.take(i as int)),
        decreases n - i,
    {
        let c = s.get_char(i);
        let lowered = to_lowercase_chars(c);
        let ghost pre = out@;
        let m = lowered.len();
        let mut k: usize = 0;
        proof {
            assert(pre + lowered@.take(0) =~= pre);
        }
        while k < m
            invariant
                k <= m,
                m == lowered@.len(),
                out@ == pre + lowered@.take(k as int),
            decreases m - k,
        {
            push_char(&mut out, lowered[k]);
            proof {
                assert(pre + lowered@.take(k + 1) =~= (pre + lowered@.take(k as int)).push(
                    lowered@[k as int],
                ));
            }
            k = k + 1;
        }
        proof {
            assert(lowered@.take(m as int) =~= lowered@);
            assert(out@ == pre + lower_char_of(c));
            lemma_lower_of_snoc(word@.take(i as int), word@[i as int]);
            assert(word@.take(i + 1) =~= word@.take(i as int).push(word@[i as int]));
            assert(out@ == lower_of(word@.take(i + 1)));
            if is_ascii_chars(word@.take(i + 1)) {
                assert forall|j: int| 0 <= j < i implies '\0' <= #[trigger] word@.take(
                    i as int,
                )[j] <= '\u{7f}' by {
                    assert(word@.take(i as int)[j] == word@.take(i + 1)[j]);
                }
                assert(is_ascii_chars(word@.take(i as int)));
                assert(word@.take(i + 1)[i as int] == word@[i as int]);
                assert('\0' <= word@.take(i + 1)[i as int] <= '\u{7f}');
                assert('\0' <= word@[i as int] <= '\u{7f}');
                assert(lowered@ == seq![lower_char(c)]);
                assert(out@ =~= lower_seq(word@.take(i as int)).push(lower_char(c)));
                assert(out@ =~= lower_seq(word@.take(i + 1)));
            }
        }
        i = i + 1;
    }
    proof {
        assert(word@.take(n as int) =~= word@);
    }
    out
}

/// A split line whose words hold ASCII characters alone.
pub open spec fn ascii_words(ws: Seq<Seq<char>>) -> bool {
    forall|i: int| 0 <= i < ws.len() ==> is_ascii_chars(#[trigger] ws[i])
}

/// The characters a line of input is split on: the Unicode white-space
/// characters, the same set the standard library's whitespace test accepts.
pub open spec fn is_space(c: char) -> bool {
    ('\u{9}' <= c && c <= '\u{d}') || c == ' ' || c == '\u{85}' || c == '\u{a0}' || c
        == '\u{1680}' || ('\u{2000}' <= c && c <= '\u{200a}') || c == '\u{2028}' || c
        == '\u{2029}' || c == '\u{202f}' || c == '\u{205f}' || c == '\u{3000}'
}

/// Tests whether a character splits words.
pub fn is_space_char(c: char) -> (r: bool)
    ensures
        r == is_space(c),
{
    ('\u{9}' <= c && c <= '\u{d}') || c == ' ' || c == '\u{85}' || c == '\u{a0}' || c
        == '\u{1680}' || ('\u{2000}' <= c && c <= '\u{200a}') || c == '\u{2028}' || c
        == '\u{2029}' || c == '\u{202f}' || c == '\u{205f}' || c == '\u{3000}'
}

/// One step of splitting: walks the remaining characters with the word built
/// so far and the words already finished.
pub open spec fn split_acc(s: Seq<char>, cur: Seq<char>, acc: Seq<Seq<char>>) -> Seq<Seq<char>>
    decreases s.len(),
{
    if s.len() == 0 {
        if cur.len() == 0 {
            acc
        } else {
            acc.push(cur)
        }
    } else if is_space(s[0]) {
        if cur.len() == 0 {
            split_acc(s.drop_first(), cur, acc)
        } else {
            split_acc(s.drop_first(), Seq::empty(), acc.push(cur))
        }
    } else {
        split_acc(s.drop_first(), cur.push(s[0]), acc)
    }
}

/// The words of a line: maximal runs of non-space characters, in order.
pub open spec fn words_of(s: Seq<char>) -> Seq<Seq<char>> {
    split_acc(s, Seq::empty(), Seq::empty())
}

/// Splits a line into its words.
pub fn split_words(s: &str) -> (words: Vec<String>)
    ensures
        words.deep_view() == words_of(s@),
{
    let n = s.unicode_len();
    let mut words: Vec<String> = Vec::new();
    let mut cur = String::new();
    let mut i: usize = 0;
    proof {
        assert(s@.skip(0) =~= s@);
        assert(words.deep_view() =~= Seq::<Seq<char>>::empty());
    }
    while i < n
        invariant
            i <= n,
            n == s@.len(),
            words_of(s@) == split_acc(s@.skip(i as int), cur@, words.deep_view()),
        decreases n - i,
    {
        let ghost before = s@.skip(i as int);
        proof {
            assert(before[0] == s@[i as int]);
            assert(before.drop_first() =~= s@.skip(i + 1));
        }
        let c = s.get_char(i);
        if is_space_char(c) {
            if !cur.as_str().is_empty() {
                let ghost old_words = words.deep_view();
                words.push(cur);
                proof {
                    assert(words.deep_view() =~= old_words.push(cur@));
                }
                cur = String::new();
            }
        } else {
            push_char(&mut cur, c);
        }
        i = i + 1;
    }
    proof {
        assert(s@.skip(n as int) =~= Seq::<char>::empty());
    }
    if !cur.as_str().is_empty() {
        let ghost old_words = words.deep_view();
        let ghost cur_view = cur@;
        words.push(cur);
        proof {
            assert(words.deep_view() =~= old_words.push(cur_view));
        }
    }
    words
}

/// The first word of a split line, or nothing at all — the shape a command
/// dispatcher looks at.
pub open spec fn first_word(ws: Seq<Seq<char>>) -> Seq<char> {
    if ws.len() > 0 {
        ws[0]
    } else {
        Seq::empty()
    }
}

/// The word at a position, or nothing at all.
pub open spec fn word_at(ws: Seq<Seq<char>>, i: int) -> Seq<char> {
    if 0 <= i < ws.len() {
        ws[i]
    } else {
        Seq::empty()
    }
}

/// The words that leave a menu or a conversation.
pub open spec fn is_quit_word(w: Seq<char>) -> bool {
    w == "quit"@ || w == "q"@ || w == "exit"@
}

/// Tests a word against the quit words.
pub fn check_quit_word(w: &str) -> (r: bool)
    ensures
        r == is_quit_word(w@),
{
    str_eq(w, "quit") || str_eq(w, "q") || str_eq(w, "exit")
}

/// The numeric value of a digit character, or a negative marker.
pub open spec fn digit_of(c: char) -> int {
    if c == '0' {
        0
    } else if c == '1' {
        1
    } else if c == '2' {
        2
    } else if c == '3' {
        3
    } else if c == '4' {
        4
    } else if c == '5' {
        5
    } else if c == '6' {
        6
    } else if c == '7' {
        7
    } else if c == '8' {
        8
    } else if c == '9' {
        9
    } else {
        -1
    }
}

pub open spec fn is_digit(c: char) -> bool {
    digit_of(c) >= 0
}

pub open spec fn all_digits(s: Seq<char>) -> bool {
    forall|i: int| 0 <= i < s.len() ==> is_digit(s[i])
}

/// The value of a run of digit characters, most significant first.
pub open spec fn digits_val(s: Seq<char>) -> int
    decreases s.len(),
{
    if s.len() == 0 {
        0
    } else {
        digits_val(s.drop_last()) * 10 + digit_of(s.last())
    }
}

/// What a decimal integer literal, with an optional sign, denotes — `None`
/// where the characters are not such a literal or the value does not fit
/// a 32-bit signed integer.
pub open spec fn parse_i32_spec(s: Seq<char>) -> Option<int> {
    let neg = s.len() > 0 && s[0] == '-';
    let signed = s.len() > 0 && (s[0] == '-' || s[0] == '+');
    let mag = if signed {
        s.drop_first()
    } else {
        s
    };
    if mag.len() > 0 && all_digits(mag) {
        let v = if neg {
            -digits_val(mag)
        } else {
            digits_val(mag)
        };
        if -0x8000_0000 <= v <= 0x7fff_ffff {
            Some(v)
        } else {
            None
        }
    } else {
        None
    }
}

/// A line with its one trailing newline taken off, if it has one.
pub open spec fn trimmed(s: Seq<char>) -> Seq<char> {
    if s.len() > 0 && s.last() == '\n' {
        s.drop_last()
    } else {
        s
    }
}

/// A number as a player writes one: digits only, no sign, no leading zero.
pub open spec fn canonical_decimal(s: Seq<char>) -> bool {
    s.len() > 0 && all_digits(s) && (s.len() > 1 ==> s[0] != '0')
}

/// Parses a canonically written number, where its value fits a 32-bit
/// signed integer.
pub fn parse_plain_number(s: &str) -> (r: Option<i32>)
    ensures
        r is Some ==> canonical_decimal(s@) && r->0 == digits_val(s@),
        r is None ==> !canonical_decimal(s@) || digits_val(s@) > i32::MAX,
{
    let n = s.unicode_len();
    if n == 0 {
        return None;
    }
    let first = s.get_char(0);
    if n > 1 && first == '0' {
        return None;
    }
    let mut i: usize = 0;
    let mut acc: u64 = 0;
    let mut over = false;
    while i < n
        invariant
            i <= n,
            n == s@.len(),
            all_digits(s@.subrange(0, i as int)),
            !over ==> acc <= 0x7fff_ffff && acc == digits_val(s@.subrange(0, i as int)),
            over ==> digits_val(s@.subrange(0, i as int)) > 0x7fff_ffff,
        decreases n - i,
    {
        let c = s.get_char(i);
        let d = digit_value(c);
        if d < 0 {
            proof {
                assert(s@.subrange(0, n as int) =~= s@);
                assert(!is_digit(s@[i as int]));
            }
            return None;
        }
        let ghost prefix = s@.subrange(0, i as int);
        let ghost prefix1 = s@.subrange(0, i + 1);
        proof {
            assert(prefix1.drop_last() =~= prefix);
            assert(prefix1.last() == s@[i as int]);
            assert(digits_val(prefix1) == digits_val(prefix) * 10 + digit_of(s@[i as int]));
        }
        if over {
        } else {
            acc = acc * 10 + (d as u64);
            if acc > 0x7fff_ffff {
                over = true;
            }
        }
        i = i + 1;
    }
    proof {
        assert(s@.subrange(0, n as int) =~= s@);
    }
    if over {
        return None;
    }
    Some(acc as i32)
}

/// The numeric value of one character.
pub fn digit_value(c: char) -> (d: i32)
    ensures
        d == digit_of(c),
{
    match c {
        '0' => 0,
        '1' => 1,
        '2' => 2,
        '3' => 3,
        '4' => 4,
        '5' => 5,
        '6' => 6,
        '7' => 7,
        '8' => 8,
        '9' => 9,
        _ => -1,
    }
}

pub proof fn lemma_digits_val_nonneg(s: Seq<char>)
    requires
        all_digits(s),
    ensures
        digits_val(s) >= 0,
    decreases s.len(),
{
    if s.len() > 0 {
        assert(all_digits(s.drop_last()));
        lemma_digits_val_nonneg(s.drop_last());
    }
}

/// Parses a decimal integer with an optional leading sign, exactly where one
/// fits a 32-bit signed integer.
pub fn parse_i32(s: &str) -> (r: Option<i32>)
    ensures
        r is Some <==> parse_i32_spec(s@) is Some,
        r is Some ==> r->0 == parse_i32_spec(s@)->0,
{
    let n = s.unicode_len();
    if n == 0 {
        return None;
    }
    let first = s.get_char(0);
    let neg = first == '-';
    let start: usize = if first == '-' || first == '+' {
        1
    } else {
        0
    };
    let ghost mag = if start == 1 {
        s@.drop_first()
    } else {
        s@
    };
    proof {
        assert(mag =~= s@.subrange(start as int, n as int));
    }
    if n == start {
        return None;
    }
    let mut i: usize = start;
    let mut acc: u64 = 0;
    let mut over = false;
    while i < n
        invariant
            start <= i <= n,
            start <= 1,
            n == s@.len(),
            n > start,
            (start == 1) == (s@[0] == '-' || s@[0] == '+'),
            neg == (s@.len() > 0 && s@[0] == '-'),
            mag == (if start == 1 {
                s@.drop_first()
            } else {
                s@
            }),
            mag =~= s@.subrange(start as int, n as int),
            all_digits(s@.subrange(start as int, i as int)),
            !over ==> acc <= 0xffff_ffff && acc == digits_val(
                s@.subrange(start as int, i as int),
            ),
            over ==> digits_val(s@.subrange(start as int, i as int)) > 0xffff_ffff,
        decreases n - i,
    {
        let c = s.get_char(i);
        let d = digit_value(c);
        if d < 0 {
            proof {
                assert(mag[i - start] == s@[i as int]);
                assert(!is_digit(mag[i - start]));
            }
            return None;
        }
        let ghost prefix = s@.subrange(start as int, i as int);
        let ghost prefix1 = s@.subrange(start as int, i + 1);
        proof {
            assert(prefix1.drop_last() =~= prefix);
            assert(prefix1.last() == s@[i as int]);
            assert(digits_val(prefix1) == digits_val(prefix) * 10 + digit_of(s@[i as int]));
        }
        if over {
        } else {
            acc = acc * 10 + (d as u64);
            if acc > 0xffff_ffff {
                over = true;
            }
        }
        i = i + 1;
    }
    proof {
        assert(s@.subrange(start as int, n as int) =~= mag);
        assert(all_digits(mag));
        lemma_digits_val_nonneg(mag);
    }
    if over {
        return None;
    }
    if neg {
        if acc > 0x8000_0000 {
            return None;
        }
        if acc == 0x8000_0000 {
            Some(i32::MIN)
        } else {
            Some(-(acc as i32))
        }
    } else {
        if acc > 0x7fff_ffff {
            return None;
        }
        Some(acc as i32)
    }
}

} // verus!
