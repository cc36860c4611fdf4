//! Cleaning of prompts: which characters a prompt may hold, and how a text
//! that the user typed is brought into that form.

use vstd::prelude::*;

verus! {

/// An ASCII letter.
pub open spec fn is_ascii_letter(c: char) -> bool {
    ('a' <= c && c <= 'z') || ('A' <= c && c <= 'Z')
}

/// An ASCII digit.
pub open spec fn is_ascii_digit(c: char) -> bool {
    '0' <= c && c <= '9'
}

/// White space as Unicode defines it (the property `White_Space`): the
/// plain space, tab, line feed and the other characters that separate words.
pub open spec fn is_whitespace(c: char) -> bool {
    ||| ('\u{9}' <= c && c <= '\u{D}')
    ||| c == ' '
    ||| c == '\u{85}'
    ||| c == '\u{A0}'
    ||| c == '\u{1680}'
    ||| ('\u{2000}' <= c && c <= '\u{200A}')
    ||| c == '\u{2028}'
    ||| c == '\u{2029}'
    ||| c == '\u{202F}'
    ||| c == '\u{205F}'
    ||| c == '\u{3000}'
}

/// The punctuation that a prompt may hold.
pub open spec fn is_prompt_punctuation(c: char) -> bool {
    c == ',' || c == '.' || c == '!' || c == '?' || c == '$' || c == '\''
}

/// White space becomes a plain space; every other character stays.
pub open spec fn spaced(c: char) -> char {
    if is_whitespace(c) {
        ' '
    } else {
        c
    }
}

/// The characters that cleaning lets through.
pub open spec fn is_kept(c: char) -> bool {
    is_ascii_letter(c) || is_ascii_digit(c) || is_whitespace(c) || is_prompt_punctuation(c)
}

/// The characters of a cleaned text: ASCII letters and digits, the plain
/// space, and the punctuation above.
pub open spec fn is_clean_char(c: char) -> bool {
    is_ascii_letter(c) || is_ascii_digit(c) || c == ' ' || is_prompt_punctuation(c)
}

/// A text that holds clean characters only.
pub open spec fn is_clean(s: Seq<char>) -> bool {
    forall|i: int| 0 <= i < s.len() ==> is_clean_char(#[trigger] s[i])
}

/// The cleaned form of a text: each white-space character is replaced by a
/// space, then every character that is not kept is removed.
pub open spec fn clean_text(s: Seq<char>) -> Seq<char> {
    s.map_values(|c: char| spaced(c)).filter(|c: char| is_kept(c))
}

/// Cleaning goes character by character.
pub proof fn lemma_clean_push(s: Seq<char>, c: char)
    ensures
        clean_text(s.push(c)) == if is_kept(c) {
            clean_text(s).push(spaced(c))
        } else {
            clean_text(s)
        },
{
    reveal(Seq::filter);
    let f = |c: char| spaced(c);
    assert(s.push(c).map_values(f) =~= s.map_values(f).push(spaced(c)));
    assert(s.map_values(f).push(spaced(c)).drop_last() =~= s.map_values(f));
}

/// Cleaning yields a clean text.
pub proof fn lemma_clean_text_is_clean(s: Seq<char>)
    ensures
        is_clean(clean_text(s)),
    decreases s.len(),
{
    if s.len() == 0 {
        reveal(Seq::filter);
    } else {
        lemma_clean_text_is_clean(s.drop_last());
        lemma_clean_push(s.drop_last(), s.last());
        assert(s.drop_last().push(s.last()) =~= s);
    }
}

/// Cleaning leaves a clean text as it is.
pub proof fn lemma_clean_text_keeps_clean(s: Seq<char>)
    requires
        is_clean(s),
    ensures
        clean_text(s) == s,
    decreases s.len(),
{
    if s.len() == 0 {
        reveal(Seq::filter);
    } else {
        lemma_clean_text_keeps_clean(s.drop_last());
        lemma_clean_push(s.drop_last(), s.last());
        assert(s.drop_last().push(s.last()) =~= s);
    }
}

/// Cleaning twice is cleaning once.
pub proof fn clean_is_idempotent(s: Seq<char>)
    ensures
        clean_text(clean_text(s)) == clean_text(s),
{
    lemma_clean_text_is_clean(s);
    lemma_clean_text_keeps_clean(clean_text(s));
}

/// Whether `c` is white space.
pub fn whitespace(c: char) -> (yes: bool)
    ensures
        yes == is_whitespace(c),
{
    ('\u{9}' <= c && c <= '\u{D}') || c == ' ' || c == '\u{85}' || c == '\u{A0}' || c == '\u{1680}'
        || ('\u{2000}' <= c && c <= '\u{200A}') || c == '\u{2028}' || c == '\u{2029}' || c
        == '\u{202F}' || c == '\u{205F}' || c == '\u{3000}'
}

/// Whether `c` is an ASCII letter or digit.
pub fn ascii_alphanumeric(c: char) -> (yes: bool)
    ensures
        yes == (is_ascii_letter(c) || is_ascii_digit(c)),
{
    ('a' <= c && c <= 'z') || ('A' <= c && c <= 'Z') || ('0' <= c && c <= '9')
}

/// Whether cleaning lets `c` through.
pub fn kept(c: char) -> (yes: bool)
    ensures
        yes == is_kept(c),
{
    ascii_alphanumeric(c) || whitespace(c) || c == ',' || c == '.' || c == '!' || c == '?' || c
        == '$' || c == '\''
}

/// Cleans a prompt: see [`clean_text`]. The result holds clean characters
/// only, and cleaning it again changes nothing.
pub fn clean(prompt: &str) -> (cleaned: String)
    ensures
        cleaned@ == clean_text(prompt@),
        is_clean(cleaned@),
        clean_text(cleaned@) == cleaned@,
{
    let mut cleaned = String::new();
    proof {
        reveal(Seq::filter);
        assert(prompt@.take(0) =~= Seq::<char>::empty());
    }
    for c in iter: prompt.chars()
        invariant
            iter.seq() == prompt@,
            cleaned@ == clean_text(prompt@.take(iter.index() as int)),
    {
        proof {
            let i = iter.index() as int;
            lemma_clean_push(prompt@.take(i), c);
            assert(prompt@.take(i).push(c) =~= prompt@.take(i + 1));
        }
        if kept(c) {
            if whitespace(c) {
                cleaned.push(' ');
            } else {
                cleaned.push(c);
            }
        }
    }
    proof {
        assert(prompt@.take(prompt@.len() as int) =~= prompt@);
        lemma_clean_text_is_clean(prompt@);
        clean_is_idempotent(prompt@);
    }
    cleaned
}

} // verus!
