//! Names for the audio files: the voice, the first words of the text and the
//! time, as in `sonic_a_test_message_2021-11-05-173000.wav`.

use crate::clock::{is_time_text, local_time_text};
use crate::strings::chars_of;
use crate::text::{
    ascii_alphanumeric, is_ascii_digit, is_ascii_letter, is_whitespace, whitespace,
};
use vstd::prelude::*;
use vstd::string::*;

verus! {

/// How many words of the text go into a file name.
pub const NAME_WORDS: usize = 4;

/// The pattern of the time in a file name: year, month and day with hyphens
/// between them, a hyphen, then hour, minute and second without any.
pub const TIMESTAMP_PATTERN: &'static str = "%Y-%m-%d-%H%M%S";

/// An ASCII letter or digit.
pub open spec fn is_ascii_alphanumeric(c: char) -> bool {
    is_ascii_letter(c) || is_ascii_digit(c)
}

/// An ASCII capital becomes the small letter; every other character stays.
pub open spec fn to_ascii_lower(c: char) -> char {
    if 'A' <= c && c <= 'Z' {
        ((c as u8) + 32) as char
    } else {
        c
    }
}

/// The length of the longest start of `s` without white space.
pub open spec fn word_len(s: Seq<char>) -> nat
    decreases s.len(),
{
    if s.len() == 0 || is_whitespace(s[0]) {
        0
    } else {
        1 + word_len(s.drop_first())
    }
}

/// The words of a text: its longest runs of characters without white space,
/// in order. White space before, between and after them is dropped.
pub open spec fn words(s: Seq<char>) -> Seq<Seq<char>>
    decreases s.len(),
    via words_decreases
{
    if s.len() == 0 {
        Seq::empty()
    } else if is_whitespace(s[0]) {
        words(s.drop_first())
    } else {
        seq![s.take(word_len(s) as int)] + words(s.skip(word_len(s) as int))
    }
}

#[via_fn]
proof fn words_decreases(s: Seq<char>) {
    lemma_word_len_bounds(s);
}

/// A run without white space is no longer than the text, and not empty where
/// the text starts with another character.
pub proof fn lemma_word_len_bounds(s: Seq<char>)
    ensures
        word_len(s) <= s.len(),
        s.len() > 0 && !is_whitespace(s[0]) ==> word_len(s) >= 1,
    decreases s.len(),
{
    if s.len() > 0 && !is_whitespace(s[0]) {
        lemma_word_len_bounds(s.drop_first());
    }
}

/// The words that go into a file name: the first four, or all where the text
/// has fewer.
pub open spec fn first_words(s: Seq<char>) -> Seq<Seq<char>> {
    if words(s).len() <= NAME_WORDS {
        words(s)
    } else {
        words(s).take(NAME_WORDS as int)
    }
}

/// The word in small letters.
pub open spec fn lowered(w: Seq<char>) -> Seq<char> {
    w.map_values(|c: char| to_ascii_lower(c))
}

/// How many characters at the start of `w` are neither letter nor digit.
pub open spec fn lead(w: Seq<char>) -> nat
    decreases w.len(),
{
    if w.len() == 0 || is_ascii_alphanumeric(w[0]) {
        0
    } else {
        1 + lead(w.drop_first())
    }
}

/// How many characters at the end of `w` are neither letter nor digit.
pub open spec fn trail(w: Seq<char>) -> nat
    decreases w.len(),
{
    if w.len() == 0 || is_ascii_alphanumeric(w.last()) {
        0
    } else {
        1 + trail(w.drop_last())
    }
}

/// The word without the characters at its start and at its end that are
/// neither letter nor digit. A word without any letter or digit becomes
/// empty.
pub open spec fn trimmed(w: Seq<char>) -> Seq<char> {
    if lead(w) >= w.len() {
        Seq::empty()
    } else {
        w.subrange(lead(w) as int, w.len() - trail(w))
    }
}

/// What a word contributes to a file name.
pub open spec fn name_part(w: Seq<char>) -> Seq<char> {
    trimmed(lowered(w))
}

/// The parts of a file name's middle: what each word contributes, without
/// the words that contribute nothing.
pub open spec fn name_parts(ws: Seq<Seq<char>>) -> Seq<Seq<char>> {
    ws.map_values(|w: Seq<char>| name_part(w)).filter(|p: Seq<char>| p.len() > 0)
}

/// The parts with an underscore between each two.
pub open spec fn joined(parts: Seq<Seq<char>>) -> Seq<char>
    decreases parts.len(),
{
    if parts.len() == 0 {
        Seq::empty()
    } else if parts.len() == 1 {
        parts[0]
    } else {
        joined(parts.drop_last()) + "_"@ + parts.last()
    }
}

/// The middle of the file name for a text.
pub open spec fn stem(text: Seq<char>) -> Seq<char> {
    joined(name_parts(first_words(text)))
}

/// The file name for a voice, a text and a time: voice, middle and time with
/// underscores between them, and the extension.
pub open spec fn filename(voice: Seq<char>, text: Seq<char>, stamp: Seq<char>) -> Seq<char> {
    voice + "_"@ + stem(text) + "_"@ + stamp + ".wav"@
}

/// A run without white space that ends at white space or at the end of the
/// text is as long as `word_len` says.
proof fn lemma_word_run(s: Seq<char>, start: int, end: int)
    requires
        0 <= start <= end <= s.len(),
        forall|k: int| start <= k < end ==> !is_whitespace(s[k]),
        end == s.len() || is_whitespace(s[end]),
    ensures
        word_len(s.skip(start)) == end - start,
    decreases end - start,
{
    if start < end {
        assert(s.skip(start)[0] == s[start]);
        assert(s.skip(start).drop_first() =~= s.skip(start + 1));
        lemma_word_run(s, start + 1, end);
    } else if end < s.len() {
        assert(s.skip(start)[0] == s[end]);
    }
}

/// White space at the start of a text adds no word.
proof fn lemma_words_after_space(s: Seq<char>, i: int)
    requires
        0 <= i < s.len(),
        is_whitespace(s[i]),
    ensures
        words(s.skip(i)) == words(s.skip(i + 1)),
{
    assert(s.skip(i)[0] == s[i]);
    assert(s.skip(i).drop_first() =~= s.skip(i + 1));
}

/// A run without white space at the start of a text is its first word.
proof fn lemma_words_after_word(s: Seq<char>, start: int, end: int)
    requires
        0 <= start < end <= s.len(),
        forall|k: int| start <= k < end ==> !is_whitespace(s[k]),
        end == s.len() || is_whitespace(s[end]),
    ensures
        words(s.skip(start)) == seq![s.subrange(start, end)] + words(s.skip(end)),
{
    lemma_word_run(s, start, end);
    assert(s.skip(start)[0] == s[start]);
    assert(s.skip(start).take(end - start) =~= s.subrange(start, end));
    assert(s.skip(start).skip(end - start) =~= s.skip(end));
}

/// The parts of one more word.
proof fn lemma_name_parts_push(ws: Seq<Seq<char>>, w: Seq<char>)
    ensures
        name_parts(ws.push(w)) == if name_part(w).len() > 0 {
            name_parts(ws).push(name_part(w))
        } else {
            name_parts(ws)
        },
{
    reveal(Seq::filter);
    let f = |w: Seq<char>| name_part(w);
    assert(ws.push(w).map_values(f) =~= ws.map_values(f).push(name_part(w)));
    assert(ws.map_values(f).push(name_part(w)).drop_last() =~= ws.map_values(f));
}

/// Joining one more part.
proof fn lemma_joined_push(parts: Seq<Seq<char>>, p: Seq<char>)
    ensures
        joined(parts.push(p)) == if parts.len() == 0 {
            p
        } else {
            joined(parts) + "_"@ + p
        },
{
    assert(parts.push(p).drop_last() =~= parts);
}

/// Where the first letter or digit stands, there the lead ends.
proof fn lemma_lead_found(w: Seq<char>, a: int)
    requires
        0 <= a <= w.len(),
        forall|k: int| 0 <= k < a ==> !is_ascii_alphanumeric(w[k]),
        a == w.len() || is_ascii_alphanumeric(w[a]),
    ensures
        lead(w) == a,
    decreases a,
{
    if a > 0 {
        let rest = w.drop_first();
        assert forall|k: int| 0 <= k < a - 1 implies !is_ascii_alphanumeric(rest[k]) by {
            assert(rest[k] == w[k + 1]);
        }
        lemma_lead_found(rest, a - 1);
    }
}

/// Where the last letter or digit stands, there the trail begins.
proof fn lemma_trail_found(w: Seq<char>, b: int)
    requires
        0 <= b <= w.len(),
        forall|k: int| b <= k < w.len() ==> !is_ascii_alphanumeric(w[k]),
        b == 0 || is_ascii_alphanumeric(w[b - 1]),
    ensures
        trail(w) == w.len() - b,
    decreases w.len() - b,
{
    if b < w.len() {
        lemma_trail_found(w.drop_last(), b);
    }
}

/// The small letter of an ASCII capital; any other character as it is.
pub fn ascii_lower(c: char) -> (l: char)
    ensures
        l == to_ascii_lower(c),
{
    if 'A' <= c && c <= 'Z' {
        ((c as u8) + 32) as char
    } else {
        c
    }
}

/// The part of a file name that the word `text[start..end]` contributes,
/// appended to `out` and, unless it is the first part there, set off by an
/// underscore. The result says whether anything was appended.
fn append_part(
    out: &mut String,
    first: bool,
    text: &Vec<char>,
    start: usize,
    end: usize,
) -> (added: bool)
    requires
        start <= end <= text.len(),
    ensures
        added == (name_part(text@.subrange(start as int, end as int)).len() > 0),
        !added ==> final(out)@ == old(out)@,
        added && first ==> final(out)@ == old(out)@ + name_part(
            text@.subrange(start as int, end as int),
        ),
        added && !first ==> final(out)@ == old(out)@ + "_"@ + name_part(
            text@.subrange(start as int, end as int),
        ),
{
    let ghost word = text@.subrange(start as int, end as int);
    let ghost low = lowered(word);
    let mut a: usize = start;
    while a < end && !ascii_alphanumeric(ascii_lower(text[a]))
        invariant
            start <= a <= end <= text.len(),
            word == text@.subrange(start as int, end as int),
            low == lowered(word),
            forall|k: int| 0 <= k < a - start ==> !is_ascii_alphanumeric(low[k]),
        decreases end - a,
    {
        a += 1;
    }
    let mut b: usize = end;
    while b > a && !ascii_alphanumeric(ascii_lower(text[b - 1]))
        invariant
            start <= a <= b <= end <= text.len(),
            word == text@.subrange(start as int, end as int),
            low == lowered(word),
            forall|k: int| b - start <= k < low.len() ==> !is_ascii_alphanumeric(low[k]),
        decreases b - a,
    {
        b -= 1;
    }
    proof {
        if a < end {
            assert(low[a - start] == to_ascii_lower(text@[a as int]));
            assert(low[b - 1 - start] == to_ascii_lower(text@[b - 1]));
            lemma_trail_found(low, b - start);
        }
        lemma_lead_found(low, a - start);
        assert(name_part(word) == trimmed(low));
        assert(trimmed(low) =~= low.subrange(a - start, b - start));
    }
    if a == b {
        return false;
    }
    if !first {
        out.append("_");
    }
    let ghost base = out@;
    let mut i: usize = a;
    while i < b
        invariant
            start <= a <= i <= b <= end <= text.len(),
            word == text@.subrange(start as int, end as int),
            low == lowered(word),
            out@ == base + low.subrange(a - start, i - start),
        decreases b - i,
    {
        out.push(ascii_lower(text[i]));
        i += 1;
        proof {
            assert(low.subrange(a - start, i - start) =~= low.subrange(a - start, i - 1 - start).push(
                low[i - 1 - start],
            ));
        }
    }
    true
}

/// The middle of the file name for a text: see [`stem`].
pub fn filename_stem(text: &str) -> (middle: String)
    ensures
        middle@ == stem(text@),
{
    let chars = chars_of(text);
    let n = chars.len();
    let mut middle = String::new();
    let mut i: usize = 0;
    let mut count: usize = 0;
    let mut first = true;
    let ghost s = chars@;
    let ghost mut seen: Seq<Seq<char>> = Seq::empty();
    proof {
        reveal(Seq::filter);
        assert(s.skip(0) =~= s);
        assert(name_parts(seen) =~= Seq::<Seq<char>>::empty());
    }
    while i < n && count < NAME_WORDS
        invariant
            n == chars.len(),
            s == chars@,
            s == text@,
            i <= n,
            count <= NAME_WORDS,
            seen.len() == count,
            words(s) == seen + words(s.skip(i as int)),
            middle@ == joined(name_parts(seen)),
            first == (name_parts(seen).len() == 0),
        decreases n - i,
    {
        if whitespace(chars[i]) {
            proof {
                lemma_words_after_space(s, i as int);
            }
            i += 1;
        } else {
            let start = i;
            while i < n && !whitespace(chars[i])
                invariant
                    n == chars.len(),
                    s == chars@,
                    start <= i <= n,
                    start < n,
                    !is_whitespace(s[start as int]),
                    forall|k: int| start <= k < i ==> !is_whitespace(s[k]),
                decreases n - i,
            {
                i += 1;
            }
            let ghost word = s.subrange(start as int, i as int);
            proof {
                lemma_words_after_word(s, start as int, i as int);
                lemma_name_parts_push(seen, word);
                lemma_joined_push(name_parts(seen), name_part(word));
                assert(seen + (seq![word] + words(s.skip(i as int))) =~= seen.push(word) + words(
                    s.skip(i as int),
                ));
            }
            let added = append_part(&mut middle, first, &chars, start, i);
            if added {
                first = false;
            }
            proof {
                seen = seen.push(word);
            }
            count += 1;
        }
    }
    proof {
        if i == n {
            assert(s.skip(n as int) =~= Seq::<char>::empty());
            assert(words(s) =~= seen);
        } else {
            assert(words(s).take(NAME_WORDS as int) =~= seen);
        }
    }
    middle
}

/// The file name for a voice, a text and a time that is already written
/// out: see [`filename`]. It begins with the voice and an underscore and
/// ends with `.wav`.
pub fn filename_at(voice: &str, text: &str, stamp: &str) -> (name: String)
    ensures
        name@ == filename(voice@, text@, stamp@),
        (voice@ + "_"@).is_prefix_of(name@),
        ".wav"@.is_suffix_of(name@),
{
    let middle = filename_stem(text);
    let mut name = voice.to_owned();
    name.append("_");
    name.append(middle.as_str());
    name.append("_");
    name.append(stamp);
    name.append(".wav");
    proof {
        lemma_filename_shape(voice@, text@, stamp@);
    }
    name
}

/// The file name for a voice and a text, with the local time of the call:
/// see [`filename`]. The time is written in digits, with hyphens and, for a
/// year far off, a sign. Whatever the time, the name begins with the voice
/// and an underscore and ends with `.wav`.
pub fn suggest_filename(voice: &str, text: &str) -> (name: String)
    ensures
        exists|stamp: Seq<char>|
            name@ == #[trigger] filename(voice@, text@, stamp) && is_time_text(stamp),
        (voice@ + "_"@).is_prefix_of(name@),
        ".wav"@.is_suffix_of(name@),
{
    let stamp = local_time_text(TIMESTAMP_PATTERN);
    filename_at(voice, text, stamp.as_str())
}

/// Every file name begins with its voice and an underscore and ends with
/// `.wav`, whatever the text and the time.
pub proof fn lemma_filename_shape(voice: Seq<char>, text: Seq<char>, stamp: Seq<char>)
    ensures
        (voice + "_"@).is_prefix_of(filename(voice, text, stamp)),
        ".wav"@.is_suffix_of(filename(voice, text, stamp)),
{
    let name = filename(voice, text, stamp);
    let head = voice + "_"@;
    let body = voice + "_"@ + stem(text) + "_"@ + stamp;
    assert(name.subrange(0, head.len() as int) =~= head);
    assert(name.subrange(name.len() - ".wav"@.len(), name.len() as int) =~= ".wav"@);
    assert(name == body + ".wav"@);
}

} // verus!
