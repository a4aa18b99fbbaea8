//! Text as sequences of characters: the operations the rest of the crate is
//! stated in, each with an executable counterpart on `&str`.

use crate::scan::{first_match_index, lemma_first_match_at, lemma_first_match_none};
use vstd::prelude::*;
use vstd::string::StringExecFns;

verus! {

/// `String::push` appends one character.
pub assume_specification[ String::push ](text: &mut String, c: char)
    ensures
        final(text)@ == old(text)@.push(c),
;

/// `==` on string slices compares them character by character.
pub assume_specification[ <str as PartialEq>::eq ](a: &str, b: &str) -> (same: bool)
    ensures
        same == (a@ == b@),
;

/// `text` without its leading `prefix`, or `text` itself where it does not
/// start with `prefix`.
pub open spec fn strip_prefix(text: Seq<char>, prefix: Seq<char>) -> Seq<char> {
    if prefix.is_prefix_of(text) {
        text.skip(prefix.len() as int)
    } else {
        text
    }
}

/// `text` with every `from` turned into `to`.
pub open spec fn replace_char(text: Seq<char>, from: char, to: char) -> Seq<char> {
    Seq::new(text.len(), |i: int| if text[i] == from { to } else { text[i] })
}

/// The characters equal to `sep`.
pub open spec fn is_char(sep: char) -> spec_fn(char) -> bool {
    |c: char| c == sep
}

/// The part of `text` in front of the first `sep`; all of `text` where it
/// holds no `sep`.
pub open spec fn before_first(text: Seq<char>, sep: char) -> Seq<char> {
    match first_match_index(text, is_char(sep)) {
        Some(i) => text.take(i),
        None => text,
    }
}

/// `needle` stands in `haystack` at position `i`.
pub open spec fn occurs_at(haystack: Seq<char>, needle: Seq<char>, i: int) -> bool {
    &&& 0 <= i
    &&& i + needle.len() <= haystack.len()
    &&& haystack.subrange(i, i + needle.len()) == needle
}

/// `needle` stands somewhere in `haystack`.
pub open spec fn contains(haystack: Seq<char>, needle: Seq<char>) -> bool {
    exists|i: int| occurs_at(haystack, needle, i)
}

/// The `parts` in order, with `sep` between each two neighbours.
pub open spec fn join(parts: Seq<Seq<char>>, sep: Seq<char>) -> Seq<char>
    decreases parts.len(),
{
    if parts.len() == 0 {
        Seq::empty()
    } else if parts.len() == 1 {
        parts[0]
    } else {
        join(parts.drop_last(), sep) + sep + parts.last()
    }
}

/// What each string of `texts` holds.
pub open spec fn views_of(texts: Seq<String>) -> Seq<Seq<char>> {
    Seq::new(texts.len(), |i: int| texts[i]@)
}

/// The characters of `text`, in order.
pub fn chars_of(text: &str) -> (chars: Vec<char>)
    ensures
        chars@ == text@,
{
    let mut chars: Vec<char> = Vec::new();
    for c in it: text.chars()
        invariant
            it.seq() == text@,
            chars@ == it.seq().take(it.index()),
    {
        chars.push(c);
    }
    chars
}

/// The string that holds `chars[from..to]`.
pub(crate) fn text_of(chars: &Vec<char>, from: usize, to: usize) -> (text: String)
    requires
        from <= to <= chars@.len(),
    ensures
        text@ == chars@.subrange(from as int, to as int),
{
    let mut text = String::new();
    let mut i: usize = from;
    while i < to
        invariant
            from <= i <= to <= chars@.len(),
            text@ == chars@.subrange(from as int, i as int),
        decreases to - i,
    {
        text.push(chars[i]);
        i += 1;
    }
    text
}

/// `first` followed by `second`.
pub fn followed_by(first: &str, second: &str) -> (text: String)
    ensures
        text@ == first@ + second@,
{
    String::from_str(first).concat(second)
}

/// `text` without its leading `prefix`, if it has one.
pub fn without_prefix(text: &str, prefix: &str) -> (rest: String)
    ensures
        rest@ == strip_prefix(text@, prefix@),
{
    let text_chars = chars_of(text);
    let prefix_chars = chars_of(prefix);
    if prefix_chars.len() <= text_chars.len() && matches_at(&text_chars, &prefix_chars, 0) {
        text_of(&text_chars, prefix_chars.len(), text_chars.len())
    } else {
        String::from_str(text)
    }
}

/// `text` with every `from` turned into `to`.
pub fn with_replaced(text: &str, from: char, to: char) -> (replaced: String)
    ensures
        replaced@ == replace_char(text@, from, to),
{
    let chars = chars_of(text);
    let mut replaced = String::new();
    let mut i: usize = 0;
    while i < chars.len()
        invariant
            i <= chars@.len(),
            chars@ == text@,
            replaced@ == replace_char(text@.take(i as int), from, to),
        decreases chars.len() - i,
    {
        let c = chars[i];
        if c == from {
            replaced.push(to);
        } else {
            replaced.push(c);
        }
        i += 1;
        assert(replaced@ =~= replace_char(text@.take(i as int), from, to));
    }
    assert(text@.take(i as int) =~= text@);
    replaced
}

/// The part of `text` in front of the first `sep`.
pub fn up_to_first(text: &str, sep: char) -> (head: String)
    ensures
        head@ == before_first(text@, sep),
{
    let chars = chars_of(text);
    let mut i: usize = 0;
    while i < chars.len()
        invariant
            i <= chars@.len(),
            chars@ == text@,
            forall|j: int| 0 <= j < i ==> text@[j] != sep,
        decreases chars.len() - i,
    {
        if chars[i] == sep {
            proof {
                lemma_first_match_at(text@, is_char(sep), i as int);
            }
            return text_of(&chars, 0, i);
        }
        i += 1;
    }
    proof {
        lemma_first_match_none(text@, is_char(sep));
    }
    String::from_str(text)
}

/// Does `needle` stand in `haystack` at position `at`?
fn matches_at(haystack: &Vec<char>, needle: &Vec<char>, at: usize) -> (yes: bool)
    requires
        at + needle@.len() <= haystack@.len(),
    ensures
        yes == occurs_at(haystack@, needle@, at as int),
{
    let mut k: usize = 0;
    while k < needle.len()
        invariant
            k <= needle.len(),
            at + needle.len() <= haystack.len(),
            forall|j: int| 0 <= j < k ==> haystack@[at + j] == needle@[j],
        decreases needle.len() - k,
    {
        if haystack[at + k] != needle[k] {
            assert(haystack@.subrange(at as int, at + needle@.len())[k as int] != needle@[k as int]);
            return false;
        }
        k += 1;
    }
    assert(haystack@.subrange(at as int, at + needle@.len()) =~= needle@);
    true
}

/// Does `needle` stand somewhere in `haystack`?
pub fn has_substring(haystack: &str, needle: &str) -> (yes: bool)
    ensures
        yes == contains(haystack@, needle@),
{
    let hay = chars_of(haystack);
    let pin = chars_of(needle);
    if pin.len() > hay.len() {
        return false;
    }
    let last: usize = hay.len() - pin.len();
    let mut i: usize = 0;
    loop
        invariant
            i <= last,
            last + pin.len() == hay.len(),
            hay@ == haystack@,
            pin@ == needle@,
            forall|j: int| 0 <= j < i ==> !occurs_at(haystack@, needle@, j),
        decreases last - i,
    {
        if matches_at(&hay, &pin, i) {
            return true;
        }
        if i == last {
            return false;
        }
        i += 1;
    }
}

/// The `parts` in order, with `sep` between each two neighbours.
pub fn joined(parts: &Vec<String>, sep: &str) -> (text: String)
    ensures
        text@ == join(views_of(parts@), sep@),
{
    let mut text = String::new();
    let mut i: usize = 0;
    while i < parts.len()
        invariant
            i <= parts@.len(),
            text@ == join(views_of(parts@).take(i as int), sep@),
        decreases parts.len() - i,
    {
        if i > 0 {
            text.append(sep);
        }
        text.append(parts[i].as_str());
        i += 1;
        proof {
            let done = views_of(parts@).take(i as int);
            assert(done.drop_last() =~= views_of(parts@).take(i - 1));
            assert(done.last() == parts@[i - 1]@);
        }
    }
    assert(views_of(parts@).take(i as int) =~= views_of(parts@));
    text
}

} // verus!
