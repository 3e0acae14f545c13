//! String building blocks shared by the rest of the crate.

use vstd::prelude::*;

verus! {

/// Trusted, not proved: std's `String::push`. Its documentation says that
/// it appends the given character to the end of the string; the contract
/// says so of the string's character sequence.
pub assume_specification[ String::push ](s: &mut String, ch: char)
    ensures
        final(s)@ == old(s)@.push(ch),
;

/// The character sequences held by a sequence of strings.
pub open spec fn views(items: Seq<String>) -> Seq<Seq<char>> {
    items.map_values(|s: String| s@)
}

/// `parts` written one after another with `sep` between neighbours.
pub open spec fn joined(parts: Seq<Seq<char>>, sep: Seq<char>) -> Seq<char>
    decreases parts.len(),
{
    if parts.len() == 0 {
        Seq::empty()
    } else if parts.len() == 1 {
        parts[0]
    } else {
        joined(parts.drop_last(), sep) + sep + parts.last()
    }
}

/// The decimal digit that stands for `d`.
pub open spec fn digit_char(d: nat) -> char
    recommends
        d < 10,
{
    ('0' as nat + d) as char
}

/// `n` in decimal, without sign or leading zeros.
pub open spec fn decimal(n: nat) -> Seq<char>
    decreases n,
{
    if n < 10 {
        seq![digit_char(n)]
    } else {
        decimal(n / 10).push(digit_char(n % 10))
    }
}

/// Whether two string slices hold the same characters.
pub fn str_eq(a: &str, b: &str) -> (same: bool)
    ensures
        same == (a@ == b@),
{
    let left = String::from_str(a);
    let right = String::from_str(b);
    left == right
}

/// `middle` between `prefix` and `suffix`.
pub fn enclose(prefix: &str, middle: &str, suffix: &str) -> (out: String)
    ensures
        out@ == prefix@ + middle@ + suffix@,
{
    let mut out = String::from_str(prefix);
    out.append(middle);
    out.append(suffix);
    out
}

/// Joins `parts` with `sep` between neighbours.
pub fn join(parts: &Vec<String>, sep: &str) -> (out: String)
    ensures
        out@ == joined(views(parts@), sep@),
{
    let mut out = String::new();
    let mut i: usize = 0;
    while i < parts.len()
        invariant
            i <= parts.len(),
            out@ == joined(views(parts@).take(i as int), sep@),
        decreases parts.len() - i,
    {
        if i > 0 {
            out.append(sep);
        }
        out.append(parts[i].as_str());
        proof {
            let upto = views(parts@).take(i + 1);
            assert(upto.drop_last() == views(parts@).take(i as int));
            assert(upto.last() == parts@[i as int]@);
        }
        i += 1;
    }
    proof {
        assert(views(parts@).take(parts.len() as int) == views(parts@));
    }
    out
}

/// Appends `n` in decimal to `out`.
pub fn push_decimal(out: &mut String, n: u64)
    ensures
        final(out)@ == old(out)@ + decimal(n as nat),
    decreases n,
{
    if n >= 10 {
        push_decimal(out, n / 10);
    }
    let d: u8 = (n % 10) as u8;
    out.push((48u8 + d) as char);
}

/// A copy of `items`, string by string.
pub fn clone_strings(items: &Vec<String>) -> (copy: Vec<String>)
    ensures
        copy@ == items@,
{
    let mut copy: Vec<String> = Vec::new();
    let mut i: usize = 0;
    while i < items.len()
        invariant
            i <= items.len(),
            copy@ == items@.take(i as int),
        decreases items.len() - i,
    {
        copy.push(items[i].clone());
        i += 1;
    }
    copy
}

/// Whether `c` is white space: the characters Unicode gives the property
/// `White_Space`.
pub open spec fn is_space(c: char) -> bool {
    let code = c as u32;
    (0x09 <= code <= 0x0d) || code == 0x20 || code == 0x85 || code == 0xa0 || code == 0x1680 || (
    0x2000 <= code <= 0x200a) || code == 0x2028 || code == 0x2029 || code == 0x202f || code
        == 0x205f || code == 0x3000
}

/// The word, if it is one: a run of characters counts only when it is not
/// empty.
pub open spec fn word_if_any(word: Seq<char>) -> Seq<Seq<char>> {
    if word.len() > 0 {
        seq![word]
    } else {
        Seq::empty()
    }
}

/// The words of `text` when `word` has been read of the first one: every
/// white-space character ends the word before it.
pub open spec fn words_after(text: Seq<char>, word: Seq<char>) -> Seq<Seq<char>>
    decreases text.len(),
{
    if text.len() == 0 {
        word_if_any(word)
    } else if is_space(text[0]) {
        word_if_any(word) + words_after(text.drop_first(), Seq::empty())
    } else {
        words_after(text.drop_first(), word.push(text[0]))
    }
}

/// The words of `text`: its maximal runs of characters that are not white
/// space, in order.
pub open spec fn words(text: Seq<char>) -> Seq<Seq<char>> {
    words_after(text, Seq::empty())
}

/// Whether `c` is white space.
pub fn is_whitespace(c: char) -> (space: bool)
    ensures
        space == is_space(c),
{
    let code = c as u32;
    (0x09 <= code && code <= 0x0d) || code == 0x20 || code == 0x85 || code == 0xa0 || code
        == 0x1680 || (0x2000 <= code && code <= 0x200a) || code == 0x2028 || code == 0x2029
        || code == 0x202f || code == 0x205f || code == 0x3000
}

/// Splits `text` into its words.
pub fn split_whitespace(text: &str) -> (parts: Vec<String>)
    ensures
        views(parts@) == words(text@),
{
    let mut parts: Vec<String> = Vec::new();
    let mut word = String::new();
    proof {
        assert(text@.skip(0) == text@);
        assert(views(parts@) + words_after(text@, word@) =~= words(text@));
    }
    for c in it: text.chars()
        invariant
            it.seq() == text@,
            views(parts@) + words_after(text@.skip(it.index()), word@) == words(text@),
    {
        proof {
            assert(text@.skip(it.index()).drop_first() == text@.skip(it.index() + 1));
            assert(text@.skip(it.index())[0] == c);
        }
        let ghost before = views(parts@);
        let ghost read = word@;
        if is_whitespace(c) {
            if !word.as_str().is_empty() {
                parts.push(word);
                word = String::new();
            }
            proof {
                let rest = words_after(text@.skip(it.index() + 1), Seq::empty());
                assert(word@ =~= Seq::<char>::empty());
                assert(views(parts@) =~= before + word_if_any(read));
                assert(views(parts@) + rest =~= before + (word_if_any(read) + rest));
            }
        } else {
            word.push(c);
        }
    }
    let ghost before = views(parts@);
    let ghost read = word@;
    if !word.as_str().is_empty() {
        parts.push(word);
    }
    assert(views(parts@) =~= before + word_if_any(read));
    parts
}

/// Whether `word` is one word: not empty, and without white space.
pub open spec fn is_word(word: Seq<char>) -> bool {
    word.len() > 0 && forall|i: int| 0 <= i < word.len() ==> !is_space(#[trigger] word[i])
}

proof fn lemma_words_after_run(run: Seq<char>, rest: Seq<char>, word: Seq<char>)
    requires
        forall|i: int| 0 <= i < run.len() ==> !is_space(#[trigger] run[i]),
    ensures
        words_after(run + rest, word) == words_after(rest, word + run),
    decreases run.len(),
{
    if run.len() == 0 {
        assert(run + rest =~= rest);
        assert(word + run =~= word);
    } else {
        let text = run + rest;
        assert(text[0] == run[0]);
        assert(text.drop_first() =~= run.drop_first() + rest);
        lemma_words_after_run(run.drop_first(), rest, word.push(run[0]));
        assert(word.push(run[0]) + run.drop_first() =~= word + run);
    }
}

proof fn lemma_words_after_space(before: Seq<char>, after: Seq<char>, word: Seq<char>)
    ensures
        words_after(before + seq![' '] + after, word) == words_after(before, word) + words_after(
            after,
            Seq::empty(),
        ),
    decreases before.len(),
{
    let text = before + seq![' '] + after;
    if before.len() == 0 {
        assert(text[0] == ' ');
        assert(text.drop_first() =~= after);
    } else {
        assert(text[0] == before[0]);
        assert(text.drop_first() =~= before.drop_first() + seq![' '] + after);
        if is_space(before[0]) {
            lemma_words_after_space(before.drop_first(), after, Seq::empty());
            assert(word_if_any(word) + (words_after(before.drop_first(), Seq::empty())
                + words_after(after, Seq::empty())) =~= (word_if_any(word) + words_after(
                before.drop_first(),
                Seq::empty(),
            )) + words_after(after, Seq::empty()));
        } else {
            lemma_words_after_space(before.drop_first(), after, word.push(before[0]));
        }
    }
}

/// Words that are joined with one space between neighbours are the words
/// of the joined text: what `join` writes, `split_whitespace` reads back.
pub proof fn lemma_words_of_joined(parts: Seq<Seq<char>>)
    requires
        forall|i: int| 0 <= i < parts.len() ==> is_word(#[trigger] parts[i]),
    ensures
        words(joined(parts, " "@)) == parts,
    decreases parts.len(),
{
    reveal_strlit(" ");
    assert(" "@ =~= seq![' ']);
    if parts.len() == 0 {
        assert(words(joined(parts, " "@)) =~= parts);
    } else {
        let last = parts.last();
        assert(is_word(last));
        lemma_words_after_run(last, Seq::empty(), Seq::empty());
        assert(last + Seq::<char>::empty() =~= last);
        assert(Seq::<char>::empty() + last =~= last);
        assert(words(last) == seq![last]);
        if parts.len() == 1 {
            assert(parts =~= seq![last]);
        } else {
            let front = parts.drop_last();
            assert forall|i: int| 0 <= i < front.len() implies is_word(#[trigger] front[i]) by {
                assert(front[i] == parts[i]);
            }
            lemma_words_of_joined(front);
            lemma_words_after_space(joined(front, " "@), last, Seq::empty());
            assert(front + seq![last] =~= parts);
        }
    }
}

} // verus!
