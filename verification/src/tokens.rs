//! Reading a row back: its whitespace-separated tokens.

use crate::text::texts;
use vstd::prelude::*;

verus! {

/// Whether `c` separates tokens: the characters that Unicode calls white
/// space.
pub open spec fn is_whitespace(c: char) -> bool {
    ||| c == ' '
    ||| ('\t' <= c && c <= '\r')
    ||| c == '\u{85}'
    ||| c == '\u{a0}'
    ||| c == '\u{1680}'
    ||| ('\u{2000}' <= c && c <= '\u{200a}')
    ||| c == '\u{2028}'
    ||| c == '\u{2029}'
    ||| c == '\u{202f}'
    ||| c == '\u{205f}'
    ||| c == '\u{3000}'
}

/// Whether `s` holds no white space.
pub open spec fn is_solid(s: Seq<char>) -> bool {
    forall|i: int| 0 <= i < s.len() ==> !is_whitespace(#[trigger] s[i])
}

/// Whether `s` is a word: not empty, and without white space.
pub open spec fn is_word(s: Seq<char>) -> bool {
    s.len() > 0 && is_solid(s)
}

/// Whether `s` holds nothing but white space.
pub open spec fn is_blank(s: Seq<char>) -> bool {
    forall|i: int| 0 <= i < s.len() ==> is_whitespace(#[trigger] s[i])
}

/// The state of a scan from left to right: the words that have ended, and
/// the characters of the word that has not.
pub struct Scan {
    pub done: Seq<Seq<char>>,
    pub word: Seq<char>,
}

impl Scan {
    /// The scan once the word in progress, if any, has ended.
    pub open spec fn closed(self) -> Scan {
        if self.word.len() > 0 {
            Scan { done: self.done.push(self.word), word: Seq::empty() }
        } else {
            self
        }
    }

    /// The scan after one more character: white space ends the word in
    /// progress, any other character extends it.
    pub open spec fn step(self, c: char) -> Scan {
        if is_whitespace(c) {
            self.closed()
        } else {
            Scan { done: self.done, word: self.word.push(c) }
        }
    }
}

/// The scan of all of `s`.
pub open spec fn scan(s: Seq<char>) -> Scan
    decreases s.len(),
{
    if s.len() == 0 {
        Scan { done: Seq::empty(), word: Seq::empty() }
    } else {
        scan(s.drop_last()).step(s.last())
    }
}

/// The tokens of `s`: its maximal runs of characters other than white
/// space, from left to right.
pub open spec fn tokens(s: Seq<char>) -> Seq<Seq<char>> {
    scan(s).closed().done
}

/// Scanning on through white space ends the word in progress and starts
/// none.
pub proof fn lemma_scan_blank(s: Seq<char>, blank: Seq<char>)
    requires
        is_blank(blank),
        blank.len() > 0,
    ensures
        scan(s + blank) == scan(s).closed(),
    decreases blank.len(),
{
    let all = s + blank;
    assert(all.drop_last() =~= s + blank.drop_last());
    assert(all.last() == blank.last());
    assert(is_whitespace(blank[blank.len() - 1]));
    if blank.len() > 1 {
        assert(is_blank(blank.drop_last())) by {
            assert forall|i: int| 0 <= i < blank.drop_last().len() implies is_whitespace(
                #[trigger] blank.drop_last()[i],
            ) by {
                assert(blank.drop_last()[i] == blank[i]);
            }
        }
        lemma_scan_blank(s, blank.drop_last());
    } else {
        assert(s + blank.drop_last() =~= s);
    }
}

/// Scanning on through characters other than white space extends the word
/// in progress.
pub proof fn lemma_scan_solid(s: Seq<char>, solid: Seq<char>)
    requires
        is_solid(solid),
    ensures
        scan(s + solid) == (Scan { done: scan(s).done, word: scan(s).word + solid }),
    decreases solid.len(),
{
    if solid.len() == 0 {
        assert(s + solid =~= s);
        assert(scan(s).word + solid =~= scan(s).word);
    } else {
        let all = s + solid;
        assert(all.drop_last() =~= s + solid.drop_last());
        assert(all.last() == solid.last());
        assert(!is_whitespace(solid[solid.len() - 1]));
        assert(is_solid(solid.drop_last())) by {
            assert forall|i: int| 0 <= i < solid.drop_last().len() implies !is_whitespace(
                #[trigger] solid.drop_last()[i],
            ) by {
                assert(solid.drop_last()[i] == solid[i]);
            }
        }
        lemma_scan_solid(s, solid.drop_last());
        assert(scan(s).word + solid =~= (scan(s).word + solid.drop_last()).push(solid.last()));
    }
}

/// Scanning on never takes back a word that has ended: the words done
/// after `s` are the first of the words done after `s` and `more`.
pub proof fn lemma_scan_done_grows(s: Seq<char>, more: Seq<char>)
    ensures
        scan(s).done.is_prefix_of(scan(s + more).done),
    decreases more.len(),
{
    if more.len() == 0 {
        assert(s + more =~= s);
        assert(scan(s).done.subrange(0, scan(s).done.len() as int) =~= scan(s).done);
    } else {
        let all = s + more;
        assert(all.drop_last() =~= s + more.drop_last());
        lemma_scan_done_grows(s, more.drop_last());
        let before = scan(s + more.drop_last());
        let start = scan(s).done;
        assert(before.done.push(before.word).subrange(0, start.len() as int)
            =~= before.done.subrange(0, start.len() as int));
    }
}

/// Every word that a scan has ended is a word, and the word in progress
/// holds no white space.
pub proof fn lemma_scan_gives_words(s: Seq<char>)
    ensures
        forall|i: int| 0 <= i < scan(s).done.len() ==> is_word(#[trigger] scan(s).done[i]),
        is_solid(scan(s).word),
    decreases s.len(),
{
    if s.len() > 0 {
        lemma_scan_gives_words(s.drop_last());
    }
}

/// Every token is a word: it is not empty and holds no white space.
pub proof fn lemma_tokens_are_words(s: Seq<char>)
    ensures
        forall|i: int| 0 <= i < tokens(s).len() ==> is_word(#[trigger] tokens(s)[i]),
{
    lemma_scan_gives_words(s);
}

/// Whether `c` separates tokens.
pub fn separates(c: char) -> (r: bool)
    ensures
        r == is_whitespace(c),
{
    c == ' ' || ('\t' <= c && c <= '\r') || c == '\u{85}' || c == '\u{a0}' || c == '\u{1680}' || (
    '\u{2000}' <= c && c <= '\u{200a}') || c == '\u{2028}' || c == '\u{2029}' || c == '\u{202f}'
        || c == '\u{205f}' || c == '\u{3000}'
}

/// Splits `s` into its whitespace-separated tokens.
pub fn split_whitespace(s: &str) -> (words: Vec<String>)
    ensures
        texts(words@) == tokens(s@),
{
    let mut words: Vec<String> = Vec::new();
    let mut word = String::new();
    assert(texts(words@) =~= scan(s@.take(0)).done);
    for c in it: s.chars()
        invariant
            it.seq() == s@,
            texts(words@) == scan(s@.take(it.index() as int)).done,
            word@ == scan(s@.take(it.index() as int)).word,
    {
        proof {
            let next = s@.take(it.index() + 1);
            assert(next.drop_last() =~= s@.take(it.index() as int));
            assert(next.last() == c);
        }
        if separates(c) {
            if word.as_str().unicode_len() > 0 {
                let ghost before = texts(words@);
                let mut ended = String::new();
                std::mem::swap(&mut word, &mut ended);
                words.push(ended);
                assert(texts(words@) =~= before.push(ended@));
            }
        } else {
            word.push(c);
        }
    }
    assert(s@.take(s@.len() as int) =~= s@);
    if word.as_str().unicode_len() > 0 {
        let ghost before = texts(words@);
        words.push(word);
        assert(texts(words@) =~= before.push(word@));
    }
    words
}

} // verus!
