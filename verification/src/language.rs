//! The word corpus and the phrases drawn from it.

use rand::distributions::{Distribution, Uniform};
use vstd::prelude::*;

verus! {

/// The marker that stands for a space between two words of a phrase.
pub const BOUNDARY: char = '•';

/// Every index of `indices` points into a corpus of `len` words.
pub open spec fn in_range(indices: Seq<usize>, len: nat) -> bool {
    forall|i: int| 0 <= i < indices.len() ==> #[trigger] indices[i] < len
}

/// The words that `indices` pick from `words`, in order, with the boundary
/// marker between each two of them.
pub open spec fn joined(words: Seq<Seq<char>>, indices: Seq<usize>) -> Seq<char>
    decreases indices.len(),
{
    if indices.len() == 0 {
        Seq::empty()
    } else if indices.len() == 1 {
        words[indices[0] as int]
    } else {
        joined(words, indices.drop_last()) + seq![BOUNDARY] + words[indices.last() as int]
    }
}

/// How often `c` occurs in `s`.
pub open spec fn occurrences(s: Seq<char>, c: char) -> nat
    decreases s.len(),
{
    if s.len() == 0 {
        0
    } else {
        occurrences(s.drop_last(), c) + if s.last() == c {
            1nat
        } else {
            0nat
        }
    }
}

/// `s` is not empty and its last character is the boundary marker.
pub open spec fn ends_in_boundary(s: Seq<char>) -> bool {
    s.len() > 0 && s.last() == BOUNDARY
}

/// Occurrences add up over concatenation.
pub proof fn lemma_occurrences_add(a: Seq<char>, b: Seq<char>, c: char)
    ensures
        occurrences(a + b, c) == occurrences(a, c) + occurrences(b, c),
    decreases b.len(),
{
    if b.len() == 0 {
        assert(a + b =~= a);
    } else {
        lemma_occurrences_add(a, b.drop_last(), c);
        assert((a + b).drop_last() =~= a + b.drop_last());
    }
}

/// A sequence in which `c` does not stand has no occurrence of it.
pub proof fn lemma_occurrences_absent(s: Seq<char>, c: char)
    requires
        forall|i: int| 0 <= i < s.len() ==> s[i] != c,
    ensures
        occurrences(s, c) == 0,
    decreases s.len(),
{
    if s.len() > 0 {
        lemma_occurrences_absent(s.drop_last(), c);
    }
}

/// Words joined end in the boundary marker only through the last word: where
/// that word itself ends in the marker, or where it is empty and follows
/// another word, so that the separator before it stands last. In particular
/// words of which the last is non-empty and free of the marker do not end in
/// it when joined.
pub proof fn lemma_joined_end(words: Seq<Seq<char>>, indices: Seq<usize>)
    ensures
        ends_in_boundary(joined(words, indices)) <==> indices.len() > 0 && {
            let last_word = words[indices.last() as int];
            if last_word.len() == 0 {
                indices.len() >= 2
            } else {
                last_word.last() == BOUNDARY
            }
        },
{
    if indices.len() >= 2 {
        let head = joined(words, indices.drop_last()) + seq![BOUNDARY];
        let last_word = words[indices.last() as int];
        if last_word.len() == 0 {
            assert(head + last_word =~= head);
        }
    }
}

/// A phrase of `n >= 1` words, none of which holds the boundary marker,
/// holds exactly `n - 1` markers.
pub proof fn lemma_joined_boundaries(words: Seq<Seq<char>>, indices: Seq<usize>)
    requires
        indices.len() >= 1,
        forall|i: int, j: int|
            0 <= i < indices.len() && 0 <= j < words[indices[i] as int].len()
                ==> #[trigger] words[#[trigger] indices[i] as int][j] != BOUNDARY,
    ensures
        occurrences(joined(words, indices), BOUNDARY) == indices.len() - 1,
    decreases indices.len(),
{
    let last_word = words[indices.last() as int];
    assert forall|j: int| 0 <= j < last_word.len() implies last_word[j] != BOUNDARY by {
        let i = indices.len() - 1;
        assert(words[indices[i] as int][j] != BOUNDARY);
    }
    lemma_occurrences_absent(last_word, BOUNDARY);
    if indices.len() == 1 {
        assert(indices.last() == indices[0]);
    } else {
        let front = indices.drop_last();
        assert forall|i: int, j: int|
            0 <= i < front.len() && 0 <= j < words[front[i] as int].len()
                implies #[trigger] words[#[trigger] front[i] as int][j] != BOUNDARY by {
            assert(front[i] == indices[i]);
            assert(words[indices[i] as int][j] != BOUNDARY);
        }
        lemma_joined_boundaries(words, front);
        let separator = seq![BOUNDARY];
        assert(occurrences(separator, BOUNDARY) == 1) by {
            assert(separator.drop_last() =~= Seq::<char>::empty());
            reveal_with_fuel(occurrences, 2);
        }
        lemma_occurrences_add(joined(words, front), separator, BOUNDARY);
        lemma_occurrences_add(joined(words, front) + separator, last_word, BOUNDARY);
    }
}

/// `s` without the boundary markers at its end.
pub open spec fn trimmed(s: Seq<char>) -> Seq<char>
    decreases s.len(),
{
    if ends_in_boundary(s) {
        trimmed(s.drop_last())
    } else {
        s
    }
}

/// What is left after trimming does not end in the boundary marker and is
/// the beginning of what was trimmed; trimming it again changes nothing.
pub proof fn lemma_trimmed(s: Seq<char>)
    ensures
        !ends_in_boundary(trimmed(s)),
        trimmed(s).len() <= s.len(),
        trimmed(s) == s.take(trimmed(s).len() as int),
        trimmed(trimmed(s)) == trimmed(s),
        !ends_in_boundary(s) ==> trimmed(s) == s,
    decreases s.len(),
{
    if ends_in_boundary(s) {
        lemma_trimmed(s.drop_last());
        let rest = trimmed(s.drop_last());
        assert(s.drop_last().take(rest.len() as int) =~= s.take(rest.len() as int));
    } else {
        assert(s.take(s.len() as int) =~= s);
    }
}

/// Trimming takes nothing but boundary markers away: the occurrences of any
/// other character stay as they were.
pub proof fn lemma_trimmed_keeps_others(s: Seq<char>, c: char)
    requires
        c != BOUNDARY,
    ensures
        occurrences(trimmed(s), c) == occurrences(s, c),
    decreases s.len(),
{
    if ends_in_boundary(s) {
        lemma_trimmed_keeps_others(s.drop_last(), c);
    }
}

/// `phrase` is what a draw of `word_count` words from `corpus` can give: the
/// words at some `word_count` indices of the corpus, joined, without the
/// boundary markers that would stand at the end. From a corpus without words
/// nothing can be drawn, and the phrase is empty.
pub open spec fn is_sample(corpus: Seq<Seq<char>>, phrase: Seq<char>, word_count: nat) -> bool {
    if corpus.len() == 0 {
        phrase == Seq::<char>::empty()
    } else {
        exists|indices: Seq<usize>|
            {
                &&& indices.len() == word_count
                &&& in_range(indices, corpus.len())
                &&& phrase == trimmed(#[trigger] joined(corpus, indices))
            }
    }
}

/// No phrase that a draw can give ends in the boundary marker.
pub proof fn lemma_sample_end(corpus: Seq<Seq<char>>, phrase: Seq<char>, word_count: nat)
    requires
        is_sample(corpus, phrase, word_count),
    ensures
        !ends_in_boundary(phrase),
{
    if corpus.len() > 0 {
        let indices = choose|indices: Seq<usize>|
            {
                &&& indices.len() == word_count
                &&& in_range(indices, corpus.len())
                &&& phrase == trimmed(#[trigger] joined(corpus, indices))
            };
        lemma_trimmed(joined(corpus, indices));
    }
}

/// Where the words drawn are not empty and hold no boundary marker, nothing
/// is trimmed: the phrase is the words joined, with exactly one marker
/// between each two of them.
pub proof fn lemma_trimmed_joined(words: Seq<Seq<char>>, indices: Seq<usize>)
    requires
        indices.len() >= 1,
        forall|i: int| 0 <= i < indices.len() ==> words[#[trigger] indices[i] as int].len() > 0,
        forall|i: int, j: int|
            0 <= i < indices.len() && 0 <= j < words[indices[i] as int].len()
                ==> #[trigger] words[#[trigger] indices[i] as int][j] != BOUNDARY,
    ensures
        trimmed(joined(words, indices)) == joined(words, indices),
        occurrences(trimmed(joined(words, indices)), BOUNDARY) == indices.len() - 1,
{
    let last = indices.len() - 1;
    let last_word = words[indices[last] as int];
    assert(last_word.len() > 0);
    assert(last_word[last_word.len() - 1] != BOUNDARY);
    lemma_joined_end(words, indices);
    lemma_trimmed(joined(words, indices));
    lemma_joined_boundaries(words, indices);
}

/// `rand::thread_rng`, `Uniform::from` on the range `0..len` and
/// `Distribution::sample`: one draw from the thread's generator, uniform over
/// the indices below `len`. `Uniform::from` panics on an empty range, so `len`
/// is positive; of the draw only its range is claimed.
#[verifier::external_body]
fn random_index(len: usize) -> (index: usize)
    requires
        len > 0,
    ensures
        index < len,
{
    Uniform::from(0..len).sample(&mut rand::thread_rng())
}

/// Appends the characters of `word` to `chars`.
fn push_chars(chars: &mut Vec<char>, word: &str)
    ensures
        final(chars)@ == old(chars)@ + word@,
{
    let ghost before = chars@;
    for c in it: word.chars()
        invariant
            it.seq() == word@,
            chars@ == before + word@.take(it.index() as int),
    {
        chars.push(c);
        assert(word@.take(it.index() + 1) =~= word@.take(it.index() as int).push(c));
    }
    assert(word@.take(word@.len() as int) =~= word@);
}

/// A named list of words from which phrases are drawn.
#[derive(Debug, Default)]
pub struct LanguagePrompt {
    pub name: String,
    pub no_lazy_mode: bool,
    pub ordered_by_frequency: bool,
    pub words: Vec<String>,
}

impl LanguagePrompt {
    /// The words of the corpus, each as its characters.
    pub open spec fn corpus(&self) -> Seq<Seq<char>> {
        Seq::new(self.words@.len(), |i: int| self.words@[i]@)
    }

    pub fn new(
        name: String,
        no_lazy_mode: bool,
        ordered_by_frequency: bool,
        words: Vec<String>,
    ) -> (language: Self)
        ensures
            language.name == name,
            language.no_lazy_mode == no_lazy_mode,
            language.ordered_by_frequency == ordered_by_frequency,
            language.words == words,
    {
        Self { name, no_lazy_mode, ordered_by_frequency, words }
    }

    /// The phrase made of the words at `indices`, joined by the boundary
    /// marker; `None` where an index points outside the corpus.
    pub fn compose(&self, indices: &Vec<usize>) -> (phrase: Option<Vec<char>>)
        ensures
            phrase is Some <==> in_range(indices@, self.words@.len()),
            phrase matches Some(chars) ==> chars@ == joined(self.corpus(), indices@),
    {
        let mut chars: Vec<char> = Vec::new();
        let mut i: usize = 0;
        while i < indices.len()
            invariant
                i <= indices.len(),
                in_range(indices@.take(i as int), self.words@.len()),
                chars@ == joined(self.corpus(), indices@.take(i as int)),
            decreases indices.len() - i,
        {
            let idx: usize = indices[i];
            if idx >= self.words.len() {
                return None;
            }
            // a separator before every word but the first
            if i > 0 {
                chars.push(BOUNDARY);
            }
            push_chars(&mut chars, self.words[idx].as_str());
            proof {
                let done = indices@.take(i as int);
                let next = indices@.take(i + 1);
                assert(next.drop_last() =~= done);
                assert(next.last() == idx);
                assert(self.corpus()[idx as int] == self.words@[idx as int]@);
                if i == 0 {
                    assert(chars@ =~= self.corpus()[idx as int]);
                } else {
                    assert(chars@ =~= joined(self.corpus(), done) + seq![BOUNDARY]
                        + self.corpus()[idx as int]);
                }
            }
            i += 1;
        }
        assert(indices@.take(i as int) =~= indices@);
        Some(chars)
    }

    /// Draws `word_count` words from the corpus, uniformly at random and
    /// with replacement, and joins them to a phrase. A boundary marker that
    /// would stand at the end of the phrase is taken away.
    pub fn generate(&self, word_count: u32) -> (phrase: Vec<char>)
        ensures
            is_sample(self.corpus(), phrase@, word_count as nat),
            !ends_in_boundary(phrase@),
    {
        let len: usize = self.words.len();
        let mut indices: Vec<usize> = Vec::new();
        if len > 0 {
            let mut drawn: u32 = 0;
            while drawn < word_count
                invariant
                    len == self.words@.len(),
                    len > 0,
                    drawn <= word_count,
                    indices@.len() == drawn,
                    in_range(indices@, len as nat),
                decreases word_count - drawn,
            {
                let idx: usize = random_index(len);
                indices.push(idx);
                drawn += 1;
            }
        }
        let mut phrase: Vec<char> = match self.compose(&indices) {
            Some(phrase) => phrase,
            None => Vec::new(),
        };
        let ghost full = phrase@;
        while ends_with_boundary(&phrase)
            invariant
                trimmed(phrase@) == trimmed(full),
            decreases phrase@.len(),
        {
            phrase.pop();
        }
        proof {
            lemma_trimmed(phrase@);
            assert(phrase@ == trimmed(full));
            if len == 0 {
                assert(full =~= Seq::<char>::empty());
            }
        }
        phrase
    }
}

/// Whether `chars` is not empty and its last character is the boundary
/// marker.
fn ends_with_boundary(chars: &Vec<char>) -> (ends: bool)
    ensures
        ends == ends_in_boundary(chars@),
{
    chars.len() > 0 && chars[chars.len() - 1] == BOUNDARY
}

} // verus!
