use attt::language::{LanguagePrompt, BOUNDARY};

fn corpus(words: &[&str]) -> LanguagePrompt {
    LanguagePrompt::new(
        String::from("english"),
        false,
        true,
        words.iter().map(|w| w.to_string()).collect(),
    )
}

fn text(chars: &[char]) -> String {
    chars.iter().collect()
}

#[test]
fn new_keeps_its_arguments() {
    let l = corpus(&["a", "b"]);
    assert_eq!(l.name, "english");
    assert!(!l.no_lazy_mode);
    assert!(l.ordered_by_frequency);
    assert_eq!(l.words, vec![String::from("a"), String::from("b")]);
}

#[test]
fn boundary_is_the_bullet() {
    assert_eq!(BOUNDARY, '\u{2022}');
}

#[test]
fn compose_joins_words_with_the_boundary() {
    let l = corpus(&["the", "quick", "fox"]);
    let phrase = l.compose(&vec![2, 0, 1, 0]).unwrap();
    assert_eq!(text(&phrase), "fox•the•quick•the");
}

#[test]
fn compose_of_one_word_has_no_boundary() {
    let l = corpus(&["the", "quick"]);
    assert_eq!(text(&l.compose(&vec![1]).unwrap()), "quick");
}

#[test]
fn compose_of_no_index_is_empty() {
    let l = corpus(&["the"]);
    assert_eq!(l.compose(&Vec::new()), Some(Vec::new()));
}

#[test]
fn compose_rejects_an_index_outside_the_corpus() {
    let l = corpus(&["the", "quick"]);
    assert_eq!(l.compose(&vec![0, 2]), None);
    assert_eq!(l.compose(&vec![usize::MAX]), None);
    assert_eq!(corpus(&[]).compose(&vec![0]), None);
}

#[test]
fn compose_keeps_the_separator_before_an_empty_last_word() {
    let l = corpus(&["a", ""]);
    assert_eq!(text(&l.compose(&vec![0, 1]).unwrap()), "a•");
    assert_eq!(text(&l.compose(&vec![1]).unwrap()), "");
    assert_eq!(text(&l.compose(&vec![1, 0]).unwrap()), "•a");
}

#[test]
fn compose_handles_characters_outside_ascii() {
    let l = corpus(&["über", "naïve"]);
    assert_eq!(text(&l.compose(&vec![0, 1]).unwrap()), "über•naïve");
}

#[test]
fn generate_never_ends_in_the_boundary_and_has_n_minus_one_of_them() {
    let l = corpus(&["the", "quick", "brown", "fox", "a"]);
    for n in 1..30u32 {
        let phrase = l.generate(n);
        assert_ne!(phrase.last(), Some(&BOUNDARY));
        assert_ne!(phrase.first(), Some(&BOUNDARY));
        let boundaries = phrase.iter().filter(|c| **c == BOUNDARY).count();
        assert_eq!(boundaries, n as usize - 1);
    }
}

#[test]
fn generate_draws_words_of_the_corpus() {
    let l = corpus(&["the", "quick", "brown"]);
    for _ in 0..20 {
        let phrase = text(&l.generate(10));
        let words: Vec<&str> = phrase.split(BOUNDARY).collect();
        assert_eq!(words.len(), 10);
        assert!(words.iter().all(|w| ["the", "quick", "brown"].contains(w)));
    }
}

#[test]
fn generate_draws_more_than_one_word_of_a_large_corpus() {
    let l = corpus(&["a", "b", "c", "d", "e", "f", "g", "h"]);
    let phrase = text(&l.generate(200));
    let mut seen: Vec<&str> = phrase.split(BOUNDARY).collect();
    seen.sort();
    seen.dedup();
    assert!(seen.len() > 1);
}

#[test]
fn generate_from_single_word_corpus_repeats_it() {
    let l = corpus(&["go"]);
    assert_eq!(text(&l.generate(3)), "go•go•go");
}

#[test]
fn generate_of_no_words_is_empty() {
    let l = corpus(&["the"]);
    assert!(l.generate(0).is_empty());
}

#[test]
fn generate_from_empty_corpus_is_empty() {
    let l = corpus(&[]);
    assert!(l.generate(5).is_empty());
}

#[test]
fn generate_with_an_empty_word_never_ends_in_the_boundary() {
    let l = corpus(&["a", ""]);
    for n in 0..12u32 {
        for _ in 0..40 {
            let phrase = l.generate(n);
            assert_ne!(phrase.last(), Some(&BOUNDARY));
            assert!(phrase.iter().all(|c| *c == 'a' || *c == BOUNDARY));
            assert!(phrase.len() <= 2 * n as usize);
        }
    }
}

#[test]
fn generate_from_only_the_empty_word_is_empty() {
    let l = corpus(&[""]);
    assert!(l.generate(1).is_empty());
    assert!(l.generate(2).is_empty());
    assert!(l.generate(7).is_empty());
}

#[test]
fn generate_with_a_word_that_ends_in_the_boundary_trims_it() {
    let l = corpus(&["a•"]);
    assert_eq!(text(&l.generate(1)), "a");
    assert_eq!(text(&l.generate(2)), "a••a");
    let l = corpus(&["a••"]);
    assert_eq!(text(&l.generate(1)), "a");
    let l = corpus(&["•"]);
    assert!(l.generate(3).is_empty());
    let l = corpus(&["ab", "c•", "", "•d"]);
    for _ in 0..200 {
        assert_ne!(l.generate(3).last(), Some(&BOUNDARY));
    }
}

#[test]
fn generate_keeps_boundaries_that_do_not_stand_last() {
    let l = corpus(&["•a"]);
    assert_eq!(text(&l.generate(2)), "•a••a");
}
