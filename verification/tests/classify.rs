use charabia::strings::{contains_str, str_eq};
use charabia::normalizer::classify::{build_stop_words, normalize_for_stop_list};
use charabia::{
    classify_lemma, separator_kind, Classifier, ClassifierOption, Normalizer, NormalizerOption,
    SeparatorKind, Token, TokenKind,
};

fn token(lemma: &str) -> Token {
    Token { lemma: lemma.to_string(), ..Default::default() }
}

/// The bytes of an FST set of `words`, which must be sorted.
fn stop_word_bytes(words: &[&str]) -> Vec<u8> {
    fst::Set::from_iter(words.iter()).unwrap().as_fst().as_bytes().to_vec()
}

fn options_with_stop_words(bytes: &[u8]) -> NormalizerOption<'_> {
    NormalizerOption {
        create_char_map: true,
        lossy: true,
        classifier: ClassifierOption {
            stop_words: Some(fst::Set::new(bytes).unwrap()),
            separators: None,
        },
    }
}

#[test]
fn stop_words() {
    let stop_words = fst::Set::from_iter(["the"].iter()).unwrap();
    let stop_words = stop_words.as_fst().as_bytes();
    let stop_words = fst::Set::new(stop_words).unwrap();
    let options = NormalizerOption {
        create_char_map: true,
        classifier: ClassifierOption { stop_words: Some(stop_words), separators: None },
        lossy: false,
        ..Default::default()
    };

    let token = Classifier.normalize(Token { lemma: "the".to_string(), ..Default::default() }, &options);
    assert!(token.is_stopword());

    let token = Classifier.normalize(Token { lemma: "The".to_string(), ..Default::default() }, &options);
    assert!(token.is_word());

    let token =
        Classifier.normalize(Token { lemma: "foobar".to_string(), ..Default::default() }, &options);
    assert!(token.is_word());
}

/// The dictionary that the lemma tests use: a few answers, written by hand.
/// The Finnish word answers in composed form, while the token reaches it
/// decomposed by the compatibility decomposition, as a dictionary does.
fn dictionary(word: &str) -> Option<&'static str> {
    match word {
        "мыла" | "Мыла" | "мыл" => Some("мыть"),
        "etta\u{308}" => Some("että"),
        _ => None,
    }
}

/// A token of the word `text` through the steps of normalization that these
/// tests exercise: the non-lossy normalization, the classifier, and, where the
/// dictionary knows the word, lemmatization and the classification of the
/// lemma.
fn lemmatized(text: &str, stop_words: &[u8]) -> Token {
    let options = options_with_stop_words(stop_words);
    let normalized = normalize_for_stop_list(text);
    let classified = Classifier.normalize(token(&normalized), &options);
    match dictionary(&normalized) {
        Some(lemma) => {
            let with_lemma = Token { lemma: lemma.to_string(), ..classified };
            classify_lemma(with_lemma, &options)
        },
        None => classified,
    }
}

/// A stop list as it is stored: each word in stop-list form, sorted.
fn stop_word_set(words: &[&str]) -> Vec<u8> {
    let mut normalized: Vec<String> = words.iter().map(|word| normalize_for_stop_list(word)).collect();
    normalized.sort();
    fst::Set::from_iter(normalized).unwrap().as_fst().as_bytes().to_vec()
}

#[test]
fn stop_word_written_as_a_lemma_catches_every_word_form() {
    let stop_words = stop_word_set(&["мыть"]);

    assert!(lemmatized("мыла", &stop_words).is_stopword());
    assert!(lemmatized("Мыла", &stop_words).is_stopword());
    assert!(lemmatized("мыть", &stop_words).is_stopword());
    assert!(lemmatized("раму", &stop_words).is_word());
}

#[test]
fn stop_word_written_as_a_word_form_keeps_working() {
    let stop_words = stop_word_set(&["мыла"]);

    assert!(lemmatized("мыла", &stop_words).is_stopword());
    let token = lemmatized("мыл", &stop_words);
    assert!(token.is_word());
    assert_eq!(token.lemma(), "мыть");
}

#[test]
fn lemma_and_stop_word_are_compared_in_the_same_composition_form() {
    let stop_words = stop_word_set(&["että"]);

    assert!(lemmatized("että", &stop_words).is_stopword());
    assert!(lemmatized("etta\u{308}", &stop_words).is_stopword());
}

#[test]
fn composed_lemma_is_found_in_a_decomposed_stop_list() {
    let stop_words = stop_word_set(&["että"]);
    assert_eq!(fst::Set::new(&stop_words[..]).unwrap().contains("etta\u{308}"), true);
    assert_eq!(fst::Set::new(&stop_words[..]).unwrap().contains("että"), false);
    let options = options_with_stop_words(&stop_words);
    for lemma in ["että", "etta\u{308}"] {
        let word = Token { kind: TokenKind::Word, ..token(lemma) };
        let r = classify_lemma(word, &options);
        assert!(r.is_stopword(), "lemma {:?}", lemma);
        assert_eq!(r.lemma(), lemma);
    }
    let other = Token { kind: TokenKind::Word, ..token("etta") };
    assert!(classify_lemma(other, &options).is_word());
}

#[test]
fn stop_list_form_decomposes_and_keeps_case() {
    assert_eq!(normalize_for_stop_list("että"), "etta\u{308}");
    assert_eq!(normalize_for_stop_list("Мыть"), "Мыть");
    assert_eq!(normalize_for_stop_list("\u{FB01}le"), "file");
    assert_eq!(normalize_for_stop_list("The"), "The");
}

#[test]
fn stop_words_are_built_from_sorted_words() {
    let mut buffer = Vec::new();
    let set = build_stop_words(&["a", "the", "the", "мыть"], &mut buffer).unwrap();
    assert!(set.contains("the"));
    assert!(set.contains("мыть"));
    assert!(!set.contains("th"));
    let options = NormalizerOption {
        classifier: ClassifierOption { stop_words: Some(set), separators: None },
        ..Default::default()
    };
    assert!(Classifier.normalize(token("the"), &options).is_stopword());
    assert!(Classifier.normalize(token("The"), &options).is_word());

    let mut buffer = Vec::new();
    assert!(build_stop_words(&["the", "a"], &mut buffer).is_none());
    let mut buffer = Vec::new();
    assert!(build_stop_words(&["ab", "a"], &mut buffer).is_none());
    let mut buffer = Vec::new();
    let empty = build_stop_words(&[], &mut buffer).unwrap();
    assert!(!empty.contains(""));
}

#[test]
fn default_separators_classify_tokens() {
    let options = NormalizerOption::default();
    let expected = [
        (" ", TokenKind::Separator(SeparatorKind::Soft)),
        ("\"", TokenKind::Separator(SeparatorKind::Soft)),
        ("@", TokenKind::Separator(SeparatorKind::Soft)),
        (".", TokenKind::Separator(SeparatorKind::Soft)),
        (". ", TokenKind::Separator(SeparatorKind::Hard)),
        ("。", TokenKind::Separator(SeparatorKind::Hard)),
        ("S.O.S", TokenKind::Word),
        ("ь", TokenKind::Word),
    ];
    for (lemma, kind) in expected {
        let classified = Classifier.normalize(token(lemma), &options);
        assert_eq!(classified.kind, kind, "lemma {:?}", lemma);
        assert_eq!(classified.lemma(), lemma);
    }
}

#[test]
fn custom_separators_replace_the_default_ones() {
    let separators = ["S.O.S", ". "];
    let options = NormalizerOption {
        classifier: ClassifierOption { stop_words: None, separators: Some(&separators) },
        ..Default::default()
    };
    assert_eq!(
        Classifier.normalize(token("S.O.S"), &options).kind,
        TokenKind::Separator(SeparatorKind::Soft)
    );
    assert_eq!(
        Classifier.normalize(token(". "), &options).kind,
        TokenKind::Separator(SeparatorKind::Hard)
    );
    assert_eq!(Classifier.normalize(token(" "), &options).kind, TokenKind::Word);
}

#[test]
fn stop_word_wins_over_separator() {
    let bytes = stop_word_bytes(&["."]);
    let options = options_with_stop_words(&bytes);
    let classified = Classifier.normalize(token("."), &options);
    assert!(classified.is_stopword());
    assert!(!classified.is_separator());
}

#[test]
fn classification_keeps_every_other_field() {
    let options = NormalizerOption::default();
    let original = Token {
        lemma: "word".to_string(),
        char_start: 3,
        char_end: 7,
        byte_start: 3,
        byte_end: 7,
        kind: TokenKind::StopWord,
        ..Default::default()
    };
    let classified = Classifier.normalize(original, &options);
    assert_eq!(classified.kind, TokenKind::Word);
    assert_eq!(classified.lemma(), "word");
    assert_eq!((classified.char_start, classified.char_end), (3, 7));
    assert_eq!((classified.byte_start, classified.byte_end), (3, 7));
    let again = Classifier.normalize(classified, &options);
    assert_eq!(again.kind, TokenKind::Word);
}

#[test]
fn only_unclassified_tokens_are_classified() {
    assert!(Classifier.should_normalize(&token("a")));
    let word = Token { kind: TokenKind::Word, ..token("a") };
    assert!(!Classifier.should_normalize(&word));
}

#[test]
fn lemma_classification_without_stop_words_changes_nothing() {
    let options = NormalizerOption::default();
    let word = Token { kind: TokenKind::Word, ..token("мыть") };
    let r = classify_lemma(word, &options);
    assert_eq!(r.kind, TokenKind::Word);
}

#[test]
fn lemma_classification_keeps_stop_words() {
    let bytes = stop_word_bytes(&["a"]);
    let options = options_with_stop_words(&bytes);
    let stop = Token { kind: TokenKind::StopWord, ..token("b") };
    assert!(classify_lemma(stop, &options).is_stopword());
    let word = Token { kind: TokenKind::Word, ..token("b") };
    assert!(classify_lemma(word, &options).is_word());
}

#[test]
fn separator_kinds() {
    assert_eq!(separator_kind(". "), SeparatorKind::Hard);
    assert_eq!(separator_kind("\n"), SeparatorKind::Hard);
    assert_eq!(separator_kind("。"), SeparatorKind::Hard);
    assert_eq!(separator_kind("."), SeparatorKind::Soft);
    assert_eq!(separator_kind(" "), SeparatorKind::Soft);
    assert_eq!(separator_kind("word"), SeparatorKind::Soft);
}

#[test]
fn string_comparison() {
    assert!(str_eq("мыть", "мыть"));
    assert!(!str_eq("мыть", "мыт"));
    assert!(!str_eq("että", "etta\u{308}"));
    assert!(str_eq("", ""));
    assert!(contains_str(&["a", "bc"], "bc"));
    assert!(!contains_str(&["a", "bc"], "b"));
    assert!(!contains_str(&[], ""));
}

#[test]
fn token_accessors() {
    let t = Token::default();
    assert_eq!(t.kind, TokenKind::Unknown);
    assert_eq!(t.lemma(), "");
    assert_eq!(t.separator_kind(), None);
    let s = Token { kind: TokenKind::Separator(SeparatorKind::Hard), ..token(". ") };
    assert!(s.is_separator());
    assert_eq!(s.separator_kind(), Some(SeparatorKind::Hard));
    assert!(!s.is_word());
    assert!(!s.is_stopword());
}
