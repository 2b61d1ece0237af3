# charabia (verified detection and classification)

A Verus library for two parts of a tokenizer:

- `detection`: the script and the language of a text. The detection itself is
  done by `whatlang`; the library decides when to ask it, caches the answers in
  `StrDetection`, and turns a detected language profile into a `Language` of
  the caller's allow list (`resolve_language`). `detection::script_language`
  holds `Script`, `Language` and their correspondence to `whatlang` profiles;
  `detection::laws` the proved properties.
- `normalizer::classify`: the classification of tokens into words, stop words
  (an `fst` set, built from words in byte order by `build_stop_words`) and
  separators (`separators`), and the marking of stop words by lemma, compared
  in their compatibility decomposition (`unicode-normalization`). `normalizer::laws` holds the proved properties.

`strings` compares strings by their characters; `token` defines tokens.
Calls into `whatlang`, `fst` and `unicode-normalization` go through small trusted wrappers whose
contracts are stated in their doc comments.
