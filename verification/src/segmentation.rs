use vstd::prelude::*;

use crate::text::{
    chars_of, is_whitespace, is_whitespace_spec, string_from_chars, trim_chars, trim_spec,
};

verus! {

/// The characters after which a sentence ends.
pub open spec fn is_sentence_end(c: char) -> bool {
    c == '。' || c == '！' || c == '？' || c == '!' || c == '?' || c == '.' || c == '；' || c == ';'
        || c == '\n'
}

/// Full-width punctuation that attaches to the preceding word.
pub open spec fn is_cjk_punctuation_spec(c: char) -> bool {
    c == '，' || c == '。' || c == '！' || c == '？' || c == '；' || c == '：' || c == '、' || c == '“'
        || c == '”' || c == '‘' || c == '’' || c == '（' || c == '）'
}

/// Decides [`is_cjk_punctuation_spec`].
pub fn is_cjk_punctuation(character: char) -> (result: bool)
    ensures
        result == is_cjk_punctuation_spec(character),
{
    character == '，' || character == '。' || character == '！' || character == '？' || character == '；'
        || character == '：' || character == '、' || character == '“' || character == '”' || character
        == '‘' || character == '’' || character == '（' || character == '）'
}

/// The sentences completed after reading `s`, and the text read since the last end mark.
pub open spec fn sentence_scan(s: Seq<char>) -> (Seq<Seq<char>>, Seq<char>)
    decreases s.len(),
{
    if s.len() == 0 {
        (Seq::empty(), Seq::empty())
    } else {
        let (done, current) = sentence_scan(s.drop_last());
        let c = s.last();
        let extended = current.push(c);
        if is_sentence_end(c) {
            let sentence = trim_spec(extended);
            (if sentence.len() > 0 { done.push(sentence) } else { done }, Seq::empty())
        } else {
            (done, extended)
        }
    }
}

/// The sentences of `text`: each run ending at a sentence mark (or at the end),
/// trimmed, with blank ones left out; the whole text when none remains.
pub open spec fn split_sentences_spec(text: Seq<char>) -> Seq<Seq<char>> {
    let (done, current) = sentence_scan(text);
    let trailing = trim_spec(current);
    let all = if trailing.len() > 0 { done.push(trailing) } else { done };
    if all.len() == 0 { seq![text] } else { all }
}

/// The text of each string in `items`.
pub open spec fn string_views(items: Seq<String>) -> Seq<Seq<char>> {
    items.map_values(|item: String| item@)
}

/// Splits cue text into sentences (see [`split_sentences_spec`]).
pub fn split_sentences(text: &str) -> (sentences: Vec<String>)
    ensures
        string_views(sentences@) == split_sentences_spec(text@),
{
    let chars = chars_of(text);
    let mut sentences: Vec<String> = Vec::new();
    let mut current: Vec<char> = Vec::new();
    let mut i: usize = 0;
    while i < chars.len()
        invariant
            chars@ == text@,
            0 <= i <= chars@.len(),
            (string_views(sentences@), current@) == sentence_scan(chars@.take(i as int)),
        decreases chars@.len() - i,
    {
        let c = chars[i];
        assert(chars@.take(i + 1).drop_last() =~= chars@.take(i as int));
        assert(chars@.take(i + 1).last() == c);
        current.push(c);
        if c == '。' || c == '！' || c == '？' || c == '!' || c == '?' || c == '.' || c == '；' || c == ';'
            || c == '\n' {
            let sentence = trim_chars(&current);
            if sentence.len() > 0 {
                let ghost before = sentences@;
                sentences.push(string_from_chars(&sentence));
                assert(string_views(sentences@) =~= string_views(before).push(sentence@));
            }
            current = Vec::new();
        }
        i = i + 1;
    }
    assert(chars@.take(chars@.len() as int) =~= chars@);
    let trailing = trim_chars(&current);
    if trailing.len() > 0 {
        let ghost before = sentences@;
        sentences.push(string_from_chars(&trailing));
        assert(string_views(sentences@) =~= string_views(before).push(trailing@));
    }
    if sentences.len() == 0 {
        let whole = string_from_chars(&chars);
        sentences.push(whole);
        assert(string_views(sentences@) =~= seq![text@]);
    }
    sentences
}

/// Characters that extend an ASCII word: letters, digits, apostrophe and underscore.
pub open spec fn is_word_char(c: char) -> bool {
    ('a' <= c && c <= 'z') || ('A' <= c && c <= 'Z') || ('0' <= c && c <= '9') || c == '\''
        || c == '_'
}

/// ASCII punctuation, as `char::is_ascii_punctuation` decides.
pub open spec fn is_ascii_punctuation_spec(c: char) -> bool {
    ('!' <= c && c <= '/') || (':' <= c && c <= '@') || ('[' <= c && c <= '`') || ('{' <= c && c
        <= '~')
}

/// `tokens` with `word` appended when it is not empty.
pub open spec fn flush_word(tokens: Seq<Seq<char>>, word: Seq<char>) -> Seq<Seq<char>> {
    if word.len() > 0 { tokens.push(word) } else { tokens }
}

/// The tokens completed after reading `s`, and the ASCII word being read.
pub open spec fn word_scan(s: Seq<char>) -> (Seq<Seq<char>>, Seq<char>)
    decreases s.len(),
{
    if s.len() == 0 {
        (Seq::empty(), Seq::empty())
    } else {
        let (tokens, word) = word_scan(s.drop_last());
        let c = s.last();
        if is_word_char(c) {
            (tokens, word.push(c))
        } else {
            let flushed = flush_word(tokens, word);
            if is_whitespace_spec(c) {
                (flushed, Seq::empty())
            } else if (is_ascii_punctuation_spec(c) || is_cjk_punctuation_spec(c)) && flushed.len()
                > 0 {
                (flushed.update(flushed.len() - 1, flushed.last().push(c)), Seq::empty())
            } else {
                (flushed.push(seq![c]), Seq::empty())
            }
        }
    }
}

/// The words of `text`: runs of ASCII letters, digits, apostrophes and
/// underscores; every other non-whitespace character on its own, except that
/// punctuation joins the token before it; the whole text when no token remains.
pub open spec fn tokenize_words_spec(text: Seq<char>) -> Seq<Seq<char>> {
    let (tokens, word) = word_scan(text);
    let all = flush_word(tokens, word);
    if all.len() == 0 { seq![text] } else { all }
}

/// Splits cue text into word tokens (see [`tokenize_words_spec`]). No
/// character is lost, repeated or moved: the tokens joined are the text
/// without its whitespace, each token non-empty and free of whitespace; a text
/// of whitespace alone is its own single token.
pub fn tokenize_words(text: &str) -> (tokens: Vec<String>)
    ensures
        string_views(tokens@) == tokenize_words_spec(text@),
        without_whitespace(text@).len() > 0 ==> {
            &&& string_views(tokens@).flatten() == without_whitespace(text@)
            &&& tokens_well_formed(string_views(tokens@))
        },
        without_whitespace(text@).len() == 0 ==> string_views(tokens@) == seq![text@],
{
    proof {
        lemma_tokenize_words_covers_text(text@);
    }
    let chars = chars_of(text);
    let mut tokens: Vec<Vec<char>> = Vec::new();
    let mut word: Vec<char> = Vec::new();
    let mut i: usize = 0;
    while i < chars.len()
        invariant
            chars@ == text@,
            0 <= i <= chars@.len(),
            (tokens@.map_values(|t: Vec<char>| t@), word@) == word_scan(chars@.take(i as int)),
        decreases chars@.len() - i,
    {
        let c = chars[i];
        assert(chars@.take(i + 1).drop_last() =~= chars@.take(i as int));
        assert(chars@.take(i + 1).last() == c);
        let ghost before = tokens@.map_values(|t: Vec<char>| t@);
        if ('a' <= c && c <= 'z') || ('A' <= c && c <= 'Z') || ('0' <= c && c <= '9') || c == '\''
            || c == '_' {
            word.push(c);
        } else {
            if word.len() > 0 {
                let finished = word;
                word = Vec::new();
                tokens.push(finished);
                assert(tokens@.map_values(|t: Vec<char>| t@) =~= before.push(finished@));
            }
            let ghost flushed = tokens@.map_values(|t: Vec<char>| t@);
            if is_whitespace(c) {
            } else if ((('!' <= c && c <= '/') || (':' <= c && c <= '@') || ('[' <= c && c <= '`')
                || ('{' <= c && c <= '~')) || is_cjk_punctuation(c)) && tokens.len() > 0 {
                let last = tokens.len() - 1;
                let mut previous = tokens.pop().unwrap();
                previous.push(c);
                tokens.push(previous);
                assert(tokens@.map_values(|t: Vec<char>| t@) =~= flushed.update(
                    last as int,
                    flushed.last().push(c),
                ));
            } else {
                let mut single: Vec<char> = Vec::new();
                single.push(c);
                tokens.push(single);
                assert(tokens@.map_values(|t: Vec<char>| t@) =~= flushed.push(seq![c]));
            }
        }
        i = i + 1;
    }
    assert(chars@.take(chars@.len() as int) =~= chars@);
    if word.len() > 0 {
        let ghost before = tokens@.map_values(|t: Vec<char>| t@);
        tokens.push(word);
        assert(tokens@.map_values(|t: Vec<char>| t@) =~= before.push(word@));
    }
    let mut result: Vec<String> = Vec::new();
    let mut j: usize = 0;
    while j < tokens.len()
        invariant
            0 <= j <= tokens@.len(),
            string_views(result@) =~= tokens@.map_values(|t: Vec<char>| t@).take(j as int),
        decreases tokens@.len() - j,
    {
        let ghost before = result@;
        result.push(string_from_chars(&tokens[j]));
        assert(string_views(result@) =~= string_views(before).push(tokens@[j as int]@));
        j = j + 1;
    }
    assert(tokens@.map_values(|t: Vec<char>| t@).take(tokens@.len() as int) =~= tokens@.map_values(
        |t: Vec<char>| t@,
    ));
    if result.len() == 0 {
        result.push(string_from_chars(&chars));
        assert(string_views(result@) =~= seq![text@]);
    }
    result
}

/// `s` with its whitespace characters removed.
pub open spec fn without_whitespace(s: Seq<char>) -> Seq<char>
    decreases s.len(),
{
    if s.len() == 0 {
        s
    } else if is_whitespace_spec(s.last()) {
        without_whitespace(s.drop_last())
    } else {
        without_whitespace(s.drop_last()).push(s.last())
    }
}

/// Every token is non-empty and holds no whitespace.
pub open spec fn tokens_well_formed(tokens: Seq<Seq<char>>) -> bool {
    forall|i: int|
        0 <= i < tokens.len() ==> #[trigger] tokens[i].len() > 0 && forall|j: int|
            0 <= j < tokens[i].len() ==> !is_whitespace_spec(tokens[i][j])
}

proof fn lemma_word_scan_covers(s: Seq<char>)
    ensures
        ({
            let (tokens, word) = word_scan(s);
            &&& tokens.flatten_alt() + word == without_whitespace(s)
            &&& tokens_well_formed(tokens)
            &&& forall|j: int| 0 <= j < word.len() ==> is_word_char(#[trigger] word[j])
        }),
    decreases s.len(),
{
    if s.len() > 0 {
        lemma_word_scan_covers(s.drop_last());
        let (tokens, word) = word_scan(s.drop_last());
        let c = s.last();
        if is_word_char(c) {
            assert(!is_whitespace_spec(c));
            assert(tokens.flatten_alt() + word.push(c) =~= (tokens.flatten_alt() + word).push(c));
        } else {
            let flushed = flush_word(tokens, word);
            assert(flushed.flatten_alt() =~= tokens.flatten_alt() + word) by {
                if word.len() > 0 {
                    assert(tokens.push(word).drop_last() =~= tokens);
                } else {
                    assert(tokens.flatten_alt() + word =~= tokens.flatten_alt());
                }
            }
            assert(tokens_well_formed(flushed)) by {
                if word.len() > 0 {
                    assert forall|i: int| 0 <= i < flushed.len() implies #[trigger] flushed[i].len()
                        > 0 && forall|j: int|
                        0 <= j < flushed[i].len() ==> !is_whitespace_spec(flushed[i][j]) by {
                        if i == tokens.len() {
                            assert forall|j: int| 0 <= j < flushed[i].len() implies !is_whitespace_spec(
                                flushed[i][j],
                            ) by {
                                assert(is_word_char(word[j]));
                            }
                        }
                    }
                }
            }
            if is_whitespace_spec(c) {
                assert(flushed.flatten_alt() + Seq::<char>::empty() =~= flushed.flatten_alt());
            } else if (is_ascii_punctuation_spec(c) || is_cjk_punctuation_spec(c)) && flushed.len()
                > 0 {
                let last = flushed.last().push(c);
                let updated = flushed.update(flushed.len() - 1, last);
                assert(updated.drop_last() =~= flushed.drop_last());
                assert(flushed.flatten_alt() =~= flushed.drop_last().flatten_alt() + flushed.last());
                assert(updated.flatten_alt() + Seq::<char>::empty() =~= flushed.flatten_alt().push(
                    c,
                ));
                assert(tokens_well_formed(updated)) by {
                    assert forall|i: int| 0 <= i < updated.len() implies #[trigger] updated[i].len()
                        > 0 && forall|j: int|
                        0 <= j < updated[i].len() ==> !is_whitespace_spec(updated[i][j]) by {
                        if i == flushed.len() - 1 {
                            assert forall|j: int| 0 <= j < updated[i].len() implies !is_whitespace_spec(
                                updated[i][j],
                            ) by {
                                if j < flushed[i].len() {
                                    assert(updated[i][j] == flushed[i][j]);
                                }
                            }
                        }
                    }
                }
            } else {
                let pushed = flushed.push(seq![c]);
                assert(pushed.drop_last() =~= flushed);
                assert(pushed.flatten_alt() + Seq::<char>::empty() =~= flushed.flatten_alt().push(c));
                assert(tokens_well_formed(pushed)) by {
                    assert forall|i: int| 0 <= i < pushed.len() implies #[trigger] pushed[i].len() > 0
                        && forall|j: int|
                        0 <= j < pushed[i].len() ==> !is_whitespace_spec(pushed[i][j]) by {
                        if i < flushed.len() {
                            assert(pushed[i] == flushed[i]);
                        }
                    }
                }
            }
        }
    }
}

proof fn lemma_flatten_alt_nonempty(tokens: Seq<Seq<char>>)
    requires
        tokens_well_formed(tokens),
        tokens.len() > 0,
    ensures
        tokens.flatten_alt().len() > 0,
    decreases tokens.len(),
{
    assert(tokens[tokens.len() - 1].len() > 0);
    assert(tokens.flatten_alt() == tokens.drop_last().flatten_alt() + tokens.last());
}

/// Tokenizing loses, duplicates and reorders no character: when the text holds a
/// character other than whitespace, the tokens joined are the text without its
/// whitespace, and each token is non-empty and free of whitespace; otherwise the
/// only token is the text itself.
pub proof fn lemma_tokenize_words_covers_text(text: Seq<char>)
    ensures
        without_whitespace(text).len() > 0 ==> {
            &&& tokenize_words_spec(text).flatten() == without_whitespace(text)
            &&& tokens_well_formed(tokenize_words_spec(text))
        },
        without_whitespace(text).len() == 0 ==> tokenize_words_spec(text) == seq![text],
{
    lemma_word_scan_covers(text);
    let (tokens, word) = word_scan(text);
    let all = flush_word(tokens, word);
    assert(all.flatten_alt() =~= without_whitespace(text)) by {
        if word.len() > 0 {
            assert(tokens.push(word).drop_last() =~= tokens);
        } else {
            assert(tokens.flatten_alt() + word =~= tokens.flatten_alt());
        }
    }
    assert(tokens_well_formed(all)) by {
        if word.len() > 0 {
            assert forall|i: int| 0 <= i < all.len() implies #[trigger] all[i].len() > 0 && forall|
                j: int,
            | 0 <= j < all[i].len() ==> !is_whitespace_spec(all[i][j]) by {
                if i == tokens.len() {
                    assert forall|j: int| 0 <= j < all[i].len() implies !is_whitespace_spec(
                        all[i][j],
                    ) by {
                        assert(is_word_char(word[j]));
                    }
                }
            }
        }
    }
    all.lemma_flatten_and_flatten_alt_are_equivalent();
    if all.len() > 0 {
        lemma_flatten_alt_nonempty(all);
    }
}

} // verus!
