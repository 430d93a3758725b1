//! Tokens as the tokenizer hands them out, and their classification against
//! the loaded configuration.

use vstd::prelude::*;

use charabia::Tokenize;
use crate::config::Config;
use crate::config::ConfigView;

verus! {

/// What the tokenizer yields for a line: its tokens in source order, each as
/// a (normalized lemma, intrinsic separator flag) pair. The stream is finite
/// and depends on the line's characters alone.
pub uninterp spec fn tokens_of(line: Seq<char>) -> Seq<(Seq<char>, bool)>;

/// One token of a line: the tokenizer's normalized lemma and its own
/// separator/punctuation classification.
pub struct Token {
    pub lemma: String,
    pub separator: bool,
}

impl View for Token {
    type V = (Seq<char>, bool);

    open spec fn view(&self) -> (Seq<char>, bool) {
        (self.lemma@, self.separator)
    }
}

impl DeepView for Token {
    type V = (Seq<char>, bool);

    open spec fn deep_view(&self) -> (Seq<char>, bool) {
        self.view()
    }
}

/// What becomes of a token in the report: dropped entirely, rendered as a
/// separator span, or rendered as a word span.
#[derive(PartialEq, Eq, Structural, Clone, Copy, Debug)]
pub enum Category {
    Removed,
    Separator,
    Word,
}

/// The classification rule, first match wins: a lemma listed among the
/// removed separators is dropped; otherwise a token the tokenizer calls a
/// separator, or whose lemma is listed among the extra separators, is a
/// separator; everything else is a word.
pub open spec fn spec_classify(lemma: Seq<char>, separator: bool, cfg: ConfigView) -> Category {
    if cfg.removed.contains(lemma) {
        Category::Removed
    } else if separator || cfg.extra.contains(lemma) {
        Category::Separator
    } else {
        Category::Word
    }
}

/// Classify one token against the configuration. Pure: depends on the
/// token's lemma, its intrinsic separator flag and the two lists alone.
pub fn classify(token: &Token, cfg: &Config) -> (c: Category)
    ensures
        c == spec_classify(token.lemma@, token.separator, cfg@),
{
    if contains_string(&cfg.removed_separators, &token.lemma) {
        Category::Removed
    } else if token.separator || contains_string(&cfg.extra_separators, &token.lemma) {
        Category::Separator
    } else {
        Category::Word
    }
}

/// Relies on charabia's Tokenize::tokenize, Token::lemma and
/// Token::is_separator: the tokens of the line in source order, each with
/// its normalized lemma and the tokenizer's own separator classification.
#[verifier::external_body]
pub(crate) fn tokenize_line(line: &str) -> (r: Vec<Token>)
    ensures
        r.deep_view() == tokens_of(line@),
{
    line.tokenize().map(
        |t| Token { lemma: t.lemma().to_string(), separator: t.is_separator() },
    ).collect()
}

/// With both configuration lists empty, classification follows the
/// tokenizer's own separator flag alone: no token is removed, and a token is
/// a separator exactly when the tokenizer says so.
pub proof fn lemma_empty_config_classifies_by_tokenizer(lemma: Seq<char>, separator: bool)
    ensures
        spec_classify(lemma, separator, crate::config::empty_config_view()) == (if separator {
            Category::Separator
        } else {
            Category::Word
        }),
{
}

/// Exact membership test of a string among a list of strings, by character
/// content (case-sensitive, whitespace-sensitive).
pub fn contains_string(list: &Vec<String>, s: &String) -> (r: bool)
    ensures
        r == list.deep_view().contains(s@),
{
    let mut i: usize = 0;
    while i < list.len()
        invariant
            i <= list.len(),
            forall|j: int| 0 <= j < i ==> list.deep_view()[j] != s@,
        decreases list.len() - i,
    {
        if list[i] == *s {
            assert(list.deep_view()[i as int] == s@);
            return true;
        }
        i += 1;
    }
    false
}

} // verus!
