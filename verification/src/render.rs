//! Rendering of classified tokens as HTML fragments: a fixed blue span for
//! separators, a freshly sampled pastel span for words, nothing at all for
//! removed tokens.

use vstd::prelude::*;
use vstd::string::StringExecFns;

use crate::color::Rgb;
use crate::color::color_code;
use crate::color::color_code_string;
use crate::color::is_pastel;
use crate::color::random_pastel;
use crate::config::Config;
use crate::config::ConfigView;
use crate::escape::escape_html;
use crate::escape::escape_text;
use crate::tokens::Category;
use crate::tokens::Token;
use crate::tokens::classify;
use crate::tokens::spec_classify;

verus! {

/// The opening of a separator span, with its fixed color scheme.
pub open spec fn sep_open_text() -> Seq<char> {
    "<span style=\"background-color: blue; color: white; padding: 1px; margin: 5px;\">"@
}

/// The opening of a word span, up to where the color code stands.
pub open spec fn word_open_text() -> Seq<char> {
    "<span style=\"background-color: "@
}

/// The rest of a word span's opening, after the color code.
pub open spec fn word_mid_text() -> Seq<char> {
    "; padding: 1px; margin: 5px;\">"@
}

/// The closing of either span.
pub open spec fn span_close_text() -> Seq<char> {
    "</span>"@
}

/// The fragment of a separator token: the fixed-style span around the
/// escaped lemma.
pub open spec fn separator_span(lemma: Seq<char>) -> Seq<char> {
    sep_open_text() + escape_text(lemma) + span_close_text()
}

/// The fragment of a word token: a span whose background is the given
/// color's code, around the escaped lemma.
pub open spec fn word_span(lemma: Seq<char>, color: Rgb) -> Seq<char> {
    word_open_text() + color_code(color) + word_mid_text() + escape_text(lemma) + span_close_text()
}

/// What one token contributes to the report, given the color that would
/// dress it as a word: nothing when removed, the fixed-style span when a
/// separator, the colored span when a word.
pub open spec fn token_fragment(
    lemma: Seq<char>,
    separator: bool,
    cfg: ConfigView,
    color: Rgb,
) -> Seq<char> {
    match spec_classify(lemma, separator, cfg) {
        Category::Removed => Seq::empty(),
        Category::Separator => separator_span(lemma),
        Category::Word => word_span(lemma, color),
    }
}

/// The concatenation of every token's fragment, in source order, one color
/// per token position.
pub open spec fn rendered_tokens(
    toks: Seq<(Seq<char>, bool)>,
    cfg: ConfigView,
    colors: Seq<Rgb>,
) -> Seq<char>
    decreases toks.len(),
{
    if toks.len() == 0 {
        Seq::empty()
    } else {
        rendered_tokens(toks.drop_last(), cfg, colors.drop_last()) + token_fragment(
            toks.last().0,
            toks.last().1,
            cfg,
            colors.last(),
        )
    }
}

/// One sampled color per token, every one pastel.
pub open spec fn wf_colors(toks: Seq<(Seq<char>, bool)>, colors: Seq<Rgb>) -> bool {
    &&& colors.len() == toks.len()
    &&& forall|i: int| 0 <= i < colors.len() ==> is_pastel(colors[i])
}

/// Render one separator token.
pub fn render_separator_span(lemma: &String) -> (r: String)
    ensures
        r@ == separator_span(lemma@),
{
    let mut out = String::from_str(
        "<span style=\"background-color: blue; color: white; padding: 1px; margin: 5px;\">",
    );
    let escaped = escape_html(lemma.as_str());
    out.append(escaped.as_str());
    out.append("</span>");
    proof {
        assert(out@ =~= separator_span(lemma@));
    }
    out
}

/// Render one word token with the given background color.
pub fn render_word_span(lemma: &String, color: Rgb) -> (r: String)
    ensures
        r@ == word_span(lemma@, color),
{
    let mut out = String::from_str("<span style=\"background-color: ");
    let code = color_code_string(color);
    out.append(code.as_str());
    out.append("; padding: 1px; margin: 5px;\">");
    let escaped = escape_html(lemma.as_str());
    out.append(escaped.as_str());
    out.append("</span>");
    proof {
        assert(out@ =~= word_span(lemma@, color));
    }
    out
}

/// Render a line's tokens in source order: removed tokens contribute
/// nothing, separators the fixed style, words a freshly sampled pastel
/// color each.
pub fn render_tokens(tokens: &Vec<Token>, cfg: &Config) -> (r: String)
    ensures
        exists|colors: Seq<Rgb>|
            wf_colors(tokens.deep_view(), colors) && r@ == rendered_tokens(
                tokens.deep_view(),
                cfg@,
                colors,
            ),
{
    let mut out = String::new();
    let ghost mut colors: Seq<Rgb> = Seq::empty();
    let mut i: usize = 0;
    while i < tokens.len()
        invariant
            i <= tokens.len(),
            wf_colors(tokens.deep_view().take(i as int), colors),
            out@ == rendered_tokens(tokens.deep_view().take(i as int), cfg@, colors),
        decreases tokens.len() - i,
    {
        let token = &tokens[i];
        let ghost mut used: Rgb = Rgb { red: 180, green: 180, blue: 180 };
        match classify(token, cfg) {
            Category::Removed => {},
            Category::Separator => {
                let fragment = render_separator_span(&token.lemma);
                out.append(fragment.as_str());
            },
            Category::Word => {
                let color = random_pastel();
                let fragment = render_word_span(&token.lemma, color);
                out.append(fragment.as_str());
                proof {
                    used = color;
                }
            },
        }
        proof {
            let prev = colors;
            colors = colors.push(used);
            let toks = tokens.deep_view();
            assert(colors.drop_last() =~= prev);
            assert(toks.take(i as int + 1).drop_last() =~= toks.take(i as int));
            assert(toks.take(i as int + 1).last() == toks[i as int]);
            assert(toks[i as int] == token.deep_view());
            if spec_classify(token.lemma@, token.separator, cfg@) is Removed {
                assert(out@ + Seq::<char>::empty() =~= out@);
            }
        }
        i += 1;
    }
    proof {
        assert(tokens.deep_view().take(tokens.len() as int) =~= tokens.deep_view());
    }
    out
}

/// A token whose lemma is listed among the extra separators and not among
/// the removed ones is rendered with the fixed separator style even where
/// the tokenizer itself saw no separator, whatever color was sampled.
pub proof fn lemma_extra_separator_uses_fixed_style(lemma: Seq<char>, cfg: ConfigView, color: Rgb)
    requires
        cfg.extra.contains(lemma),
        !cfg.removed.contains(lemma),
    ensures
        token_fragment(lemma, false, cfg, color) == separator_span(lemma),
{
}

/// A token whose lemma is listed among the removed separators contributes
/// no markup at all: the rendering equals that of the token sequence with
/// the token left out.
pub proof fn lemma_removed_token_adds_no_markup(
    toks: Seq<(Seq<char>, bool)>,
    cfg: ConfigView,
    colors: Seq<Rgb>,
    i: int,
)
    requires
        0 <= i < toks.len(),
        colors.len() == toks.len(),
        cfg.removed.contains(toks[i].0),
    ensures
        rendered_tokens(toks, cfg, colors) == rendered_tokens(
            toks.remove(i),
            cfg,
            colors.remove(i),
        ),
    decreases toks.len(),
{
    if i == toks.len() - 1 {
        assert(spec_classify(toks[i].0, toks[i].1, cfg) is Removed);
        assert(toks.remove(i) =~= toks.drop_last());
        assert(colors.remove(i) =~= colors.drop_last());
        assert(rendered_tokens(toks.drop_last(), cfg, colors.drop_last()) + Seq::<char>::empty()
            =~= rendered_tokens(toks.drop_last(), cfg, colors.drop_last()));
    } else {
        lemma_removed_token_adds_no_markup(toks.drop_last(), cfg, colors.drop_last(), i);
        assert(toks.remove(i).drop_last() =~= toks.drop_last().remove(i));
        assert(colors.remove(i).drop_last() =~= colors.drop_last().remove(i));
        assert(toks.remove(i).last() == toks.last());
        assert(colors.remove(i).last() == colors.last());
    }
}

/// A token's fragment length does not depend on the sampled color: a color
/// code is always seven characters.
pub proof fn lemma_fragment_len_color_independent(
    lemma: Seq<char>,
    separator: bool,
    cfg: ConfigView,
    c1: Rgb,
    c2: Rgb,
)
    ensures
        token_fragment(lemma, separator, cfg, c1).len() == token_fragment(
            lemma,
            separator,
            cfg,
            c2,
        ).len(),
{
    crate::color::lemma_color_code_len(c1);
    crate::color::lemma_color_code_len(c2);
}

/// Every rendered token contributes at least its closing tag: only removed
/// tokens contribute nothing.
pub proof fn lemma_fragment_nonempty(lemma: Seq<char>, separator: bool, cfg: ConfigView, c: Rgb)
    requires
        !(spec_classify(lemma, separator, cfg) is Removed),
    ensures
        token_fragment(lemma, separator, cfg, c).len() > 0,
{
    reveal_strlit("</span>");
    assert(span_close_text().len() == 7);
}

proof fn lemma_removal_shrinks_aux(
    toks: Seq<(Seq<char>, bool)>,
    removing: ConfigView,
    keeping: ConfigView,
    lemma: Seq<char>,
    colors1: Seq<Rgb>,
    colors2: Seq<Rgb>,
)
    requires
        removing.extra == keeping.extra,
        forall|l: Seq<char>|
            removing.removed.contains(l) <==> (keeping.removed.contains(l) || l == lemma),
        !keeping.removed.contains(lemma),
        colors1.len() == toks.len(),
        colors2.len() == toks.len(),
    ensures
        rendered_tokens(toks, removing, colors1).len() <= rendered_tokens(
            toks,
            keeping,
            colors2,
        ).len(),
        (exists|i: int| 0 <= i < toks.len() && toks[i].0 == lemma) ==> rendered_tokens(
            toks,
            removing,
            colors1,
        ).len() < rendered_tokens(toks, keeping, colors2).len(),
    decreases toks.len(),
{
    if toks.len() == 0 {
    } else {
        lemma_removal_shrinks_aux(
            toks.drop_last(),
            removing,
            keeping,
            lemma,
            colors1.drop_last(),
            colors2.drop_last(),
        );
        let last = toks.last();
        if last.0 == lemma {
            assert(removing.removed.contains(last.0));
            assert(spec_classify(last.0, last.1, removing) is Removed);
            assert(!(spec_classify(last.0, last.1, keeping) is Removed));
            lemma_fragment_nonempty(last.0, last.1, keeping, colors2.last());
        } else {
            assert(removing.removed.contains(last.0) <==> keeping.removed.contains(last.0));
            assert(spec_classify(last.0, last.1, removing) == spec_classify(
                last.0,
                last.1,
                keeping,
            ));
            lemma_fragment_len_color_independent(
                last.0,
                last.1,
                removing,
                colors1.last(),
                colors2.last(),
            );
        }
        if exists|i: int| 0 <= i < toks.len() && toks[i].0 == lemma {
            let i = choose|i: int| 0 <= i < toks.len() && toks[i].0 == lemma;
            if i < toks.len() - 1 {
                assert(toks.drop_last()[i] == toks[i]);
                assert(exists|j: int|
                    0 <= j < toks.drop_last().len() && toks.drop_last()[j].0 == lemma);
            }
        }
    }
}

/// Listing a lemma among the removed separators strictly shrinks the
/// rendering of any token sequence in which the lemma occurs: tokens with
/// other lemmas render exactly as long as before, and each occurrence of
/// the lemma contributes nothing instead of a nonempty span.
pub proof fn lemma_removal_strictly_shrinks(
    toks: Seq<(Seq<char>, bool)>,
    removing: ConfigView,
    keeping: ConfigView,
    lemma: Seq<char>,
    colors1: Seq<Rgb>,
    colors2: Seq<Rgb>,
)
    requires
        removing.extra == keeping.extra,
        forall|l: Seq<char>|
            removing.removed.contains(l) <==> (keeping.removed.contains(l) || l == lemma),
        !keeping.removed.contains(lemma),
        colors1.len() == toks.len(),
        colors2.len() == toks.len(),
        exists|i: int| 0 <= i < toks.len() && toks[i].0 == lemma,
    ensures
        rendered_tokens(toks, removing, colors1).len() < rendered_tokens(
            toks,
            keeping,
            colors2,
        ).len(),
{
    lemma_removal_shrinks_aux(toks, removing, keeping, lemma, colors1, colors2);
}

} // verus!
