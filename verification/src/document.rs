//! The report document: a fixed HTML shell around one section per input
//! line, each section echoing the escaped original line and the rendered
//! tokens.

use vstd::prelude::*;
use vstd::string::StringExecFns;

use crate::color::Rgb;
use crate::config::Config;
use crate::config::ConfigView;
use crate::escape::escape_html;
use crate::escape::escape_text;
use crate::render::render_tokens;
use crate::render::rendered_tokens;
use crate::render::wf_colors;
use crate::tokens::Token;
use crate::tokens::tokenize_line;
use crate::tokens::tokens_of;

verus! {

/// The document shell above the sections.
pub open spec fn header_text() -> Seq<char> {
    "<!DOCTYPE html>\n<html lang=\"en\">\n<head>\n<meta charset=\"UTF-8\">\n<meta name=\"viewport\" content=\"width=device-width, initial-scale=1.0\">\n<title>Token Visualization</title>\n</head>\n<body>\n"@
}

/// The document shell below the sections.
pub open spec fn footer_text() -> Seq<char> {
    "</body>\n</html>\n"@
}

/// The opening of one line's bordered section.
pub open spec fn section_open_text() -> Seq<char> {
    "<section style=\"border: 1px solid; margin-bottom: 10px; padding: 10px;\">\n"@
}

/// The label in front of the escaped original line.
pub open spec fn original_open_text() -> Seq<char> {
    "<p><strong>Original:</strong><br> "@
}

/// The label in front of the rendered tokens.
pub open spec fn tokenized_open_text() -> Seq<char> {
    "<p><strong>Tokenized:</strong><br> "@
}

/// The closing of either paragraph.
pub open spec fn para_close_text() -> Seq<char> {
    "</p>\n"@
}

/// The closing of one line's section.
pub open spec fn section_close_text() -> Seq<char> {
    "</section>\n"@
}

/// One line's section: the escaped original line, then the tokens' spans.
pub open spec fn section_html(
    line: Seq<char>,
    toks: Seq<(Seq<char>, bool)>,
    cfg: ConfigView,
    colors: Seq<Rgb>,
) -> Seq<char> {
    section_open_text() + original_open_text() + escape_text(line) + para_close_text()
        + tokenized_open_text() + rendered_tokens(toks, cfg, colors) + para_close_text()
        + section_close_text()
}

/// Every section in input order, the tokens of each line as the tokenizer
/// yields them, one color sequence per line.
pub open spec fn body_sections(
    lines: Seq<Seq<char>>,
    cfg: ConfigView,
    colorss: Seq<Seq<Rgb>>,
) -> Seq<char>
    decreases lines.len(),
{
    if lines.len() == 0 {
        Seq::empty()
    } else {
        body_sections(lines.drop_last(), cfg, colorss.drop_last()) + section_html(
            lines.last(),
            tokens_of(lines.last()),
            cfg,
            colorss.last(),
        )
    }
}

/// One well-formed color sequence per line.
pub open spec fn wf_colorss(lines: Seq<Seq<char>>, colorss: Seq<Seq<Rgb>>) -> bool {
    &&& colorss.len() == lines.len()
    &&& forall|i: int| 0 <= i < lines.len() ==> wf_colors(tokens_of(lines[i]), colorss[i])
}

/// The whole report for the given input lines.
pub open spec fn document_html(
    lines: Seq<Seq<char>>,
    cfg: ConfigView,
    colorss: Seq<Seq<Rgb>>,
) -> Seq<char> {
    header_text() + body_sections(lines, cfg, colorss) + footer_text()
}

/// The shell above the sections.
pub fn html_header() -> (r: String)
    ensures
        r@ == header_text(),
{
    String::from_str(
        "<!DOCTYPE html>\n<html lang=\"en\">\n<head>\n<meta charset=\"UTF-8\">\n<meta name=\"viewport\" content=\"width=device-width, initial-scale=1.0\">\n<title>Token Visualization</title>\n</head>\n<body>\n",
    )
}

/// The shell below the sections.
pub fn html_footer() -> (r: String)
    ensures
        r@ == footer_text(),
{
    String::from_str("</body>\n</html>\n")
}

/// Render one line's section from already-tokenized input.
pub fn render_section(line: &str, tokens: &Vec<Token>, cfg: &Config) -> (r: String)
    ensures
        exists|colors: Seq<Rgb>|
            wf_colors(tokens.deep_view(), colors) && r@ == section_html(
                line@,
                tokens.deep_view(),
                cfg@,
                colors,
            ),
{
    let mut out = String::from_str(
        "<section style=\"border: 1px solid; margin-bottom: 10px; padding: 10px;\">\n",
    );
    out.append("<p><strong>Original:</strong><br> ");
    let escaped = escape_html(line);
    out.append(escaped.as_str());
    out.append("</p>\n");
    out.append("<p><strong>Tokenized:</strong><br> ");
    let spans = render_tokens(tokens, cfg);
    out.append(spans.as_str());
    out.append("</p>\n");
    out.append("</section>\n");
    proof {
        let colors = choose|colors: Seq<Rgb>|
            wf_colors(tokens.deep_view(), colors) && spans@ == rendered_tokens(
                tokens.deep_view(),
                cfg@,
                colors,
            );
        assert(out@ =~= section_html(line@, tokens.deep_view(), cfg@, colors));
    }
    out
}

/// Tokenize one line and render its section.
pub fn render_line(line: &str, cfg: &Config) -> (r: String)
    ensures
        exists|colors: Seq<Rgb>|
            wf_colors(tokens_of(line@), colors) && r@ == section_html(
                line@,
                tokens_of(line@),
                cfg@,
                colors,
            ),
{
    let tokens = tokenize_line(line);
    render_section(line, &tokens, cfg)
}

/// Render the whole report for the given input lines.
pub fn render_document(lines: &Vec<String>, cfg: &Config) -> (r: String)
    ensures
        exists|colorss: Seq<Seq<Rgb>>|
            wf_colorss(lines.deep_view(), colorss) && r@ == document_html(
                lines.deep_view(),
                cfg@,
                colorss,
            ),
{
    let mut out = html_header();
    let ghost mut colorss: Seq<Seq<Rgb>> = Seq::empty();
    let mut i: usize = 0;
    while i < lines.len()
        invariant
            i <= lines.len(),
            wf_colorss(lines.deep_view().take(i as int), colorss),
            out@ == header_text() + body_sections(lines.deep_view().take(i as int), cfg@, colorss),
        decreases lines.len() - i,
    {
        let section = render_line(lines[i].as_str(), cfg);
        out.append(section.as_str());
        proof {
            let lns = lines.deep_view();
            let colors = choose|colors: Seq<Rgb>|
                wf_colors(tokens_of(lns[i as int]), colors) && section@ == section_html(
                    lns[i as int],
                    tokens_of(lns[i as int]),
                    cfg@,
                    colors,
                );
            let prev = colorss;
            colorss = colorss.push(colors);
            assert(colorss.drop_last() =~= prev);
            assert(lns.take(i as int + 1).drop_last() =~= lns.take(i as int));
            assert(lns.take(i as int + 1).last() == lns[i as int]);
            assert(out@ =~= header_text() + body_sections(lns.take(i as int + 1), cfg@, colorss));
        }
        i += 1;
    }
    proof {
        assert(lines.deep_view().take(lines.len() as int) =~= lines.deep_view());
    }
    out.append("</body>\n</html>\n");
    out
}

/// An empty input produces the bare document shell: a report with no
/// sections at all.
pub proof fn lemma_empty_document(cfg: ConfigView)
    ensures
        document_html(Seq::empty(), cfg, Seq::empty()) == header_text() + footer_text(),
{
    assert(document_html(Seq::empty(), cfg, Seq::empty()) =~= header_text() + footer_text());
}

} // verus!
