use tokenviz::color::{color_code_string, random_pastel, Rgb};
use tokenviz::config::Config;
use tokenviz::document::{html_footer, html_header, render_document, render_section};
use tokenviz::escape::escape_html;
use tokenviz::render::{render_separator_span, render_tokens, render_word_span};
use tokenviz::tokens::Token;

#[test]
fn escape_leaves_plain_text_alone() {
    assert_eq!(escape_html("Hello, world!"), "Hello, world!");
    assert_eq!(escape_html(""), "");
}

#[test]
fn escape_replaces_every_sensitive_character() {
    assert_eq!(escape_html("a<b>c&d\"e"), "a&lt;b&gt;c&amp;d&quot;e");
    assert_eq!(escape_html("<<&&"), "&lt;&lt;&amp;&amp;");
}

#[test]
fn escaped_output_has_no_raw_angle_brackets() {
    let escaped = escape_html("<script>alert(\"x\")</script>");
    assert!(!escaped.contains('<'));
    assert!(!escaped.contains('>'));
    assert!(!escaped.contains('"'));
    assert_eq!(
        escaped,
        "&lt;script&gt;alert(&quot;x&quot;)&lt;/script&gt;"
    );
}

#[test]
fn color_codes_are_uppercase_hex() {
    assert_eq!(
        color_code_string(Rgb { red: 255, green: 180, blue: 200 }),
        "#FFB4C8"
    );
    assert_eq!(
        color_code_string(Rgb { red: 180, green: 180, blue: 180 }),
        "#B4B4B4"
    );
}

#[test]
fn sampled_colors_stay_in_the_pastel_range() {
    for _ in 0..100 {
        let c = random_pastel();
        assert!(c.red >= 180);
        assert!(c.green >= 180);
        assert!(c.blue >= 180);
    }
}

#[test]
fn separator_span_uses_the_fixed_scheme() {
    let span = render_separator_span(&",".to_string());
    assert_eq!(
        span,
        "<span style=\"background-color: blue; color: white; padding: 1px; margin: 5px;\">,</span>"
    );
}

#[test]
fn word_span_carries_the_given_color_and_escapes_the_lemma() {
    let span = render_word_span(&"a<b".to_string(), Rgb { red: 255, green: 180, blue: 200 });
    assert_eq!(
        span,
        "<span style=\"background-color: #FFB4C8; padding: 1px; margin: 5px;\">a&lt;b</span>"
    );
}

#[test]
fn extra_separator_renders_with_the_fixed_style_not_a_pastel() {
    let cfg = Config {
        extra_separators: vec!["foo".to_string()],
        removed_separators: vec![],
    };
    let tokens = vec![Token { lemma: "foo".to_string(), separator: false }];
    let out = render_tokens(&tokens, &cfg);
    assert_eq!(
        out,
        "<span style=\"background-color: blue; color: white; padding: 1px; margin: 5px;\">foo</span>"
    );
}

#[test]
fn removed_token_leaves_no_markup_and_shrinks_the_output() {
    let tokens = vec![
        Token { lemma: "hello".to_string(), separator: false },
        Token { lemma: ",".to_string(), separator: true },
    ];
    let removing = Config {
        extra_separators: vec![],
        removed_separators: vec![",".to_string()],
    };
    let keeping = Config::empty();
    let removed_out = render_tokens(&tokens, &removing);
    let kept_out = render_tokens(&tokens, &keeping);
    assert!(!removed_out.contains(",</span>"));
    assert!(!removed_out.contains("blue"));
    assert!(kept_out.contains(",</span>"));
    assert!(removed_out.len() < kept_out.len());
}

#[test]
fn empty_input_gives_the_bare_shell() {
    let out = render_document(&vec![], &Config::empty());
    assert_eq!(out, format!("{}{}", html_header(), html_footer()));
    assert_eq!(
        out,
        "<!DOCTYPE html>\n<html lang=\"en\">\n<head>\n<meta charset=\"UTF-8\">\n<meta name=\"viewport\" content=\"width=device-width, initial-scale=1.0\">\n<title>Token Visualization</title>\n</head>\n<body>\n</body>\n</html>\n"
    );
}

#[test]
fn hello_world_section_renders_five_spans_in_order() {
    let cfg = Config::empty();
    let tokens = vec![
        Token { lemma: "Hello".to_string(), separator: false },
        Token { lemma: ",".to_string(), separator: true },
        Token { lemma: " ".to_string(), separator: true },
        Token { lemma: "world".to_string(), separator: false },
        Token { lemma: "!".to_string(), separator: true },
    ];
    let out = render_section("Hello, world!", &tokens, &cfg);

    assert!(out.contains("<p><strong>Original:</strong><br> Hello, world!</p>\n"));

    let tokenized_label = "<p><strong>Tokenized:</strong><br> ";
    let tokenized_at = out.find(tokenized_label).unwrap();
    let tokenized = &out[tokenized_at + tokenized_label.len()..];

    assert_eq!(tokenized.matches("<span").count(), 5);

    let sep = "<span style=\"background-color: blue; color: white; padding: 1px; margin: 5px;\">";
    assert!(tokenized.contains(&format!("{},</span>", sep)));
    assert!(tokenized.contains(&format!("{} </span>", sep)));
    assert!(tokenized.contains(&format!("{}!</span>", sep)));

    assert_eq!(tokenized.matches("background-color: #").count(), 2);
    assert!(tokenized.contains("; padding: 1px; margin: 5px;\">Hello</span>"));
    assert!(tokenized.contains("; padding: 1px; margin: 5px;\">world</span>"));

    let hello_at = tokenized.find("Hello</span>").unwrap();
    let comma_at = tokenized.find(",</span>").unwrap();
    let space_at = tokenized.find("> </span>").unwrap();
    let world_at = tokenized.find("world</span>").unwrap();
    let bang_at = tokenized.find("!</span>").unwrap();
    assert!(hello_at < comma_at);
    assert!(comma_at < space_at);
    assert!(space_at < world_at);
    assert!(world_at < bang_at);
}

#[test]
fn sections_appear_once_per_line_in_order() {
    let cfg = Config::empty();
    let lines = vec!["alpha".to_string(), "beta".to_string()];
    let out = render_document(&lines, &cfg);
    assert_eq!(out.matches("<section").count(), 2);
    let alpha_at = out.find("Original:</strong><br> alpha</p>").unwrap();
    let beta_at = out.find("Original:</strong><br> beta</p>").unwrap();
    assert!(alpha_at < beta_at);
    assert!(out.starts_with("<!DOCTYPE html>\n"));
    assert!(out.ends_with("</body>\n</html>\n"));
}
