//! HTML entity escaping of rendered text, so that input containing markup
//! characters cannot produce malformed output.

use vstd::prelude::*;
use vstd::string::StrSliceExecFns;

verus! {

/// The escaped form of one character: `&`, `<`, `>` and `"` become entities,
/// every other character stands as itself.
pub open spec fn escape_char(c: char) -> Seq<char> {
    if c == '&' {
        seq!['&', 'a', 'm', 'p', ';']
    } else if c == '<' {
        seq!['&', 'l', 't', ';']
    } else if c == '>' {
        seq!['&', 'g', 't', ';']
    } else if c == '"' {
        seq!['&', 'q', 'u', 'o', 't', ';']
    } else {
        seq![c]
    }
}

/// The escaped form of a text: each character escaped, in order.
pub open spec fn escape_text(s: Seq<char>) -> Seq<char>
    decreases s.len(),
{
    if s.len() == 0 {
        Seq::empty()
    } else {
        escape_text(s.drop_last()) + escape_char(s.last())
    }
}

/// Relies on String::push: appends the one character at the end.
#[verifier::external_body]
pub(crate) fn push_char(s: &mut String, c: char)
    ensures
        final(s)@ == old(s)@.push(c),
{
    s.push(c);
}

/// Escape a text for insertion into HTML.
pub fn escape_html(s: &str) -> (r: String)
    ensures
        r@ == escape_text(s@),
{
    let n: usize = s.unicode_len();
    let mut out = String::new();
    let mut i: usize = 0;
    while i < n
        invariant
            i <= n,
            n == s@.len(),
            out@ == escape_text(s@.take(i as int)),
        decreases n - i,
    {
        let c = s.get_char(i);
        if c == '&' {
            out.append("&amp;");
            proof {
                reveal_strlit("&amp;");
                assert("&amp;"@ =~= escape_char(c));
            }
        } else if c == '<' {
            out.append("&lt;");
            proof {
                reveal_strlit("&lt;");
                assert("&lt;"@ =~= escape_char(c));
            }
        } else if c == '>' {
            out.append("&gt;");
            proof {
                reveal_strlit("&gt;");
                assert("&gt;"@ =~= escape_char(c));
            }
        } else if c == '"' {
            out.append("&quot;");
            proof {
                reveal_strlit("&quot;");
                assert("&quot;"@ =~= escape_char(c));
            }
        } else {
            push_char(&mut out, c);
            proof {
                assert(escape_text(s@.take(i as int)).push(c) =~= escape_text(s@.take(i as int))
                    + escape_char(c));
            }
        }
        proof {
            assert(s@.take(i + 1 as int).drop_last() =~= s@.take(i as int));
            assert(s@.take(i + 1 as int).last() == s@[i as int]);
        }
        i += 1;
    }
    proof {
        assert(s@.take(n as int) =~= s@);
    }
    out
}

/// Escaped text holds no raw `<`, `>` or `"`: those characters of the input
/// only ever appear as entities, so no escaped text can open or close markup.
pub proof fn lemma_escape_no_raw_markup(s: Seq<char>)
    ensures
        forall|i: int|
            0 <= i < escape_text(s).len() ==> (escape_text(s)[i] != '<' && escape_text(s)[i]
                != '>' && escape_text(s)[i] != '"'),
    decreases s.len(),
{
    if s.len() == 0 {
    } else {
        lemma_escape_no_raw_markup(s.drop_last());
        assert forall|i: int| 0 <= i < escape_text(s).len() implies (escape_text(s)[i] != '<'
            && escape_text(s)[i] != '>' && escape_text(s)[i] != '"') by {
            let front = escape_text(s.drop_last());
            if i < front.len() {
                assert(escape_text(s)[i] == front[i]);
            } else {
                assert(escape_text(s)[i] == escape_char(s.last())[i - front.len()]);
            }
        }
    }
}

} // verus!
