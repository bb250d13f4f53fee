//! The login page: escaping and the substitution of the configured session
//! command into the page template.
use vstd::prelude::*;

verus! {

/// The HTML form of one character.
pub open spec fn spec_escape_char(c: char) -> Seq<char> {
    if c == '&' {
        "&amp;"@
    } else if c == '<' {
        "&lt;"@
    } else if c == '>' {
        "&gt;"@
    } else if c == '"' {
        "&quot;"@
    } else if c == '\'' {
        "&#39;"@
    } else {
        seq![c]
    }
}

/// `s` with every character replaced by its HTML form.
pub open spec fn spec_html_escape(s: Seq<char>) -> Seq<char>
    decreases s.len(),
{
    if s.len() == 0 {
        Seq::empty()
    } else {
        spec_html_escape(s.drop_last()) + spec_escape_char(s.last())
    }
}

/// Escapes `&`, `<`, `>`, `"` and `'` so that `s` can stand inside HTML text
/// or a quoted attribute value.
pub fn html_escape(s: &str) -> (r: String)
    ensures
        r@ == spec_html_escape(s@),
{
    let n = s.unicode_len();
    let mut out = String::new();
    let mut i: usize = 0;
    while i < n
        invariant
            i <= n,
            n == s@.len(),
            out@ == spec_html_escape(s@.subrange(0, i as int)),
        decreases n - i,
    {
        let c = s.get_char(i);
        proof {
            let next = s@.subrange(0, i + 1);
            assert(next.drop_last() =~= s@.subrange(0, i as int));
            assert(next.last() == c);
        }
        if c == '&' {
            out.append("&amp;");
        } else if c == '<' {
            out.append("&lt;");
        } else if c == '>' {
            out.append("&gt;");
        } else if c == '"' {
            out.append("&quot;");
        } else if c == '\'' {
            out.append("&#39;");
        } else {
            let one = s.substring_char(i, i + 1);
            assert(one@ =~= seq![c]);
            out.append(one);
        }
        i = i + 1;
    }
    assert(s@.subrange(0, n as int) =~= s@);
    out
}

/// `s` with each occurrence of `from`, found from the left and not
/// overlapping the previous one, replaced by `to`.
pub open spec fn spec_replaced(s: Seq<char>, from: Seq<char>, to: Seq<char>) -> Seq<char>
    decreases s.len(),
{
    if from.len() == 0 || s.len() < from.len() {
        s
    } else if s.subrange(0, from.len() as int) == from {
        to + spec_replaced(s.subrange(from.len() as int, s.len() as int), from, to)
    } else {
        seq![s[0]] + spec_replaced(s.drop_first(), from, to)
    }
}

/// Relies on `str::replace`: every match of `from`, scanned from the left and
/// not overlapping the previous match, is replaced by `to`.
#[verifier::external_body]
fn replace_all(s: &str, from: &str, to: &str) -> (r: String)
    requires
        from@.len() > 0,
    ensures
        r@ == spec_replaced(s@, from@, to@),
{
    s.replace(from, to)
}

/// The page with the session command placeholder filled in: first where it
/// stands in quotes, then where it stands bare. The command is escaped.
pub open spec fn spec_render_page(template: Seq<char>, session_command: Seq<char>) -> Seq<char> {
    let esc = spec_html_escape(session_command);
    spec_replaced(
        spec_replaced(template, "\"%SESSION_COMMAND%\""@, "\""@ + esc + "\""@),
        "%SESSION_COMMAND%"@,
        esc,
    )
}

/// Fills the session command into the page template.
pub fn render_page(template: &str, session_command: &str) -> (r: String)
    ensures
        r@ == spec_render_page(template@, session_command@),
{
    let esc = html_escape(session_command);
    let mut quoted = String::from_str("\"");
    quoted.append(esc.as_str());
    quoted.append("\"");
    proof {
        reveal_strlit("\"%SESSION_COMMAND%\"");
        reveal_strlit("%SESSION_COMMAND%");
    }
    let first = replace_all(template, "\"%SESSION_COMMAND%\"", quoted.as_str());
    replace_all(first.as_str(), "%SESSION_COMMAND%", esc.as_str())
}

} // verus!
