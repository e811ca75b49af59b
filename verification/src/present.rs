//! Presentation helpers: the one piece of message formatting with content of
//! its own, the inline link that closing messages embed.

use vstd::prelude::*;

use vstd::string::StringExecFns;

verus! {

/// An inline HTML link: the anchor markup around `url` and `text`, verbatim.
pub open spec fn link_html_spec(text: Seq<char>, url: Seq<char>) -> Seq<char> {
    "<a href=\""@ + url + "\">"@ + text + "</a>"@
}

/// Renders the inline link a closing message embeds, exactly
/// [`link_html_spec`]. The url is configuration, handed in by the caller:
/// nothing here reads ambient state.
pub fn link_html(text: &str, url: &str) -> (r: String)
    ensures
        r@ == link_html_spec(text@, url@),
{
    let mut out = String::new();
    out.append("<a href=\"");
    out.append(url);
    out.append("\">");
    out.append(text);
    out.append("</a>");
    proof {
        assert(out@ =~= link_html_spec(text@, url@));
    }
    out
}

} // verus!
