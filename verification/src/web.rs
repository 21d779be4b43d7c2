//! The renderer for web markup.
//!
//! Without colouring, the code is escaped and set in one preformatted block
//! whose class names the language hint as it was given. With colouring, the
//! colourizer's markup, which is escaped already, is set in one preformatted
//! block.

use vstd::prelude::*;
use vstd::string::*;
use crate::escape::{escape_html, html_decoded, html_escaped, lemma_html_round_trip};

verus! {

/// A code text as one preformatted block without colours.
pub open spec fn plain_block(language: Seq<char>, code: Seq<char>) -> Seq<char> {
    "<pre><code class = \"language-"@ + language + "\">"@ + html_escaped(code) + "</code></pre>"@
}

/// The colourizer's markup as one preformatted block.
pub open spec fn colored_block(markup: Seq<char>) -> Seq<char> {
    "<pre>"@ + markup + "</pre>"@
}

/// Renders a code text as one preformatted block without colours.
pub fn plain_web_block(code: &str, language: &str) -> (r: String)
    ensures
        r@ == plain_block(language@, code@),
{
    let escaped = escape_html(code);
    let mut out = String::from_str("<pre><code class = \"language-");
    out.append(language);
    out.append("\">");
    out.append(escaped.as_str());
    out.append("</code></pre>");
    out
}

/// Sets the colourizer's markup in one preformatted block.
pub fn colored_web_block(markup: &str) -> (r: String)
    ensures
        r@ == colored_block(markup@),
{
    let mut out = String::from_str("<pre>");
    out.append(markup);
    out.append("</pre>");
    out
}

/// The block without colours holds the code between its opening and its
/// closing, and a reader of the markup gets the code back from there.
pub proof fn lemma_plain_block_holds_code(language: Seq<char>, code: Seq<char>)
    ensures
        ({
            let open = "<pre><code class = \"language-"@ + language + "\">"@;
            let block = plain_block(language, code);
            let close = "</code></pre>"@;
            &&& block.len() == open.len() + html_escaped(code).len() + close.len()
            &&& html_decoded(block.subrange(open.len() as int, block.len() - close.len())) == code
        }),
{
    let open = "<pre><code class = \"language-"@ + language + "\">"@;
    let block = plain_block(language, code);
    let close = "</code></pre>"@;
    lemma_html_round_trip(code);
    assert(block.subrange(open.len() as int, block.len() - close.len()) =~= html_escaped(code));
}

} // verus!
