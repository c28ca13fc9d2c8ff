//! Parsing of a visualization reply: the HTML page it holds and the
//! explanation around it.

use vstd::prelude::*;
use crate::text::{
    chars_of, escape_html, escape_html_exec, find, find_from, find_from_exec, occurs_at, replace_all,
    lemma_found_in_bounds, replace_all_exec, trim, trimmed_slice,
};

verus! {

broadcast use vstd::string::group_string_axioms;

/// The confidence given to every visualization, in hundredths.
pub const VISUALIZATION_CONFIDENCE_PERCENT: u8 = 80;

pub const WRAP_HEAD: &'static str = "<!DOCTYPE html>\n<html>\n<head>\n<title>Visualization</title>\n<script src=\"https://cdn.plot.ly/plotly-latest.min.js\"></script>\n</head>\n<body>\n<div id=\"plot\"></div>\n";

pub const WRAP_TAIL: &'static str = "\n</body>\n</html>";

pub const ERROR_HEAD: &'static str = "<!DOCTYPE html>\n<html>\n<head>\n<title>Visualization Error</title>\n</head>\n<body>\n<h1>Could not generate visualization</h1>\n<pre>";

pub const ERROR_TAIL: &'static str = "</pre>\n</body>\n</html>";

pub const UNPARSED_EXPLANATION: &'static str = "Could not parse LLM response into valid HTML visualization.";

pub const DEFAULT_EXPLANATION: &'static str = "Visualization generated from the provided data.";

/// The page and explanation found by the first rule that applies: an
/// ```` ```html ```` block, else a page starting at `<!DOCTYPE html>` or
/// `<html>`.
pub open spec fn page_or_block(s: Seq<char>) -> (Seq<char>, Seq<char>) {
    match find(s, "```html"@) {
        Some(a) => match find_from(s, "```"@, a + 6) {
            Some(b) => (
                trim(s.subrange(a + 7, b)),
                if b + 3 < s.len() {
                    trim(s.subrange(b + 3, s.len() as int))
                } else {
                    Seq::empty()
                },
            ),
            None => (Seq::empty(), Seq::empty()),
        },
        None => match find(s, "<!DOCTYPE html>"@) {
            Some(i) => page_from(s, i),
            None => match find(s, "<html>"@) {
                Some(i) => page_from(s, i),
                None => (Seq::empty(), Seq::empty()),
            },
        },
    }
}

/// The page from `i` to the end, and what comes before it as explanation.
pub open spec fn page_from(s: Seq<char>, i: int) -> (Seq<char>, Seq<char>) {
    (
        trim(s.subrange(i, s.len() as int)),
        if i > 0 {
            trim(s.subrange(0, i))
        } else {
            Seq::empty()
        },
    )
}

/// With no page found: the first `<script>` element wrapped in a page, and
/// the rest of the reply as explanation.
pub open spec fn script_page(s: Seq<char>, found: (Seq<char>, Seq<char>)) -> (Seq<char>, Seq<char>) {
    if found.0.len() > 0 {
        found
    } else {
        match find(s, "<script>"@) {
            Some(a) => match find_from(s, "</script>"@, a) {
                Some(c) => {
                    let script = s.subrange(a, c + 9);
                    (
                        WRAP_HEAD@ + script + WRAP_TAIL@,
                        trim(replace_all(s, script, Seq::empty())),
                    )
                },
                None => found,
            },
            None => found,
        }
    }
}

/// The page and explanation of a visualization reply.
pub open spec fn visualization_spec(s: Seq<char>) -> (Seq<char>, Seq<char>) {
    let found = script_page(s, page_or_block(s));
    let (page, explanation) = if found.0.len() > 0 {
        found
    } else {
        (ERROR_HEAD@ + escape_html(s) + ERROR_TAIL@, UNPARSED_EXPLANATION@)
    };
    (page, if explanation.len() > 0 { explanation } else { DEFAULT_EXPLANATION@ })
}

fn page_from_exec(src: &str, s: &Vec<char>, i: usize) -> (r: (String, String))
    requires
        s@ == src@,
        i <= s@.len(),
    ensures
        (r.0@, r.1@) == page_from(s@, i as int),
{
    let page = trimmed_slice(src, s, i, s.len());
    let explanation = if i > 0 {
        trimmed_slice(src, s, 0, i)
    } else {
        String::new()
    };
    (page, explanation)
}

fn page_or_block_exec(src: &str, s: &Vec<char>) -> (r: (String, String))
    requires
        s@ == src@,
    ensures
        (r.0@, r.1@) == page_or_block(s@),
{
    proof {
        reveal_strlit("```html");
        reveal_strlit("```");
        reveal_strlit("<!DOCTYPE html>");
        reveal_strlit("<html>");
    }
    let open_m = chars_of("```html");
    let fence = chars_of("```");
    match find_from_exec(s, &open_m, 0) {
        Some(a) => {
            proof {
                lemma_found_in_bounds(s@, open_m@, 0);
                assert(occurs_at(s@, open_m@, a as int));
                assert(open_m@.len() == 7 && s@.len() == s.len());
            }
            match find_from_exec(s, &fence, a + 6) {
                Some(b) => {
                    proof {
                        lemma_found_in_bounds(s@, fence@, a + 6);
                        assert(occurs_at(s@, fence@, b as int));
                        assert(fence@.len() == 3);
                        assert(s@.subrange(a as int, a + 7)[6] == s@[a + 6]);
                        assert(s@[a + 6] == 'l');
                        assert(s@.subrange(b as int, b + 3)[0] == s@[b as int]);
                        assert(s@[b as int] == '`');
                        assert(a + 7 <= b);
                    }
                    let page = trimmed_slice(src, s, a + 7, b);
                    let explanation = if b + 3 < s.len() {
                        trimmed_slice(src, s, b + 3, s.len())
                    } else {
                        String::new()
                    };
                    (page, explanation)
                },
                None => (String::new(), String::new()),
            }
        },
        None => {
            let doctype = chars_of("<!DOCTYPE html>");
            match find_from_exec(s, &doctype, 0) {
                Some(i) => {
                    proof {
                        lemma_found_in_bounds(s@, doctype@, 0);
                    }
                    page_from_exec(src, s, i)
                },
                None => {
                    let tag = chars_of("<html>");
                    match find_from_exec(s, &tag, 0) {
                        Some(i) => {
                            proof {
                                lemma_found_in_bounds(s@, tag@, 0);
                            }
                            page_from_exec(src, s, i)
                        },
                        None => (String::new(), String::new()),
                    }
                },
            }
        },
    }
}

fn script_page_exec(src: &str, s: &Vec<char>, found: (String, String)) -> (r: (String, String))
    requires
        s@ == src@,
    ensures
        (r.0@, r.1@) == script_page(s@, (found.0@, found.1@)),
{
    proof {
        reveal_strlit("<script>");
        reveal_strlit("</script>");
    }
    if found.0.unicode_len() > 0 {
        return found;
    }
    let open_tag = chars_of("<script>");
    let close_tag = chars_of("</script>");
    match find_from_exec(s, &open_tag, 0) {
        Some(a) => {
            proof {
                lemma_found_in_bounds(s@, open_tag@, 0);
            }
            match find_from_exec(s, &close_tag, a) {
                Some(c) => {
                    proof {
                        lemma_found_in_bounds(s@, close_tag@, a as int);
                        assert(occurs_at(s@, close_tag@, c as int));
                        assert(close_tag@.len() == 9 && s@.len() == s.len());
                    }
                    let script = src.substring_char(a, c + 9);
                    let mut page = String::from_str(WRAP_HEAD);
                    page.append(script);
                    page.append(WRAP_TAIL);
                    let script_chars = chars_of(script);
                    let rest = replace_all_exec(src, &script_chars, "");
                    proof {
                        reveal_strlit("");
                    }
                    let rest_chars = chars_of(rest.as_str());
                    let explanation = trimmed_slice(rest.as_str(), &rest_chars, 0, rest_chars.len());
                    proof {
                        assert(rest_chars@.subrange(0, rest_chars@.len() as int) =~= rest_chars@);
                        assert(script@ == s@.subrange(a as int, c + 9));
                        assert(""@ =~= Seq::<char>::empty());
                        assert(page@ == WRAP_HEAD@ + script@ + WRAP_TAIL@);
                    }
                    (page, explanation)
                },
                None => found,
            }
        },
        None => found,
    }
}

/// Splits a visualization reply into an HTML page and an explanation: an
/// ```` ```html ```` block and the text after it; else a page from
/// `<!DOCTYPE html>` or `<html>` to the end and the text before it; else the
/// first `<script>` element wrapped in a page and the rest of the reply; else
/// an error page that shows the reply escaped. An empty explanation is
/// replaced by a default one.
pub fn parse_visualization_response(response: &str) -> (r: (String, String))
    ensures
        (r.0@, r.1@) == visualization_spec(response@),
{
    let s = chars_of(response);
    let found = page_or_block_exec(response, &s);
    let found = script_page_exec(response, &s, found);
    let (page, explanation) = if found.0.unicode_len() > 0 {
        found
    } else {
        let mut page = String::from_str(ERROR_HEAD);
        let escaped = escape_html_exec(response);
        page.append(escaped.as_str());
        page.append(ERROR_TAIL);
        (page, String::from_str(UNPARSED_EXPLANATION))
    };
    if explanation.unicode_len() > 0 {
        (page, explanation)
    } else {
        (page, String::from_str(DEFAULT_EXPLANATION))
    }
}

/// The instruction given to the completion service for a visualization.
pub const VISUALIZATION_SYSTEM_PROMPT: &'static str = "You are a data visualization expert. Your task is to create a Plotly.js visualization based on the provided data and query. You must return a complete, valid HTML file that uses Plotly.js to visualize the data.STYLING GUIDELINES:- Use Plotly.js to create the chart- Use 14px font for axis labels, 18px for titles- Use consistent margins and padding- Use a neobrutalist style- Include axis titles with units (if known)- Rotate x-axis labels if they are dates or long strings- Use tight layout with `autosize: true` and `responsive: true`- Enable zoom and pan interactivity- Enable tooltips on hover showing exact values and labels- Use hovermode: 'closest'OUTPUT FORMAT:Your response should be a complete HTML file that can be directly viewed in a browser.Return valid HTML that includes the Plotly.js library from a CDN and creates the visualization.Also include a brief explanation of the visualization choices you made.";

/// The user message of a visualization request: the question and the
/// rendered results.
pub open spec fn visualization_prompt_text(query: Seq<char>, results: Seq<char>) -> Seq<char> {
    "Natural Language Query: "@ + query + "\n\nData Results:\n"@ + results
        + "\n\nBased on this query and data, create a complete HTML file with a Plotly.js visualization."@
}

/// Builds the user message of a visualization request from the question and
/// the results rendered as text.
pub fn visualization_user_prompt(query: &str, results: &str) -> (r: String)
    ensures
        r@ == visualization_prompt_text(query@, results@),
{
    let mut r = String::from_str("Natural Language Query: ");
    r.append(query);
    r.append("\n\nData Results:\n");
    r.append(results);
    r.append(
        "\n\nBased on this query and data, create a complete HTML file with a Plotly.js visualization.",
    );
    r
}

/// The system message of a visualization request.
pub fn visualization_system_prompt() -> (r: String)
    ensures
        r@ == VISUALIZATION_SYSTEM_PROMPT@,
{
    String::from_str(VISUALIZATION_SYSTEM_PROMPT)
}

} // verus!
