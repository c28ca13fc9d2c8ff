use nl2sql::visual::{
    parse_visualization_response, visualization_system_prompt, visualization_user_prompt,
    VISUALIZATION_CONFIDENCE_PERCENT,
};

#[test]
fn html_code_block_and_explanation_after() {
    let (html, expl) = parse_visualization_response("Intro\n```html\n<html><body>x</body></html>\n```\nA bar chart.");
    assert_eq!(html, "<html><body>x</body></html>");
    assert_eq!(expl, "A bar chart.");
}

#[test]
fn html_code_block_without_trailing_text() {
    let (html, expl) = parse_visualization_response("```html<p>hi</p>```");
    assert_eq!(html, "<p>hi</p>");
    assert_eq!(expl, "Visualization generated from the provided data.");
}

#[test]
fn direct_doctype_page() {
    let (html, expl) = parse_visualization_response("Here you go:\n<!DOCTYPE html><html></html>\n");
    assert_eq!(html, "<!DOCTYPE html><html></html>");
    assert_eq!(expl, "Here you go:");
}

#[test]
fn direct_html_tag_page_at_start() {
    let (html, expl) = parse_visualization_response("<html><div id=\"plot\"></div></html>");
    assert_eq!(html, "<html><div id=\"plot\"></div></html>");
    assert_eq!(expl, "Visualization generated from the provided data.");
}

#[test]
fn script_only_is_wrapped() {
    let (html, expl) = parse_visualization_response("Chart: <script>Plotly.newPlot('plot', []);</script> done");
    assert_eq!(
        html,
        "<!DOCTYPE html>\n<html>\n<head>\n<title>Visualization</title>\n<script src=\"https://cdn.plot.ly/plotly-latest.min.js\"></script>\n</head>\n<body>\n<div id=\"plot\"></div>\n<script>Plotly.newPlot('plot', []);</script>\n</body>\n</html>"
    );
    assert_eq!(expl, "Chart:  done");
}

#[test]
fn nothing_usable_gives_error_page() {
    let (html, expl) = parse_visualization_response("sorry <b>no</b>");
    assert_eq!(
        html,
        "<!DOCTYPE html>\n<html>\n<head>\n<title>Visualization Error</title>\n</head>\n<body>\n<h1>Could not generate visualization</h1>\n<pre>sorry &lt;b&gt;no&lt;/b&gt;</pre>\n</body>\n</html>"
    );
    assert_eq!(expl, "Could not parse LLM response into valid HTML visualization.");
}

#[test]
fn unclosed_code_block_falls_through_to_error_page() {
    let (html, expl) = parse_visualization_response("```html <html>");
    assert!(html.contains("<pre>```html &lt;html&gt;</pre>"));
    assert_eq!(expl, "Could not parse LLM response into valid HTML visualization.");
    assert_eq!(VISUALIZATION_CONFIDENCE_PERCENT, 80);
}

#[test]
fn visualization_prompts() {
    assert_eq!(
        visualization_user_prompt("cars by hp", "[1]"),
        "Natural Language Query: cars by hp\n\nData Results:\n[1]\n\nBased on this query and data, create a complete HTML file with a Plotly.js visualization."
    );
    let s = visualization_system_prompt();
    assert!(s.starts_with("You are a data visualization expert."));
    assert!(s.contains("visualize the data.STYLING GUIDELINES:- Use Plotly.js"));
}
