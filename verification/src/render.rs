//! The document renderer, as the registry renders a readme, and the page
//! and script that carry the rendering to the browser.

use vstd::prelude::*;

verus! {

/// The sanitized HTML that the registry's renderer gives for a Markdown
/// text at the top of a package, with no base URL for relative links.
pub uninterp spec fn rendered_html(text: Seq<char>) -> Seq<char>;

/// Calls `cargo_registry_markdown::text_to_html` with the text, the file
/// name `README.md`, and `None` for the base URL and for the package's path.
/// Trusted: the result is the rendering of that text, and depends on the
/// text alone.
#[verifier::external_body]
fn text_to_html(text: &str) -> (html: String)
    ensures
        html@ == rendered_html(text@),
{
    cargo_registry_markdown::text_to_html(text, "README.md", None, None)
}

/// Renders a readme to HTML as the registry would show it.
pub fn preview(readme: &str) -> (html: String)
    ensures
        html@ == rendered_html(readme@),
{
    text_to_html(readme)
}

/// The text with every occurrence of `from` replaced by `to`, the
/// occurrences taken from left to right and never overlapping.
pub open spec fn replaced(text: Seq<char>, from: Seq<char>, to: Seq<char>) -> Seq<char>
    recommends
        from.len() > 0,
    decreases text.len(),
{
    if from.len() == 0 || text.len() < from.len() {
        text
    } else if text.subrange(0, from.len() as int) == from {
        to + replaced(text.subrange(from.len() as int, text.len() as int), from, to)
    } else {
        seq![text[0]] + replaced(text.drop_first(), from, to)
    }
}

/// The character of a decimal digit.
pub open spec fn digit(value: nat) -> char
    recommends
        value < 10,
{
    (0x30 + value) as char
}

/// A number in decimal, without sign or leading zeros.
pub open spec fn decimal(value: nat) -> Seq<char>
    decreases value,
{
    if value < 10 {
        seq![digit(value)]
    } else {
        decimal(value / 10).push(digit(value % 10))
    }
}

/// The page for a rendered document: the template with the rendering in
/// place of `{}`, then the port in place of `{hot_reload_port}`.
pub open spec fn page_of(template: Seq<char>, html: Seq<char>, port: u16) -> Seq<char> {
    replaced(replaced(template, "{}"@, html), "{hot_reload_port}"@, decimal(port as nat))
}

/// The browser script: the template with the port in place of
/// `{hot_reload_port}`, then the host in place of `{hot_reload_host}`.
pub open spec fn script_of(template: Seq<char>, port: u16, hostname: Seq<char>) -> Seq<char> {
    replaced(
        replaced(template, "{hot_reload_port}"@, decimal(port as nat)),
        "{hot_reload_host}"@,
        hostname,
    )
}

/// Calls `str::replace` with a string pattern. Trusted: every match of the
/// pattern, found from left to right without overlap, is replaced. The
/// empty pattern, which matches between any two characters, is left out.
#[verifier::external_body]
fn replace(text: &str, from: &str, to: &str) -> (out: String)
    requires
        from@.len() > 0,
    ensures
        out@ == replaced(text@, from@, to@),
{
    text.replace(from, to)
}

/// Calls `to_string` on a `u16`. Trusted: the result is the number in
/// decimal.
#[verifier::external_body]
fn port_text(port: u16) -> (text: String)
    ensures
        text@ == decimal(port as nat),
{
    port.to_string()
}

/// Puts a rendered document and the push port into the page template.
pub fn embed(template: &str, html: &str, port: u16) -> (page: String)
    ensures
        page@ == page_of(template@, html@, port),
{
    proof {
        reveal_strlit("{}");
        reveal_strlit("{hot_reload_port}");
    }
    let with_document = replace(template, "{}", html);
    let number = port_text(port);
    replace(with_document.as_str(), "{hot_reload_port}", number.as_str())
}

/// Renders the current document and builds the page that the root path
/// serves.
pub fn page(template: &str, document: &str, port: u16) -> (page: String)
    ensures
        page@ == page_of(template@, rendered_html(document@), port),
{
    let html = preview(document);
    embed(template, html.as_str(), port)
}

/// Puts the push port and the host name into the script template.
pub fn script(template: &str, port: u16, hostname: &str) -> (script: String)
    ensures
        script@ == script_of(template@, port, hostname@),
{
    proof {
        reveal_strlit("{hot_reload_port}");
        reveal_strlit("{hot_reload_host}");
    }
    let number = port_text(port);
    let with_port = replace(template, "{hot_reload_port}", number.as_str());
    replace(with_port.as_str(), "{hot_reload_host}", hostname)
}

} // verus!
