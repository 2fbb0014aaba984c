//! The status page: a colour picker bound to the LED, with an optional
//! notice above it.
//!
//! Text that comes from a request is escaped by the `maud` crate before it
//! enters the page; the function that calls it is the only unproved code in
//! this module.

use vstd::prelude::*;
use vstd::string::*;

use crate::color::{css_hex, hex_digits, hex_pair, Rgb};

verus! {

/// What one character becomes when it is written into HTML.
pub open spec fn escaped_char(c: char) -> Seq<char> {
    if c == '&' {
        seq!['&', 'a', 'm', 'p', ';']
    } else if c == '<' {
        seq!['&', 'l', 't', ';']
    } else if c == '>' {
        seq!['&', 'g', 't', ';']
    } else if c == '"' {
        seq!['&', 'q', 'u', 'o', 't', ';']
    } else {
        seq![c]
    }
}

/// A text with each of `&`, `<`, `>` and `"` replaced by its entity and
/// every other character kept.
pub open spec fn escaped(text: Seq<char>) -> Seq<char>
    decreases text.len(),
{
    if text.len() == 0 {
        Seq::empty()
    } else {
        escaped(text.drop_last()) + escaped_char(text.last())
    }
}

/// True of a text that holds none of the characters that escaping replaces.
pub open spec fn is_plain(text: Seq<char>) -> bool {
    forall|i: int|
        0 <= i < text.len() ==> text[i] != '&' && text[i] != '<' && text[i] != '>' && text[i]
            != '"'
}

/// Opening of the notice above the form.
pub const NOTICE_OPEN: &'static str = "<h5>";

/// Closing of the notice above the form.
pub const NOTICE_CLOSE: &'static str = "</h5>";

/// The form up to the value of the colour input.
pub const FORM_OPEN: &'static str =
    "<form hx-post=\"/set_rgb\" hx-target=\"body\" hx-trigger=\"change delay:500ms\"><div><label for=\"onboard_led\">RGB Lead color</label><input type=\"color\" id=\"onboard_led\" name=\"onboard_led\" value=\"";

/// The form after the value of the colour input.
pub const FORM_CLOSE: &'static str = "\"></div></form>";

/// The document up to the content of its body.
pub const PAGE_OPEN: &'static str =
    "<!DOCTYPE html><html><head><meta charset=\"utf-8\"><title>esp32s3</title><script src=\"https://unpkg.com/htmx.org@1.9.10\"></script></head><body hx-boost=\"true\">";

/// The document after the content of its body.
pub const PAGE_CLOSE: &'static str = "</body></html>";

/// A piece of HTML that needs no further escaping.
#[derive(Clone, Debug, PartialEq, Eq)]
pub struct Markup {
    pub html: String,
}

impl View for Markup {
    type V = Seq<char>;

    open spec fn view(&self) -> Seq<char> {
        self.html@
    }
}

impl Markup {
    /// The HTML as a string.
    pub fn into_string(self) -> (out: String)
        ensures
            out@ == self@,
    {
        self.html
    }
}

/// The notice for `text`: nothing for an empty text, else the escaped text
/// as a heading.
pub open spec fn flash_markup(text: Seq<char>) -> Seq<char> {
    if text.len() == 0 {
        Seq::empty()
    } else {
        NOTICE_OPEN@ + escaped(text) + NOTICE_CLOSE@
    }
}

/// The body of the page: the notice, then the form whose colour input
/// shows `color`.
pub open spec fn content_markup(color: Rgb, notice: Seq<char>) -> Seq<char> {
    notice + FORM_OPEN@ + css_hex(color) + FORM_CLOSE@
}

/// The whole document around [`content_markup`].
pub open spec fn template_markup(color: Rgb, notice: Seq<char>) -> Seq<char> {
    PAGE_OPEN@ + content_markup(color, notice) + PAGE_CLOSE@
}

/// What is sent to the client: the body alone, or the whole document.
pub open spec fn page_markup(color: Rgb, notice: Seq<char>, only_body: bool) -> Seq<char> {
    if only_body {
        content_markup(color, notice)
    } else {
        template_markup(color, notice)
    }
}

/// Calls `maud`'s `Render::render` on a string slice, which escapes it for
/// HTML. The crate documents the escaping: `&`, `<`, `>` and `"` become
/// `&amp;`, `&lt;`, `&gt;` and `&quot;`, and all other characters pass
/// through unchanged.
#[verifier::external_body]
fn escape(text: &str) -> (out: String)
    ensures
        out@ == escaped(text@),
{
    maud::Render::render(text).into_string()
}

/// Escaping a text made of two parts escapes each part.
pub proof fn escaped_concat(left: Seq<char>, right: Seq<char>)
    ensures
        escaped(left + right) == escaped(left) + escaped(right),
    decreases right.len(),
{
    if right.len() == 0 {
        assert(left + right =~= left);
        assert(escaped(left) + escaped(right) =~= escaped(left));
    } else {
        assert((left + right).drop_last() =~= left + right.drop_last());
        assert((left + right).last() == right.last());
        escaped_concat(left, right.drop_last());
        assert(escaped(left + right) =~= escaped(left) + escaped(right));
    }
}

/// Escaping leaves a text without special characters as it is.
pub proof fn escaped_plain(text: Seq<char>)
    requires
        is_plain(text),
    ensures
        escaped(text) == text,
    decreases text.len(),
{
    if text.len() > 0 {
        escaped_plain(text.drop_last());
        assert(text.drop_last() + seq![text.last()] =~= text);
    }
}

/// The CSS notation of a colour holds no character that escaping replaces.
pub proof fn css_hex_plain(color: Rgb)
    ensures
        is_plain(css_hex(color)),
{
    assert forall|d: int| 0 <= d < 16 implies is_plain(seq![#[trigger] hex_digits()[d]]) by {}
    assert forall|channel: u8| is_plain(#[trigger] hex_pair(channel)) by {
        let high = channel as int / 16;
        let low = channel as int % 16;
        assert(seq![hex_digits()[high]][0] == hex_pair(channel)[0]);
        assert(seq![hex_digits()[low]][0] == hex_pair(channel)[1]);
    }
    let text = css_hex(color);
    assert forall|i: int| 0 <= i < text.len() implies text[i] != '&' && text[i] != '<' && text[i]
        != '>' && text[i] != '"' by {
        if 1 <= i < 3 {
            assert(text[i] == hex_pair(color.red)[i - 1]);
        } else if 3 <= i < 5 {
            assert(text[i] == hex_pair(color.green)[i - 3]);
        } else if 5 <= i {
            assert(text[i] == hex_pair(color.blue)[i - 5]);
        }
    }
}

/// Renders the notice shown above the form.
///
/// An empty text gives no markup at all; any other text is escaped and set
/// as a heading.
pub fn flash(text: &str) -> (out: Markup)
    ensures
        out@ == flash_markup(text@),
{
    if text.is_empty() {
        return Markup { html: String::new() };
    }
    let mut html = String::from_str(NOTICE_OPEN);
    let body = escape(text);
    html.append(body.as_str());
    html.append(NOTICE_CLOSE);
    Markup { html }
}

/// Renders the body of the page: `notice` as it is, then the colour form
/// with `rgb` as the value of its input.
pub fn content(rgb: Rgb, notice: Markup) -> (out: Markup)
    ensures
        out@ == content_markup(rgb, notice@),
{
    let mut html = notice.into_string();
    html.append(FORM_OPEN);
    let value = escape(rgb.to_css_hex_string().as_str());
    proof {
        css_hex_plain(rgb);
        escaped_plain(css_hex(rgb));
    }
    html.append(value.as_str());
    html.append(FORM_CLOSE);
    Markup { html }
}

/// Renders the whole document around [`content`].
pub fn template(rgb: Rgb, notice: Markup) -> (out: Markup)
    ensures
        out@ == template_markup(rgb, notice@),
{
    let mut html = String::from_str(PAGE_OPEN);
    let body = content(rgb, notice).into_string();
    html.append(body.as_str());
    html.append(PAGE_CLOSE);
    Markup { html }
}

/// Renders the response text: the body alone where `only_body` is set, the
/// whole document otherwise.
pub fn index_html(rgb: Rgb, notice: Markup, only_body: bool) -> (out: String)
    ensures
        out@ == page_markup(rgb, notice@, only_body),
{
    if only_body {
        content(rgb, notice).into_string()
    } else {
        template(rgb, notice).into_string()
    }
}

} // verus!
