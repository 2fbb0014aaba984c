//! What the HTTP handlers decide and answer.
//!
//! Reading a request and sending a response is the server's part. Between
//! the two stand the functions of this module: whether a body may be read at
//! all, and which page goes back.
//!
//! A colour request is served in steps. [`check_length`] looks at the
//! declared length. The caller reads the body and asks
//! [`requested_color`](crate::request::requested_color) what it says. For a
//! colour it commands the LED driver and hands the driver's answer to
//! [`AppState::set_rgb`]. Then [`set_rgb_response`] makes the answer: the
//! page with a notice that names the new colour, or that gives the reason
//! why there is none. A toggle request is served by [`toggle`] alone.
//!
//! Every page is rendered from a snapshot of the state, so the caller can
//! copy the state out of its lock and render after the lock is released.

use vstd::prelude::*;
use vstd::string::*;

use crate::app_state::{AppState, DriverError};
use crate::color::{css_hex, Rgb};
use crate::level::{reconciled, Level, ReasonCode};
use crate::markup::{
    escaped, escaped_concat, escaped_plain, flash, flash_markup, index_html, is_plain,
    page_markup, FORM_CLOSE, FORM_OPEN, NOTICE_CLOSE, NOTICE_OPEN, PAGE_CLOSE, PAGE_OPEN,
};
use crate::request::{message_text, RequestError};

verus! {

/// Longest request body, in bytes, that a handler reads.
pub const MAX_LEN: usize = 128;

/// Status of a response that carries a page.
pub const STATUS_OK: u16 = 200;

/// Status of the response to a request whose body is too long.
pub const STATUS_TOO_BIG: u16 = 413;

/// Body of the response to a request whose body is too long.
pub const TOO_BIG: &'static str = "Request too big";

/// Start of the notice after a colour was set; the colour follows.
pub const UPDATED: &'static str = "New color: ";

/// Start of the notice after a request was refused; the reason follows.
pub const BAD_DATA: &'static str = "Bad Data: ";

/// What a handler sends back.
#[derive(Clone, Debug, PartialEq, Eq)]
pub struct Response {
    pub status: u16,
    pub body: String,
}

/// What a toggle request leads to.
#[derive(Clone, Copy, Debug, PartialEq, Eq, Structural)]
pub struct Toggle {
    /// The level that the response shows.
    pub shown: Level,
    /// The code to post, which asks the control loop for that level.
    pub code: ReasonCode,
}

/// The body length that a request declares; a request that declares none
/// has an empty body.
pub open spec fn declared_len(content_len: Option<u64>) -> int {
    match content_len {
        Some(len) => len as int,
        None => 0,
    }
}

/// The page after `rgb` was set: the colour that the state holds in the
/// form, and a notice that names `rgb`.
pub open spec fn applied_page(color: Rgb, rgb: Rgb, only_body: bool) -> Seq<char> {
    page_markup(color, flash_markup(UPDATED@ + css_hex(rgb)), only_body)
}

/// The page after a request was refused: the colour that the state holds in
/// the form, and a notice that gives the reason.
pub open spec fn refused_page(color: Rgb, error: RequestError, only_body: bool) -> Seq<char> {
    page_markup(color, flash_markup(BAD_DATA@ + message_text(error)), only_body)
}

/// True of a page that has `part` somewhere in it.
pub open spec fn holds(page: Seq<char>, part: Seq<char>) -> bool {
    exists|before: Seq<char>, after: Seq<char>| page == before + part + after
}

/// The colour input of the form with `color` as its value.
pub open spec fn color_input(color: Rgb) -> Seq<char> {
    FORM_OPEN@ + css_hex(color) + FORM_CLOSE@
}

/// Decides whether the body of a request is read.
///
/// A request that declares at most [`MAX_LEN`] bytes is accepted, with the
/// number of bytes to read. One that declares more is answered with status
/// 413 and its body is never read, so nothing it holds can reach the state.
pub fn check_length(content_len: Option<u64>) -> (out: Result<usize, Response>)
    ensures
        match out {
            Ok(len) => declared_len(content_len) <= MAX_LEN && len == declared_len(content_len),
            Err(response) => declared_len(content_len) > MAX_LEN && response.status
                == STATUS_TOO_BIG && response.body@ == TOO_BIG@,
        },
{
    let len = match content_len {
        Some(len) => len,
        None => 0,
    };
    if len > MAX_LEN as u64 {
        Err(Response { status: STATUS_TOO_BIG, body: String::from_str(TOO_BIG) })
    } else {
        Ok(len as usize)
    }
}

/// Answers a request for the status page: the whole document, with the
/// colour that the state holds and no notice.
pub fn index_response(state: &AppState) -> (out: Response)
    ensures
        out.status == STATUS_OK,
        out.body@ == page_markup(state.rgb_val, Seq::empty(), false),
{
    proof {
        reveal_strlit("");
    }
    let body = index_html(state.read(), flash(""), false);
    Response { status: STATUS_OK, body }
}

/// Answers a colour request after `rgb` was set.
///
/// `state` is the state as read after the write. The response has status 200
/// and is the page with the colour that the state holds and a notice that
/// names `rgb`.
pub fn applied_response(state: &AppState, rgb: Rgb, only_body: bool) -> (out: Response)
    ensures
        out.status == STATUS_OK,
        out.body@ == applied_page(state.rgb_val, rgb, only_body),
{
    let mut text = String::from_str(UPDATED);
    text.append(rgb.to_css_hex_string().as_str());
    let body = index_html(state.read(), flash(text.as_str()), only_body);
    Response { status: STATUS_OK, body }
}

/// Answers a colour request whose body names no colour.
///
/// The state is only read. The response has status 200 and is the page with
/// the colour that the state holds and a notice that gives the reason.
pub fn refused_response(state: &AppState, error: &RequestError, only_body: bool) -> (out: Response)
    ensures
        out.status == STATUS_OK,
        out.body@ == refused_page(state.rgb_val, *error, only_body),
{
    let mut text = String::from_str(BAD_DATA);
    text.append(error.message().as_str());
    let body = index_html(state.read(), flash(text.as_str()), only_body);
    Response { status: STATUS_OK, body }
}

/// Answers a colour request, whatever its body said.
///
/// `request` is what the body asked for, and `state` the state as read after
/// the request was acted on. A colour gives [`applied_response`], an error
/// gives [`refused_response`]; either way the status is 200.
pub fn set_rgb_response(
    state: &AppState,
    request: &Result<Rgb, RequestError>,
    only_body: bool,
) -> (out: Response)
    ensures
        out.status == STATUS_OK,
        out.body@ == match *request {
            Ok(rgb) => applied_page(state.rgb_val, rgb, only_body),
            Err(error) => refused_page(state.rgb_val, error, only_body),
        },
{
    match request {
        Ok(rgb) => applied_response(state, *rgb, only_body),
        Err(error) => refused_response(state, error, only_body),
    }
}

/// Serves a toggle request.
///
/// `last` is the level that the state holds. The response shows the opposite
/// level at once; the state is not touched here. The code asks the control
/// loop to force that level, and the loop commits it when it comes to it.
pub fn toggle(last: Level) -> (out: Toggle)
    ensures
        out.shown == last.inverted(),
        out.code.value() == out.shown.forcing(),
{
    let shown = last.invert();
    Toggle { shown, code: shown.forcing_code() }
}

/// Every page shows the colour it was rendered for as the value of the
/// colour input.
pub proof fn page_shows_color(color: Rgb, notice: Seq<char>, only_body: bool)
    ensures
        holds(page_markup(color, notice, only_body), color_input(color)),
{
    let page = page_markup(color, notice, only_body);
    let part = color_input(color);
    if only_body {
        let after = Seq::<char>::empty();
        assert(page =~= notice + part + after);
    } else {
        let before = PAGE_OPEN@ + notice;
        let after = PAGE_CLOSE@;
        assert(page =~= before + part + after);
    }
}

/// Round trip of a colour: once `rgb` is written with a working driver,
/// both the answer to that request and the status page, rendered from the
/// state as it is then, show `rgb` as the value of the colour input.
pub proof fn committed_color_is_rendered(start: AppState, rgb: Rgb, only_body: bool)
    ensures
        ({
            let state = start.written(rgb, Ok(()));
            state.rgb_val == rgb && holds(
                applied_page(state.rgb_val, rgb, only_body),
                color_input(rgb),
            ) && holds(page_markup(state.rgb_val, Seq::empty(), false), color_input(rgb))
        }),
{
    page_shows_color(rgb, flash_markup(UPDATED@ + css_hex(rgb)), only_body);
    page_shows_color(rgb, Seq::empty(), false);
}

/// A failed driver changes no page: after an attempt to write `rgb` that the
/// driver refused, the status page is the one from before the attempt.
pub proof fn failed_write_is_not_rendered(start: AppState, rgb: Rgb, error: DriverError)
    ensures
        page_markup(start.written(rgb, Err(error)).rgb_val, Seq::empty(), false) == page_markup(
            start.rgb_val,
            Seq::empty(),
            false,
        ),
{
}

/// A refused request is answered with the colour that the state holds and
/// with the reason in a heading: the page shows that colour as the value of
/// the colour input, and holds the heading `Bad Data: ` followed by the
/// escaped text of the error.
pub proof fn refused_page_shows_error(color: Rgb, error: RequestError, only_body: bool)
    ensures
        holds(refused_page(color, error, only_body), color_input(color)),
        holds(
            refused_page(color, error, only_body),
            NOTICE_OPEN@ + BAD_DATA@ + escaped(message_text(error)) + NOTICE_CLOSE@,
        ),
{
    let text = BAD_DATA@ + message_text(error);
    let notice = flash_markup(text);
    let page = refused_page(color, error, only_body);
    page_shows_color(color, notice, only_body);
    reveal_strlit("Bad Data: ");
    assert(is_plain(BAD_DATA@));
    escaped_plain(BAD_DATA@);
    escaped_concat(BAD_DATA@, message_text(error));
    let heading = NOTICE_OPEN@ + BAD_DATA@ + escaped(message_text(error)) + NOTICE_CLOSE@;
    assert(text.len() > 0);
    assert(notice =~= heading);
    let rest = color_input(color);
    if only_body {
        assert(page =~= Seq::<char>::empty() + heading + rest);
    } else {
        assert(page =~= PAGE_OPEN@ + heading + (rest + PAGE_CLOSE@));
    }
}

/// The code of a toggle asks for the level that the response shows: the
/// control loop reaches that level from whatever level it finds committed.
pub proof fn toggle_is_confirmed(last: Level, previous: Level)
    ensures
        reconciled(last.inverted().forcing(), previous) == last.inverted(),
{
}

} // verus!
