//! The body of a colour request: a URL-encoded form with one field,
//! `onboard_led`, that holds a hexadecimal colour.
//!
//! The form is decoded by the `serde_urlencoded` crate into its pairs of
//! name and value; choosing the field and reading the colour from it is done
//! here. The two functions that call the crate are the only unproved code in
//! this module.

use vstd::prelude::*;
use vstd::string::*;

use crate::color::{color_of, hex_color, Rgb};

verus! {

/// The error of `serde_urlencoded`'s decoder. Nothing is known of a value of
/// this type but the text that [`decode_error_text`] gives for it.
#[verifier::external_type_specification]
#[verifier::external_body]
pub struct ExDecodeError(serde_urlencoded::de::Error);

/// Name of the form field that carries the colour.
pub const FIELD: &'static str = "onboard_led";

/// The decoded form of a colour request.
#[derive(Clone, Debug, PartialEq, Eq)]
pub struct FormData {
    pub onboard_led: String,
}

/// Why a request body names no colour.
#[derive(Clone, Debug, PartialEq, Eq)]
pub enum RequestError {
    /// The body is not a URL-encoded form; the text is the decoder's own.
    Malformed(String),
    /// No pair of the form is named `onboard_led`.
    MissingField,
    /// More than one pair of the form is named `onboard_led`.
    DuplicateField,
    /// The field does not hold a hexadecimal colour.
    ColorParse,
}

/// The pairs of name and value that `serde_urlencoded` decodes from a body,
/// in the order of the body, or `None` where it rejects the body.
pub uninterp spec fn form_pairs(body: Seq<u8>) -> Option<Seq<(Seq<char>, Seq<char>)>>;

/// True where pair `i` of a form is named `onboard_led`.
pub open spec fn names_field(pairs: Seq<(Seq<char>, Seq<char>)>, i: int) -> bool {
    0 <= i < pairs.len() && pairs[i].0 == FIELD@
}

/// The value of the one pair named `onboard_led`; a form with no such pair,
/// or with several, has none.
pub open spec fn field_of(pairs: Seq<(Seq<char>, Seq<char>)>) -> Result<Seq<char>, RequestError> {
    if forall|i: int| !names_field(pairs, i) {
        Err(RequestError::MissingField)
    } else if exists|i: int, j: int| i != j && names_field(pairs, i) && names_field(pairs, j) {
        Err(RequestError::DuplicateField)
    } else {
        Ok(pairs[choose|i: int| names_field(pairs, i)].1)
    }
}

/// The colour that a decoded form asks for.
pub open spec fn color_request(pairs: Seq<(Seq<char>, Seq<char>)>) -> Result<Rgb, RequestError> {
    match field_of(pairs) {
        Ok(text) => match color_of(hex_color(text)) {
            Some(color) => Ok(color),
            None => Err(RequestError::ColorParse),
        },
        Err(error) => Err(error),
    }
}

/// The text of each error: the decoder's own for a malformed body, a fixed
/// sentence for the others.
pub open spec fn message_text(error: RequestError) -> Seq<char> {
    match error {
        RequestError::Malformed(text) => text@,
        RequestError::MissingField => "missing field `onboard_led`"@,
        RequestError::DuplicateField => "duplicate field `onboard_led`"@,
        RequestError::ColorParse => "color parse error"@,
    }
}

/// Calls `serde_urlencoded::from_bytes` for a vector of pairs of strings.
/// The call depends on `body` alone, so its result is named [`form_pairs`]:
/// the decoded pairs on success, nothing where the crate returns an error.
#[verifier::external_body]
fn decode_pairs(body: &[u8]) -> (out: Result<Vec<(String, String)>, serde_urlencoded::de::Error>)
    ensures
        match out {
            Ok(pairs) => form_pairs(body@) == Some(pairs.deep_view()),
            Err(_) => form_pairs(body@) is None,
        },
{
    serde_urlencoded::from_bytes::<Vec<(String, String)>>(body)
}

/// Formats the decoder's error with its `Display` impl. Nothing is claimed
/// of the text.
#[verifier::external_body]
fn decode_error_text(error: &serde_urlencoded::de::Error) -> String {
    format!("{}", error)
}

impl FormData {
    /// Chooses the field `onboard_led` among the pairs of a decoded form.
    ///
    /// Succeeds exactly when one pair has that name, with the value of that
    /// pair; fails with `MissingField` when none has it and with
    /// `DuplicateField` when several have it. Pairs of other names are
    /// ignored.
    pub fn from_pairs(pairs: &Vec<(String, String)>) -> (out: Result<FormData, RequestError>)
        ensures
            match field_of(pairs.deep_view()) {
                Ok(text) => out matches Ok(form) && form.onboard_led@ == text,
                Err(error) => out == Err::<FormData, RequestError>(error),
            },
    {
        let ghost form = pairs.deep_view();
        let name = String::from_str(FIELD);
        let mut found: Option<usize> = None;
        let mut k: usize = 0;
        while k < pairs.len()
            invariant
                k <= pairs.len(),
                form == pairs.deep_view(),
                form.len() == pairs.len(),
                name@ == FIELD@,
                found is None ==> forall|i: int| 0 <= i < k ==> !names_field(form, i),
                found matches Some(at) ==> at < k && names_field(form, at as int) && forall|i: int|
                    0 <= i < k && names_field(form, i) ==> i == at,
            decreases pairs.len() - k,
        {
            assert(form[k as int].0 == pairs@[k as int].0@);
            if pairs[k].0 == name {
                if found.is_some() {
                    assert(names_field(form, k as int));
                    return Err(RequestError::DuplicateField);
                }
                found = Some(k);
            }
            k += 1;
        }
        match found {
            Some(at) => {
                assert(form[at as int].1 == pairs@[at as int].1@);
                Ok(FormData { onboard_led: pairs[at].1.clone() })
            },
            None => Err(RequestError::MissingField),
        }
    }

    /// Decodes a request body and chooses the field `onboard_led`.
    ///
    /// A body that the decoder rejects gives `Malformed`; any other body
    /// gives what [`FormData::from_pairs`] gives for its pairs.
    pub fn from_bytes(body: &[u8]) -> (out: Result<FormData, RequestError>)
        ensures
            match form_pairs(body@) {
                Some(pairs) => match field_of(pairs) {
                    Ok(text) => out matches Ok(form) && form.onboard_led@ == text,
                    Err(error) => out == Err::<FormData, RequestError>(error),
                },
                None => out matches Err(RequestError::Malformed(_)),
            },
    {
        match decode_pairs(body) {
            Ok(pairs) => FormData::from_pairs(&pairs),
            Err(error) => Err(RequestError::Malformed(decode_error_text(&error))),
        }
    }

    /// Reads the colour that the form asks for.
    ///
    /// Succeeds exactly when the field holds a hexadecimal colour; fails
    /// with `ColorParse` otherwise.
    pub fn color(&self) -> (out: Result<Rgb, RequestError>)
        ensures
            out == match color_of(hex_color(self.onboard_led@)) {
                Some(color) => Ok::<Rgb, RequestError>(color),
                None => Err(RequestError::ColorParse),
            },
    {
        match Rgb::from_hex_str(self.onboard_led.as_str()) {
            Some(color) => Ok(color),
            None => Err(RequestError::ColorParse),
        }
    }
}

impl RequestError {
    /// The text shown to the client for this error.
    pub fn message(&self) -> (out: String)
        ensures
            out@ == message_text(*self),
    {
        match self {
            RequestError::Malformed(text) => text.clone(),
            RequestError::MissingField => String::from_str("missing field `onboard_led`"),
            RequestError::DuplicateField => String::from_str("duplicate field `onboard_led`"),
            RequestError::ColorParse => String::from_str("color parse error"),
        }
    }
}

/// Reads the colour that a request body asks for.
///
/// A body that the decoder rejects gives `Malformed`; any other body gives
/// [`color_request`] of its pairs: the colour of the one field named
/// `onboard_led`, or the reason why there is none.
pub fn requested_color(body: &[u8]) -> (out: Result<Rgb, RequestError>)
    ensures
        match form_pairs(body@) {
            Some(pairs) => out == color_request(pairs),
            None => out matches Err(RequestError::Malformed(_)),
        },
{
    match FormData::from_bytes(body) {
        Ok(form) => form.color(),
        Err(error) => Err(error),
    }
}

} // verus!
