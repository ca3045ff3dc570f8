//! What the answers of the page say.
use crate::error::{json_result, ControlError, ErrorOf, ErrorView};
use crate::json::{
    as_double, as_flag, as_text, double_of, field, number_view, then_field, Json, JsonView,
    NumberView,
};
use base64::engine::general_purpose::STANDARD;
use base64::Engine;
use vstd::prelude::*;

verus! {

broadcast use vstd::string::group_string_axioms;

/// What came of a script: the value that it returned, none being null, or the
/// exception that it ended in.
pub open spec fn evaluated(reply: Result<JsonView, ErrorView>) -> Result<JsonView, ErrorView> {
    match reply {
        Err(e) => Err(e),
        Ok(answer) => match field(answer, "exceptionDetails"@) {
            Some(details) => Err(ErrorOf::Script(details)),
            None => Ok(
                match then_field(field(answer, "result"@), "value"@) {
                    Some(value) => value,
                    None => JsonView::Null,
                },
            ),
        },
    }
}

/// Whether a field of a value is true.
pub open spec fn says(value: JsonView, key: Seq<char>) -> bool {
    as_flag(field(value, key)) == Some(true)
}

/// What came of looking for an element.
pub open spec fn located(reply: Result<JsonView, ErrorView>) -> Result<JsonView, ErrorView> {
    match evaluated(reply) {
        Err(e) => Err(e),
        Ok(value) => if says(value, "ok"@) {
            Ok(value)
        } else {
            Err(ErrorOf::NotClickable(value))
        },
    }
}

/// The number that a value is, if it is one.
pub open spec fn as_number(v: Option<JsonView>) -> Option<NumberView> {
    match v {
        Some(JsonView::Number(n)) => Some(n),
        _ => None,
    }
}

/// The point that a value gives, in doubles.
pub open spec fn point_of(value: JsonView) -> Result<(NumberView, NumberView), ErrorView> {
    match as_number(field(value, "x"@)) {
        None => Err(ErrorOf::NoX(value)),
        Some(x) => match as_number(field(value, "y"@)) {
            None => Err(ErrorOf::NoY(value)),
            Some(y) => Ok((as_double(x), as_double(y))),
        },
    }
}

/// The view of a point or an error.
pub open spec fn point_result(
    r: Result<(serde_json::Number, serde_json::Number), ControlError>,
) -> Result<(NumberView, NumberView), ErrorView> {
    match r {
        Ok(p) => Ok((number_view(p.0), number_view(p.1))),
        Err(e) => Err(e@),
    }
}

/// Reads what came of a script.
pub fn evaluate(reply: Result<Json, ControlError>) -> (r: Result<Json, ControlError>)
    ensures
        json_result(r) == evaluated(json_result(reply)),
{
    let answer = match reply {
        Ok(answer) => answer,
        Err(e) => return Err(e),
    };
    if let Some(details) = answer.get("exceptionDetails") {
        return Err(ErrorOf::Script(details.duplicate()));
    }
    match answer.take("result") {
        Some(result) => match result.take("value") {
            Some(value) => Ok(value),
            None => Ok(Json::Null),
        },
        None => Ok(Json::Null),
    }
}

/// The exec form of [`says`].
pub fn flag(value: &Json, key: &str) -> (b: bool)
    ensures
        b == says(value@, key@),
{
    match value.get(key) {
        Some(v) => v.as_bool() == Some(true),
        None => false,
    }
}

/// Reads what came of looking for an element.
pub fn locate(reply: Result<Json, ControlError>) -> (r: Result<Json, ControlError>)
    ensures
        json_result(r) == located(json_result(reply)),
{
    match evaluate(reply) {
        Ok(value) => if flag(&value, "ok") {
            Ok(value)
        } else {
            Err(ErrorOf::NotClickable(value))
        },
        Err(e) => Err(e),
    }
}

/// The view of an optional number.
pub open spec fn optional_number(n: Option<&serde_json::Number>) -> Option<NumberView> {
    match n {
        Some(n) => Some(number_view(*n)),
        None => None,
    }
}

/// The number of a field, if it is one.
pub fn number_field<'a>(value: &'a Json, key: &str) -> (n: Option<&'a serde_json::Number>)
    ensures
        optional_number(n) == as_number(field(value@, key@)),
{
    match value.get(key) {
        Some(Json::Number(n)) => Some(n),
        _ => None,
    }
}

/// Reads a point.
pub fn point_from_value(value: &Json) -> (r: Result<
    (serde_json::Number, serde_json::Number),
    ControlError,
>)
    ensures
        point_result(r) == point_of(value@),
{
    let x = match number_field(value, "x") {
        Some(x) => x,
        None => return Err(ErrorOf::NoX(value.duplicate())),
    };
    let y = match number_field(value, "y") {
        Some(y) => y,
        None => return Err(ErrorOf::NoY(value.duplicate())),
    };
    Ok((double_of(x), double_of(y)))
}

/// The error type of `base64`.
#[verifier::external_type_specification]
#[verifier::external_body]
pub struct ExDecodeError(base64::DecodeError);

/// The bytes that `base64::Engine::decode` of the engine `STANDARD` makes of a
/// text, if it takes it.
pub uninterp spec fn decoded(text: Seq<char>) -> Option<Seq<u8>>;

/// What came of decoding a text.
pub open spec fn decoding(r: Result<Vec<u8>, base64::DecodeError>) -> Option<Seq<u8>> {
    match r {
        Ok(bytes) => Some(bytes@),
        Err(_) => None,
    }
}

/// `base64::Engine::decode` of the engine `STANDARD`: the bytes that a text in
/// the standard alphabet with padding stands for, or an error.
#[verifier::external_body]
fn decode(text: &str) -> (r: Result<Vec<u8>, base64::DecodeError>)
    ensures
        decoding(r) == decoded(text@),
{
    STANDARD.decode(text)
}

/// The data of a screenshot, still encoded.
pub open spec fn image_text(answer: JsonView) -> Result<Seq<char>, ErrorView> {
    match as_text(field(answer, "data"@)) {
        Some(text) => Ok(text),
        None => Err(ErrorOf::NoImage),
    }
}

/// The screenshot, given what came of decoding its data.
pub open spec fn image_bytes(decoding: Option<Seq<u8>>) -> Result<Seq<u8>, ErrorView> {
    match decoding {
        Some(bytes) => Ok(bytes),
        None => Err(ErrorOf::BadImage),
    }
}

/// The screenshot that an answer carries.
pub open spec fn captured(answer: JsonView) -> Result<Seq<u8>, ErrorView> {
    match image_text(answer) {
        Ok(text) => image_bytes(decoded(text)),
        Err(e) => Err(e),
    }
}

/// The view of some bytes or an error.
pub open spec fn bytes_result(r: Result<Vec<u8>, ControlError>) -> Result<Seq<u8>, ErrorView> {
    match r {
        Ok(bytes) => Ok(bytes@),
        Err(e) => Err(e@),
    }
}

/// The exec form of [`image_bytes`].
pub fn judge_image(image: Option<Vec<u8>>) -> (r: Result<Vec<u8>, ControlError>)
    ensures
        bytes_result(r) == image_bytes(
            match image {
                Some(bytes) => Some(bytes@),
                None => None,
            },
        ),
{
    match image {
        Some(bytes) => Ok(bytes),
        None => Err(ErrorOf::BadImage),
    }
}

/// Reads the screenshot that an answer carries.
pub fn image_from_value(answer: &Json) -> (r: Result<Vec<u8>, ControlError>)
    ensures
        bytes_result(r) == captured(answer@),
{
    let text = match answer.get("data") {
        Some(data) => match data.as_str() {
            Some(text) => text,
            None => return Err(ErrorOf::NoImage),
        },
        None => return Err(ErrorOf::NoImage),
    };
    match decode(text) {
        Ok(bytes) => judge_image(Some(bytes)),
        Err(_) => judge_image(None),
    }
}

/// A script comes to the value that it returned, or null where it returned
/// none; an exception comes to an error with its details, and so does a call
/// that failed.
pub proof fn law_script_comes_to_its_value(answer: JsonView, result: JsonView, v: JsonView)
    ensures
        field(answer, "exceptionDetails"@) == Some(v) ==> evaluated(Ok(answer)) == Err::<
            JsonView,
            ErrorView,
        >(ErrorOf::Script(v)),
        field(answer, "exceptionDetails"@) is None && field(answer, "result"@) == Some(result)
            && field(result, "value"@) == Some(v) ==> evaluated(Ok(answer)) == Ok::<
            JsonView,
            ErrorView,
        >(v),
        field(answer, "exceptionDetails"@) is None && field(answer, "result"@) is None ==> evaluated(
            Ok(answer),
        ) == Ok::<JsonView, ErrorView>(JsonView::Null),
        field(answer, "exceptionDetails"@) is None && field(answer, "result"@) == Some(result)
            && field(result, "value"@) is None ==> evaluated(Ok(answer)) == Ok::<
            JsonView,
            ErrorView,
        >(JsonView::Null),
{
}

/// Only a plain true is a yes.
pub proof fn law_only_true_is_yes(value: JsonView, key: Seq<char>)
    ensures
        says(value, key) <==> field(value, key) == Some(JsonView::Bool(true)),
{
}

/// A point has the two coordinates that the page gives, in their order, and the
/// one that is missing is named.
pub proof fn law_point_is_read(value: JsonView, x: NumberView, y: NumberView)
    ensures
        field(value, "x"@) == Some(JsonView::Number(x)) && field(value, "y"@) == Some(
            JsonView::Number(y),
        ) ==> point_of(value) == Ok::<(NumberView, NumberView), ErrorView>(
            (as_double(x), as_double(y)),
        ),
        !(field(value, "x"@) matches Some(JsonView::Number(_))) ==> point_of(value) == Err::<
            (NumberView, NumberView),
            ErrorView,
        >(ErrorOf::NoX(value)),
        field(value, "x"@) == Some(JsonView::Number(x)) && !(field(value, "y"@) matches Some(
            JsonView::Number(_),
        )) ==> point_of(value) == Err::<(NumberView, NumberView), ErrorView>(ErrorOf::NoY(value)),
{
}

/// A screenshot is what the data of the answer decodes to, and nothing where
/// there is no data or it is faulty.
pub proof fn law_screenshot_is_decoded(answer: JsonView, text: Seq<char>, image: Seq<u8>)
    ensures
        field(answer, "data"@) == Some(JsonView::Text(text)) && decoded(text) == Some(image)
            ==> captured(answer) == Ok::<Seq<u8>, ErrorView>(image),
        field(answer, "data"@) == Some(JsonView::Text(text)) && decoded(text) is None ==> captured(
            answer,
        ) == Err::<Seq<u8>, ErrorView>(ErrorOf::BadImage),
        !(field(answer, "data"@) matches Some(JsonView::Text(_))) ==> captured(answer) == Err::<
            Seq<u8>,
            ErrorView,
        >(ErrorOf::NoImage),
{
}

} // verus!
