//! The cookies that the login flow sets, and the answers that carry them.

use crate::error::app_error::{is_failure, is_text, AppError, ErrorKind};
use vstd::prelude::*;

verus! {

/// The name of the cookie that carries the session id.
pub open spec fn session_cookie_name() -> Seq<char> {
    "SESSION"@
}

/// The attributes of every cookie that the login flow sets.
pub open spec fn cookie_attributes() -> Seq<char> {
    "; SameSite=Lax; HttpOnly; Secure; Path=/"@
}

/// The value of the `Set-Cookie` header that sets the cookie `name` to
/// `value`. The cookie has no maximum age: it lasts as long as the browser
/// session does.
pub open spec fn cookie_text(name: Seq<char>, value: Seq<char>) -> Seq<char> {
    name + "="@ + value + cookie_attributes()
}

/// Whether a character may stand in the value of an HTTP header: every
/// character from the space on but DEL, and the tab.
pub open spec fn is_header_char(c: char) -> bool {
    (c as u32 >= 32 && c as u32 != 127) || c == '\t'
}

/// Whether `text` may be the value of an HTTP header.
pub open spec fn is_header_value(text: Seq<char>) -> bool {
    forall|i: int| 0 <= i < text.len() ==> is_header_char(#[trigger] text[i])
}

/// The description of the error for a cookie that no header can carry.
pub open spec fn bad_header_text() -> Seq<char> {
    "Failed to parse header value"@
}

/// Says whether `HeaderValue::from_str` of `http` accepts the text. It
/// refuses a text that holds a byte below 32 other than the tab, or the byte
/// 127; the bytes of a character beyond ASCII are all above 127.
#[verifier::external_body]
fn parses_as_header_value(text: &str) -> (parses: bool)
    ensures
        parses == is_header_value(text@),
{
    http::HeaderValue::from_str(text).is_ok()
}

/// What the login flow answers a request with: the `Set-Cookie` header
/// values to send, in order, and where to redirect the browser.
#[derive(Debug, PartialEq, Eq)]
pub struct AuthResponse {
    pub cookies: Vec<String>,
    pub redirect: String,
}

/// Whether `response` sets exactly the one cookie `cookie` and redirects to
/// `redirect`.
pub open spec fn sets_one_cookie(response: AuthResponse, cookie: Seq<char>, redirect: Seq<char>) -> bool {
    &&& response.cookies@.len() == 1
    &&& response.cookies@[0]@ == cookie
    &&& response.redirect@ == redirect
}

/// Whether `response` sets exactly the two cookies `first` and `second`, in
/// that order, and redirects to `redirect`.
pub open spec fn sets_two_cookies(
    response: AuthResponse,
    first: Seq<char>,
    second: Seq<char>,
    redirect: Seq<char>,
) -> bool {
    &&& response.cookies@.len() == 2
    &&& response.cookies@[0]@ == first
    &&& response.cookies@[1]@ == second
    &&& response.redirect@ == redirect
}

/// The `Set-Cookie` header value that sets the cookie `name` to `value`,
/// with the attributes `SameSite=Lax`, `HttpOnly`, `Secure` and `Path=/`. A
/// text that no header can carry is refused with `InternalServerError`.
pub fn set_cookie(name: &str, value: &str) -> (result: Result<String, AppError>)
    ensures
        is_header_value(cookie_text(name@, value@)) ==> is_text(result, cookie_text(name@, value@)),
        !is_header_value(cookie_text(name@, value@)) ==> is_failure(
            result,
            ErrorKind::InternalServerError,
            bad_header_text(),
        ),
{
    let cookie = String::from_str(name).concat("=").concat(value).concat(
        "; SameSite=Lax; HttpOnly; Secure; Path=/",
    );
    if parses_as_header_value(cookie.as_str()) {
        Ok(cookie)
    } else {
        Err(AppError::InternalServerError(String::from_str("Failed to parse header value")))
    }
}

/// A cookie can be carried by a header exactly when its name and its value
/// can: the attributes never stand in the way.
pub proof fn law_cookie_is_valid_when_its_parts_are(name: Seq<char>, value: Seq<char>)
    ensures
        is_header_value(cookie_text(name, value)) <==> is_header_value(name) && is_header_value(
            value,
        ),
{
    let fixed = "="@;
    let attributes = cookie_attributes();
    reveal_strlit("=");
    reveal_strlit("; SameSite=Lax; HttpOnly; Secure; Path=/");
    assert(is_header_value(fixed));
    assert(is_header_value(attributes));
    let text = cookie_text(name, value);
    if is_header_value(name) && is_header_value(value) {
        assert forall|i: int| 0 <= i < text.len() implies is_header_char(#[trigger] text[i]) by {
            if i < name.len() {
                assert(text[i] == name[i]);
            } else if i < name.len() + 1 {
                assert(text[i] == fixed[i - name.len()]);
            } else if i < name.len() + 1 + value.len() {
                assert(text[i] == value[i - name.len() - 1]);
            } else {
                assert(text[i] == attributes[i - name.len() - 1 - value.len()]);
            }
        }
    }
    if is_header_value(text) {
        assert forall|i: int| 0 <= i < name.len() implies is_header_char(#[trigger] name[i]) by {
            assert(text[i] == name[i]);
        }
        assert forall|i: int| 0 <= i < value.len() implies is_header_char(#[trigger] value[i]) by {
            assert(text[i + name.len() + 1] == value[i]);
        }
    }
}

} // verus!
