use vstd::prelude::*;
use vstd::string::StringExecFns;

use crate::types::Context;
use crate::types::Event;

verus! {

/// The text that decoding a byte sequence as UTF-8 with replacement
/// yields; it is a function of the bytes alone.
pub uninterp spec fn utf8_lossy(bytes: Seq<u8>) -> Seq<char>;

/// Relies on `String::from_utf8_lossy`: decodes the bytes as UTF-8,
/// substituting the replacement character for invalid sequences. The
/// result depends on the bytes alone, and no bytes decode to no text.
#[verifier::external_body]
fn bytes_to_text(bytes: &Vec<u8>) -> (r: String)
    ensures
        r@ == utf8_lossy(bytes@),
        bytes@.len() == 0 ==> r@.len() == 0,
{
    String::from_utf8_lossy(bytes).into_owned()
}

/// Greets the caller, naming the payload when the request carries one.
pub fn say_hello(event: Event, _ctx: Context) -> (r: String)
    ensures
        r@ == match event.data {
            Some(d) => "Hello, "@ + utf8_lossy(d@),
            None => "Hello"@,
        },
{
    match event.data {
        Some(name) => {
            let text = bytes_to_text(&name);
            "Hello, ".to_owned().concat(text.as_str())
        },
        None => "Hello".to_owned(),
    }
}

/// Sees the caller off, naming the payload when the request carries one.
pub fn say_goodbye(event: Event, _ctx: Context) -> (r: String)
    ensures
        r@ == match event.data {
            Some(d) => "Goodbye, "@ + utf8_lossy(d@),
            None => "Goodbye"@,
        },
{
    match event.data {
        Some(name) => {
            let text = bytes_to_text(&name);
            "Goodbye, ".to_owned().concat(text.as_str())
        },
        None => "Goodbye".to_owned(),
    }
}

/// Echoes the request payload as text. The contract demands a payload: a
/// call without one is outside it, and aborts at run time.
pub fn echo_or_panic(event: Event, _ctx: Context) -> (r: String)
    requires
        event.data is Some,
    ensures
        event.data matches Some(d) ==> r@ == utf8_lossy(d@),
{
    let data = event.data.unwrap();
    bytes_to_text(&data)
}

} // verus!
