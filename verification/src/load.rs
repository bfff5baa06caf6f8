use crate::err_tools::ErrorX;
use vstd::prelude::*;
use vstd::string::StringExecFns;
use vstd::utf8::{decode_utf8, valid_utf8};

verus! {

/// The message reported when the target could not be located on disk.
pub open spec fn locate_err_msg(name: Seq<char>) -> Seq<char> {
    "File <"@ + name + "> could not be located!"@
}

/// The message reported when the target's bytes are not valid UTF-8.
pub open spec fn utf8_err_msg(name: Seq<char>) -> Seq<char> {
    "File <"@ + name + "> does not hold valid UTF-8 text!"@
}

/// Relies on String::from_utf8: it succeeds exactly on valid UTF-8 input, and
/// the string it returns is that input's decoding.
#[verifier::external_body]
fn string_from_utf8(bytes: Vec<u8>) -> (r: Option<String>)
    ensures
        r is Some <==> valid_utf8(bytes@),
        r matches Some(s) ==> s@ == decode_utf8(bytes@),
{
    match String::from_utf8(bytes) {
        Ok(s) => Some(s),
        Err(_) => None,
    }
}

/// Builds an error whose message is `head`, then `file_name`, then `tail`.
fn framed_error(head: &str, file_name: &String, tail: &str) -> (e: Box<ErrorX>)
    ensures
        e@ == head@ + file_name@ + tail@,
{
    let mut m = String::from_str(head);
    m.append(file_name.as_str());
    m.append(tail);
    ErrorX::new_box(m.as_str())
}

/// File Load: turns what came back from reading the located target wholesale
/// into the next text snapshot. `located` is `None` when locating `file_name`
/// yielded no match, and otherwise holds the raw bytes read. The bytes become
/// a snapshot exactly when they decode as UTF-8; anything else is refused with
/// a message naming the file.
pub fn get_file(file_name: &String, located: Option<Vec<u8>>) -> (r: Result<String, Box<ErrorX>>)
    ensures
        located is None ==> (r matches Err(e) && e@ == locate_err_msg(file_name@)),
        located matches Some(bytes) ==> {
            &&& r is Ok <==> valid_utf8(bytes@)
            &&& (r matches Ok(s) ==> s@ == decode_utf8(bytes@))
            &&& (r matches Err(e) ==> e@ == utf8_err_msg(file_name@))
        },
{
    match located {
        None => Err(framed_error("File <", file_name, "> could not be located!")),
        Some(bytes) => match string_from_utf8(bytes) {
            Some(s) => Ok(s),
            None => Err(framed_error("File <", file_name, "> does not hold valid UTF-8 text!")),
        },
    }
}

} // verus!
