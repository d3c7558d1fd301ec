//! Turning what the credential command produced into a token.
use vstd::prelude::*;
use vstd::utf8::{decode_utf8, valid_utf8};

use crate::error::ProxyError;

verus! {

/// The text with leading and trailing Unicode white space removed.
pub uninterp spec fn trimmed(s: Seq<char>) -> Seq<char>;

/// Relies on `String::from_utf8`: the bytes as text exactly when they are
/// valid UTF-8.
#[verifier::external_body]
fn utf8_text(bytes: Vec<u8>) -> (r: Option<String>)
    ensures
        r is Some <==> valid_utf8(bytes@),
        r is Some ==> r->Some_0@ == decode_utf8(bytes@),
{
    String::from_utf8(bytes).ok()
}

/// Relies on `str::trim`: white space (Unicode `White_Space`) removed from
/// both ends; the result depends on the text alone.
#[verifier::external_body]
fn trim_text(s: &str) -> (r: String)
    ensures
        r@ == trimmed(s@),
{
    s.trim().to_string()
}

/// The token from a finished credential command: its exit code (`None` when
/// a signal ended it) and its standard output. Only exit code 0 succeeds;
/// the output must be UTF-8 and is trimmed of surrounding white space.
pub fn credential_from_output(status: Option<i32>, stdout: Vec<u8>) -> (r: Result<String, ProxyError>)
    ensures
        status != Some(0i32) ==> r == Err::<String, ProxyError>(
            ProxyError::SubprocessFailed { status, output: stdout },
        ),
        status == Some(0i32) && !valid_utf8(stdout@) ==> r == Err::<String, ProxyError>(
            ProxyError::InvalidCredentialOutput,
        ),
        status == Some(0i32) && valid_utf8(stdout@) ==> r is Ok && r->Ok_0@ == trimmed(decode_utf8(stdout@)),
{
    let exited_ok = match status {
        Some(code) => code == 0,
        None => false,
    };
    if !exited_ok {
        return Err(ProxyError::SubprocessFailed { status, output: stdout });
    }
    match utf8_text(stdout) {
        Some(text) => Ok(trim_text(text.as_str())),
        None => Err(ProxyError::InvalidCredentialOutput),
    }
}

} // verus!
