//! The URI under which a path is requested from a Unix socket.

use crate::api::error::{Error, InvalidUri};
use vstd::prelude::*;
use vstd::string::StringSliceAdditionalSpecFns;

verus! {

/// `hyper::Uri`, a parsed URI. Nothing is known of what is inside.
#[verifier::external_type_specification]
#[verifier::external_body]
pub struct ExUri(hyper::Uri);

/// The longest URI that can be sent, in bytes.
pub const MAX_URI_LEN: usize = 65534;

/// The bytes that may stand in the path of a request target: the visible
/// ASCII characters but `#`, `<`, `>`, `?` and the backtick, and every byte
/// of a character beyond ASCII.
pub open spec fn is_path_byte(b: u8) -> bool {
    ||| b == 0x21
    ||| b == 0x22
    ||| 0x24 <= b <= 0x3b
    ||| b == 0x3d
    ||| 0x40 <= b <= 0x5f
    ||| 0x61 <= b <= 0x7e
    ||| b >= 0x80
}

/// The length of the URI for a path on a socket: the scheme and its
/// separator, two hexadecimal digits for each byte of the socket's path, a
/// port, and the path.
pub open spec fn uri_len(socket: Seq<u8>, path: Seq<u8>) -> nat {
    9 + 2 * socket.len() + path.len()
}

/// What is wrong with a path as the target of a request to a socket, if
/// anything is. The first fault that applies is reported: a path that is not
/// absolute, then a byte that may not stand in a path, then the length.
pub open spec fn fault_in(socket: Seq<u8>, path: Seq<u8>) -> Option<InvalidUri> {
    if path.len() == 0 || path[0] != 0x2f {
        Some(InvalidUri::NotAbsolute)
    } else if exists|i: int| 0 <= i < path.len() && !is_path_byte(#[trigger] path[i]) {
        Some(InvalidUri::InvalidCharacter)
    } else if uri_len(socket, path) > MAX_URI_LEN {
        Some(InvalidUri::TooLong)
    } else {
        None
    }
}

/// The URI that addresses a path on the Unix socket at a socket path: the
/// scheme `unix`, the socket path in hexadecimal digits as the host, port 0,
/// and the path.
pub uninterp spec fn unix_uri_of(socket: Seq<u8>, path: Seq<u8>) -> hyper::Uri;

/// `hyperlocal::Uri::new`, converted to the URI type of `hyper`: the URI that
/// addresses `path` on the Unix socket at `socket`. The outside function
/// panics where the text it assembles is not a URI; that cannot happen for an
/// absolute path of path bytes within the length limit.
#[verifier::external_body]
fn unix_uri(socket: &str, path: &str) -> (uri: hyper::Uri)
    requires
        fault_in(socket.spec_bytes(), path.spec_bytes()) is None,
    ensures
        uri == unix_uri_of(socket.spec_bytes(), path.spec_bytes()),
{
    hyperlocal::Uri::new(socket, path).into()
}

fn path_byte(b: u8) -> (r: bool)
    ensures
        r == is_path_byte(b),
{
    b == 0x21 || b == 0x22 || (0x24 <= b && b <= 0x3b) || b == 0x3d || (0x40 <= b && b <= 0x5f) || (
    0x61 <= b && b <= 0x7e) || b >= 0x80
}

/// Looks for a fault in a path as the target of a request to a socket.
pub fn check_target(socket: &str, path: &str) -> (r: Option<InvalidUri>)
    ensures
        r == fault_in(socket.spec_bytes(), path.spec_bytes()),
{
    let bytes = path.as_bytes();
    if bytes.len() == 0 || bytes[0] != 0x2f {
        return Some(InvalidUri::NotAbsolute);
    }
    let mut i: usize = 0;
    while i < bytes.len()
        invariant
            i <= bytes.len(),
            bytes@ == path.spec_bytes(),
            bytes@.len() > 0 && bytes@[0] == 0x2f,
            forall|k: int| 0 <= k < i ==> is_path_byte(#[trigger] bytes@[k]),
        decreases bytes.len() - i,
    {
        if !path_byte(bytes[i]) {
            assert(!is_path_byte(bytes@[i as int]));
            return Some(InvalidUri::InvalidCharacter);
        }
        i += 1;
    }
    let socket_len = socket.as_bytes().len();
    if socket_len > MAX_URI_LEN / 2 || bytes.len() > MAX_URI_LEN || 9 + 2 * socket_len
        + bytes.len() > MAX_URI_LEN {
        return Some(InvalidUri::TooLong);
    }
    None
}

/// The URI that addresses `path` on the Unix socket at `socket`, or the
/// fault that keeps the path from being a request target.
pub fn socket_uri(socket: &str, path: &str) -> (r: Result<hyper::Uri, Error>)
    ensures
        match fault_in(socket.spec_bytes(), path.spec_bytes()) {
            Some(fault) => r == Err::<hyper::Uri, Error>(Error::UriError(fault)),
            None => r == Ok::<hyper::Uri, Error>(
                unix_uri_of(socket.spec_bytes(), path.spec_bytes()),
            ),
        },
{
    match check_target(socket, path) {
        Some(fault) => Err(Error::UriError(fault)),
        None => Ok(unix_uri(socket, path)),
    }
}

} // verus!
