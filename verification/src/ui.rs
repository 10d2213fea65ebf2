//! The local app's listening line: the runtime prints it once the socket
//! accepts, and the desktop shell reads the address from it.
use vstd::prelude::*;

use crate::text::{chars_of, owned, push_all, push_decimal, push_str, slice, starts_with, starts_with_str, string_of};

verus! {

/// The marker before the address on the ready line.
pub const READY_PREFIX: &'static str = "sovereign-ui listening on ";

/// The loopback address the app serves on `port`.
pub open spec fn local_url_spec(port: u16) -> Seq<char> {
    "http://127.0.0.1:"@ + crate::text::decimal(port as nat)
}

pub fn local_url(port: u16) -> (r: String)
    ensures
        r@ == local_url_spec(port),
{
    let mut v: Vec<char> = Vec::new();
    push_all(&mut v, "http://127.0.0.1:");
    push_decimal(&mut v, port as u64);
    string_of(&v)
}

/// The line the runtime prints once it listens on `port`.
pub fn ready_line(port: u16) -> (r: String)
    ensures
        r@ == READY_PREFIX@ + local_url_spec(port),
{
    let mut line = owned(READY_PREFIX);
    let url = local_url(port);
    push_str(&mut line, url.as_str());
    line
}

/// The address a ready line carries, or nothing for any other line.
pub fn ready_url(line: &str) -> (r: Option<String>)
    ensures
        starts_with(line@, READY_PREFIX@) ==> (r matches Some(u) && u@ == line@.skip(READY_PREFIX@.len() as int)),
        !starts_with(line@, READY_PREFIX@) ==> r is None,
{
    let v = chars_of(line);
    if !starts_with_str(&v, READY_PREFIX) {
        return None;
    }
    let p = chars_of(READY_PREFIX);
    let rest = slice(&v, p.len(), v.len());
    assert(rest@ =~= line@.skip(READY_PREFIX@.len() as int));
    Some(string_of(&rest))
}

} // verus!
