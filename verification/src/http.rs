use vstd::prelude::*;

verus! {

/// One HTTP header: its name and its raw value bytes.
pub struct HttpHeader {
    pub name: String,
    pub value: Vec<u8>,
}

/// The response that a handler answers with: status, headers in order, body.
pub struct Reply {
    pub status: u16,
    pub headers: Vec<HttpHeader>,
    pub body: String,
}

} // verus!
