use vstd::prelude::*;

verus! {

/// Status code of a request that was handled.
pub const STATUS_OK: u16 = 200;

/// Status code of a request whose payload was rejected.
pub const STATUS_BAD_REQUEST: u16 = 400;

/// Status code of a request that failed on the server's side.
pub const STATUS_INTERNAL_SERVER_ERROR: u16 = 500;

/// What a handler answers: a status code and a body.
pub struct Response {
    pub status: u16,
    pub body: Vec<u8>,
}

/// The mathematical value of a response.
pub struct ResponseView {
    pub status: u16,
    pub body: Seq<u8>,
}

impl View for Response {
    type V = ResponseView;

    open spec fn view(&self) -> ResponseView {
        ResponseView { status: self.status, body: self.body@ }
    }
}

/// A response with the given status and an empty body.
pub open spec fn empty_response(status: u16) -> ResponseView {
    ResponseView { status, body: Seq::empty() }
}

impl Response {
    /// A response with the given status and an empty body.
    pub fn empty(status: u16) -> (r: Response)
        ensures
            r@ == empty_response(status),
    {
        let r = Response { status, body: Vec::new() };
        assert(r@.body =~= Seq::<u8>::empty());
        r
    }

    /// The value of the `content-length` header that goes with this response.
    pub fn content_length(&self) -> (r: usize)
        ensures
            r == self.body@.len(),
    {
        self.body.len()
    }

    /// Whether the status is in the success class (2xx).
    pub fn is_success(&self) -> (r: bool)
        ensures
            r == (200 <= self.status && self.status < 300),
    {
        200 <= self.status && self.status < 300
    }
}

} // verus!
