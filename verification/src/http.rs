use vstd::prelude::*;

verus! {

/// Status code of a response produced in the ordinary course of dispatch:
/// plugin responses and the fallback both carry a success status.
pub const STATUS_OK: u16 = 200;

/// Spec-level picture of a request: the plain values the core may read.
pub struct RequestModel {
    pub method: Seq<char>,
    pub path: Seq<char>,
    pub headers: Seq<(Seq<char>, Seq<char>)>,
    pub body: Seq<u8>,
}

/// Spec-level picture of a response: a status code and the body bytes.
pub struct ResponseModel {
    pub status: int,
    pub body: Seq<u8>,
}

/// An inbound request, reduced to the plain values the core reads: the
/// method and path of the request line, the headers, and the body, read
/// fully into memory before dispatch.
pub struct HttpRequest {
    pub method: String,
    pub path: String,
    pub headers: Vec<(String, String)>,
    pub body: Vec<u8>,
}

/// An outbound response: a status code and the body bytes.
pub struct HttpResponse {
    pub status: u16,
    pub body: Vec<u8>,
}

impl View for HttpRequest {
    type V = RequestModel;

    open spec fn view(&self) -> RequestModel {
        RequestModel {
            method: self.method@,
            path: self.path@,
            headers: self.headers@.map_values(|h: (String, String)| (h.0@, h.1@)),
            body: self.body@,
        }
    }
}

impl View for HttpResponse {
    type V = ResponseModel;

    open spec fn view(&self) -> ResponseModel {
        ResponseModel { status: self.status as int, body: self.body@ }
    }
}

impl HttpResponse {
    /// Build a success-status response from raw body bytes.
    pub fn from_bytes(body: Vec<u8>) -> (r: HttpResponse)
        ensures
            r@ == (ResponseModel { status: STATUS_OK as int, body: body@ }),
    {
        HttpResponse { status: STATUS_OK, body }
    }
}

} // verus!
