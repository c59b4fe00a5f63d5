use vstd::prelude::*;
use vstd::string::StrSliceExecFns;
use vstd::string::StringExecFns;
use vstd::utf8::encode_utf8;
use vstd::utf8::valid_utf8;
use vstd::utf8::decode_utf8;

use crate::http::{HttpRequest, HttpResponse, RequestModel, ResponseModel, STATUS_OK};
use crate::plugin::{Plugin, PluginError};

verus! {

/// What `String::from_utf8_lossy` decodes a byte sequence to.
pub uninterp spec fn lossy_decode(bytes: Seq<u8>) -> Seq<char>;

/// Relies on `String::from_utf8_lossy`: the decoding is a function of the
/// bytes alone, and bytes that are valid UTF-8 decode to exactly their
/// UTF-8 decoding, with no replacement.
#[verifier::external_body]
fn decode_body_text(bytes: &Vec<u8>) -> (r: String)
    ensures
        r@ == lossy_decode(bytes@),
        valid_utf8(bytes@) ==> r@ == decode_utf8(bytes@),
{
    String::from_utf8_lossy(bytes).into_owned()
}

/// The one path the echo plugin answers.
pub open spec fn echo_path() -> Seq<char> {
    "/echo"@
}

/// The echo plugin's response body for a request body: the text `Echo: `
/// followed by the body decoded as text, re-encoded as bytes.
pub open spec fn echo_body(body: Seq<u8>) -> Seq<u8> {
    encode_utf8("Echo: "@ + lossy_decode(body))
}

/// The echo plugin's full response for a request.
pub open spec fn echo_response(req: RequestModel) -> ResponseModel {
    ResponseModel { status: STATUS_OK as int, body: echo_body(req.body) }
}

/// Demonstration plugin: answers requests whose path is exactly `/echo`
/// by echoing the request body back as text.
pub struct EchoPlugin {
    initialized: bool,
}

impl EchoPlugin {
    pub fn new() -> (r: EchoPlugin)
        ensures
            !r.ready(),
    {
        EchoPlugin { initialized: false }
    }
}

impl Plugin for EchoPlugin {
    closed spec fn ready(&self) -> bool {
        self.initialized
    }

    open spec fn can_handle_spec(&self, req: RequestModel) -> bool {
        req.path == echo_path()
    }

    open spec fn handle_spec(&self, req: RequestModel) -> Option<ResponseModel> {
        Some(echo_response(req))
    }

    fn plugin_init(&mut self) {
        self.initialized = true;
    }

    fn plugin_is_ready(&self) -> (r: bool) {
        self.initialized
    }

    fn plugin_name(&self) -> (r: &str)
        ensures
            r@ == "EchoPlugin"@,
    {
        "EchoPlugin"
    }

    fn plugin_can_handle(&self, req: &HttpRequest) -> (r: bool) {
        let target: String = "/echo".to_owned();
        req.path == target
    }

    fn plugin_handle(&self, req: HttpRequest) -> (r: Result<HttpResponse, PluginError>) {
        let text = decode_body_text(&req.body);
        let msg = "Echo: ".to_owned().concat(text.as_str());
        let body = msg.as_str().as_bytes_vec();
        Ok(HttpResponse::from_bytes(body))
    }
}

} // verus!
