//! The HTTP response the relay hands back, and its mathematical model.

use vstd::prelude::*;

verus! {

/// A response as the listener will write it: a status code, the two
/// headers the relay ever sets (each absent or present), and the body
/// bytes. No other header is ever customised.
pub struct HttpResponse {
    pub status: u16,
    pub content_type: Option<String>,
    pub allow_origin: Option<String>,
    pub body: Vec<u8>,
}

/// The model of a response: the same four pieces over mathematical types.
#[verifier::ext_equal]
pub struct ResponseModel {
    pub status: int,
    pub content_type: Option<Seq<char>>,
    pub allow_origin: Option<Seq<char>>,
    pub body: Seq<u8>,
}

impl View for HttpResponse {
    type V = ResponseModel;

    open spec fn view(&self) -> ResponseModel {
        ResponseModel {
            status: self.status as int,
            content_type: match self.content_type {
                Option::Some(s) => Option::Some(s@),
                Option::None => Option::None,
            },
            allow_origin: match self.allow_origin {
                Option::Some(s) => Option::Some(s@),
                Option::None => Option::None,
            },
            body: self.body@,
        }
    }
}

} // verus!
