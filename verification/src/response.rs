//! Response synthesis. A successful persistence outcome answers with a
//! fixed, byte-for-byte constant 1x1 image; a failure answers with the
//! error's diagnostic text. The image carries no information: it only lets a
//! client-side image loader treat the request as satisfied.

use vstd::prelude::*;
use vstd::array::array_as_slice;
use vstd::slice::slice_to_vec;
use crate::persist::PersistError;

verus! {

/// The declared content type of a response body.
#[derive(Debug, PartialEq, Eq, Clone, Copy, Structural)]
pub enum ContentType {
    ImagePng,
    TextPlain,
}

/// A response body: either the constant image or diagnostic text.
#[derive(Debug, PartialEq, Eq)]
pub enum ResponseBody {
    Image(Vec<u8>),
    Text(String),
}

/// What the core hands the HTTP layer to send.
#[derive(Debug, PartialEq, Eq)]
pub struct HttpResponse {
    pub status: u16,
    pub content_type: ContentType,
    pub body: ResponseBody,
}

/// The mathematical value of a response body.
pub enum BodyModel {
    Image(Seq<u8>),
    Text(Seq<char>),
}

/// The mathematical value of a response.
#[verifier::ext_equal]
pub struct ResponseModel {
    pub status: int,
    pub content_type: ContentType,
    pub body: BodyModel,
}

impl View for ResponseBody {
    type V = BodyModel;

    open spec fn view(&self) -> BodyModel {
        match self {
            ResponseBody::Image(bytes) => BodyModel::Image(bytes@),
            ResponseBody::Text(text) => BodyModel::Text(text@),
        }
    }
}

impl View for HttpResponse {
    type V = ResponseModel;

    open spec fn view(&self) -> ResponseModel {
        ResponseModel {
            status: self.status as int,
            content_type: self.content_type,
            body: self.body@,
        }
    }
}

/// The bytes of the constant 1x1 transparent tracking image.
pub open spec fn png_pixel_spec() -> Seq<u8> {
    seq![
        0x89u8, 0x50u8, 0x4Eu8, 0x47u8, 0x0Du8, 0x0Au8, 0x1Au8, 0x0Au8, 0x00u8, 0x00u8, 0x00u8,
        0x0Du8, 0x49u8, 0x48u8, 0x44u8, 0x52u8, 0x00u8, 0x00u8, 0x00u8, 0x01u8, 0x00u8, 0x00u8,
        0x00u8, 0x01u8, 0x08u8, 0x06u8, 0x00u8, 0x00u8, 0x00u8, 0x1Fu8, 0x15u8, 0xC4u8, 0x89u8,
        0x00u8, 0x00u8, 0x00u8, 0x0Au8, 0x49u8, 0x44u8, 0x41u8, 0x54u8, 0x78u8, 0x9Cu8, 0x63u8,
        0x00u8, 0x01u8, 0x00u8, 0x00u8, 0x05u8, 0x00u8, 0x01u8, 0x0Du8, 0x0Au8, 0x2Du8, 0xB4u8,
        0x00u8, 0x00u8, 0x00u8, 0x00u8, 0x49u8, 0x45u8, 0x4Eu8, 0x44u8, 0xAEu8, 0x42u8, 0x60u8,
        0x82u8,
    ]
}

/// The constant tracking image, identical on every successful response.
pub fn png_pixel() -> (r: Vec<u8>)
    ensures
        r@ == png_pixel_spec(),
{
    let bytes: [u8; 67] = [
        0x89u8, 0x50u8, 0x4Eu8, 0x47u8, 0x0Du8, 0x0Au8, 0x1Au8, 0x0Au8, 0x00u8, 0x00u8, 0x00u8,
        0x0Du8, 0x49u8, 0x48u8, 0x44u8, 0x52u8, 0x00u8, 0x00u8, 0x00u8, 0x01u8, 0x00u8, 0x00u8,
        0x00u8, 0x01u8, 0x08u8, 0x06u8, 0x00u8, 0x00u8, 0x00u8, 0x1Fu8, 0x15u8, 0xC4u8, 0x89u8,
        0x00u8, 0x00u8, 0x00u8, 0x0Au8, 0x49u8, 0x44u8, 0x41u8, 0x54u8, 0x78u8, 0x9Cu8, 0x63u8,
        0x00u8, 0x01u8, 0x00u8, 0x00u8, 0x05u8, 0x00u8, 0x01u8, 0x0Du8, 0x0Au8, 0x2Du8, 0xB4u8,
        0x00u8, 0x00u8, 0x00u8, 0x00u8, 0x49u8, 0x45u8, 0x4Eu8, 0x44u8, 0xAEu8, 0x42u8, 0x60u8,
        0x82u8,
    ];
    let r = slice_to_vec(array_as_slice(&bytes));
    proof {
        assert(r@ =~= png_pixel_spec());
    }
    r
}

/// What the synthesized response is for a given persistence result: the
/// constant image with status 200 on success; the diagnostic text with
/// status 500 on failure, whichever kind the failure is.
pub open spec fn synthesize_spec(result: Result<(), PersistError>) -> ResponseModel {
    match result {
        Result::Ok(u) => ResponseModel {
            status: 200,
            content_type: ContentType::ImagePng,
            body: BodyModel::Image(png_pixel_spec()),
        },
        Result::Err(e) => ResponseModel {
            status: 500,
            content_type: ContentType::TextPlain,
            body: BodyModel::Text(e.diagnostic_spec()),
        },
    }
}

/// Synthesizes the HTTP reply for a persistence result.
pub fn statistics_result_to_response(result: Result<(), PersistError>) -> (r: HttpResponse)
    ensures
        r@ == synthesize_spec(result),
{
    match result {
        Result::Ok(u) => HttpResponse {
            status: 200,
            content_type: ContentType::ImagePng,
            body: ResponseBody::Image(png_pixel()),
        },
        Result::Err(e) => HttpResponse {
            status: 500,
            content_type: ContentType::TextPlain,
            body: ResponseBody::Text(e.diagnostic()),
        },
    }
}

/// A row-count mismatch and an execution failure are indistinguishable to
/// the response synthesizer but for their diagnostic text: same status, same
/// content type, both a text body.
pub proof fn lemma_failures_alike(e1: PersistError, e2: PersistError)
    ensures
        synthesize_spec(Err(e1)).status == synthesize_spec(Err(e2)).status,
        synthesize_spec(Err(e1)).content_type == synthesize_spec(Err(e2)).content_type,
        synthesize_spec(Err(e1)).body is Text && synthesize_spec(Err(e2)).body is Text,
{
}

} // verus!
