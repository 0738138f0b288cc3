//! Typed client library for the imgflip meme-generation REST API.
//!
//! The library models the request and response data of the API, builds
//! caption requests through builders, encodes them as
//! `application/x-www-form-urlencoded` bodies, and decodes the service's
//! success/failure response envelope into typed values or typed errors.
//! The HTTP transport itself lives outside the library; callers hand the
//! library response bodies as structured JSON values and send the bodies
//! the library encodes.

pub mod envelope;
pub mod error;
pub mod form;
pub mod json;
pub mod model;
pub mod responses;

pub use envelope::Response;
pub use envelope::decode_caption_response;
pub use envelope::decode_memes_response;
pub use envelope::decode_response;
pub use envelope::err_for_failure;
pub use error::Error;
pub use error::error_for_status;
pub use form::encode_caption_boxes_request;
pub use form::encode_image_caption_request;
pub use form::encode_top_bottom_request;
pub use form::font_name;
pub use json::JsonMember;
pub use json::JsonValue;
pub use model::CaptionBox;
pub use model::CaptionBoxBuilder;
pub use model::CaptionBoxesRequest;
pub use model::CaptionBoxesRequestBuilder;
pub use model::CaptionFont;
pub use model::ImageCaptionRequest;
pub use model::TopBottomCaptionRequest;
pub use responses::CaptionImageResponse;
pub use responses::MemeTemplate;
pub use responses::MemeTemplatesData;
