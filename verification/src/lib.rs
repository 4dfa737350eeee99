//! Translation of an image-upload round trip: base64 decoding of the payload,
//! construction of the multipart request description, and classification of
//! the remote endpoint's reply into a success or an error string.

pub mod codec;
pub mod json;
pub mod multipart;
pub mod request;
pub mod response;
pub mod text;
