//! The upload side of the operation: decoding the payload and laying out the
//! multipart request that the host transmits.

use vstd::prelude::*;
use crate::codec::{base64_decoded, decode_failure_message, decode_image};

verus! {

/// The fixed endpoint that the deployed operation posts to.
pub open spec fn default_endpoint() -> Seq<char> {
    "https://whiskersapi-1199f3802ddf.herokuapp.com/upload"@
}

/// A fully determined multipart upload: a text field `name` with value
/// `image`, and a file part `file` holding the decoded image bytes under the
/// filename `image.png` with media type `image/png`.
pub struct UploadRequest {
    pub field_name: String,
    pub field_value: String,
    pub file_field_name: String,
    pub file_name: String,
    pub media_type: String,
    pub bytes: Vec<u8>,
    pub url: String,
}

impl UploadRequest {
    /// Every part of the form except the bytes is fixed by the protocol.
    pub open spec fn wf(self) -> bool {
        &&& self.field_name@ == "name"@
        &&& self.field_value@ == "image"@
        &&& self.file_field_name@ == "file"@
        &&& self.file_name@ == "image.png"@
        &&& self.media_type@ == "image/png"@
    }
}

/// The one configuration value of the operation: the endpoint URL to post to.
pub struct UploadTranslator {
    pub endpoint: String,
}

impl UploadTranslator {
    /// A translator aimed at the fixed deployment endpoint.
    pub fn new() -> (r: Self)
        ensures
            r.endpoint@ == default_endpoint(),
    {
        UploadTranslator {
            endpoint: "https://whiskersapi-1199f3802ddf.herokuapp.com/upload".to_owned(),
        }
    }

    /// A translator aimed at a caller-chosen endpoint.
    pub fn with_endpoint(endpoint: String) -> (r: Self)
        ensures
            r.endpoint@ == endpoint@,
    {
        UploadTranslator { endpoint }
    }

    /// Decode the payload and lay out the multipart request. A payload that is
    /// not valid base64 yields the decode error and nothing to transmit, so no
    /// network request can follow from it.
    pub fn prepare(&self, image: &str) -> (r: Result<UploadRequest, String>)
        ensures
            match r {
                Ok(req) => {
                    &&& req.wf()
                    &&& base64_decoded(image@) == Some(req.bytes@)
                    &&& req.url@ == self.endpoint@
                },
                Err(e) => {
                    &&& base64_decoded(image@) is None
                    &&& e@ == decode_failure_message()
                },
            },
    {
        let bytes = match decode_image(image) {
            Ok(b) => b,
            Err(e) => {
                return Err(e);
            },
        };
        Ok(
            UploadRequest {
                field_name: "name".to_owned(),
                field_value: "image".to_owned(),
                file_field_name: "file".to_owned(),
                file_name: "image.png".to_owned(),
                media_type: "image/png".to_owned(),
                bytes,
                url: self.endpoint.clone(),
            },
        )
    }
}

} // verus!
