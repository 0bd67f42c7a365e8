//! Client-side protocol logic for uploading a clip to the hosting service:
//! building the upload request descriptor and classifying the server's answer.

pub mod digits;
pub mod request;
pub mod response;
