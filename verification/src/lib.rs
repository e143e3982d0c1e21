//! A client library for the ImageKit media service.
//!
//! Verified here is everything that is decided without a request: search
//! expressions ([`management::list_files`]), image transformations and the
//! URLs that carry them ([`url`]), the parameters and addresses of the
//! requests, and how a failure status is named ([`error`]).

pub mod client;
pub mod delete;
pub mod error;
pub mod management;
pub mod text;
pub mod upload;
pub mod url;

pub use client::ImageKit;
pub use management::file_details;
pub use url::Transformation;
pub use url::TransformationPosition;
pub use url::Url;
