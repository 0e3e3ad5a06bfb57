//! Verified URL validation: the parsing, checking and default-substitution logic of
//! the `url` and `multi-host-url` validators, and the `bool` validator's settings.
//! Python objects stay outside this crate; the URL grammar itself is the `url` crate's.

pub mod errors;
pub mod parsed_url;
pub mod scheme_set;
pub mod validators;
