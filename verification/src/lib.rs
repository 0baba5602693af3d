//! A small helper library for single-shot HTTP requests.
//!
//! A request is described by a method, a URL string, optional query
//! parameters, an optional body and an optional content type.  The library
//! assembles these into a [`request::ComposedRequest`]: the URL is parsed and
//! the parameters are merged into its query string, the content-length header
//! value is computed (always set, zero when there is no body), and the content
//! type is attached only when one was given.  A transport hands its outcome
//! back as an [`exchange::TransportOutcome`], which
//! [`exchange::normalize`] turns into exactly one [`response::Response`] or
//! one [`error::RestError`], each failure mapped to the variant of the phase
//! that failed.

pub mod error;
pub mod form;
pub mod urls;
pub mod request;
pub mod response;
pub mod exchange;
