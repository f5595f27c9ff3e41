//! Credential subsystem for a package registry: issuing, hashing and
//! recognising opaque bearer secrets (API tokens), together with the small
//! pure helpers of the keyword-tagging and artifact-location code around it.
//!
//! A secret is disclosed in plaintext exactly once, at issuance; only its
//! fixed-width digest ever reaches storage, and every later request is
//! verified by recomputing that digest and comparing for equality.

pub mod keyword;
pub mod token;
pub mod uploader;
