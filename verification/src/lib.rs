//! A library for serving derived (resized, rotated, cropped) versions of
//! stored or remotely fetched images.
//!
//! The library covers the decision core of such a service: a small command
//! language that parses a `+`-separated chain of transformation tokens into a
//! typed operation list, a resolution-tier selector that decides whether a
//! cached lower-resolution derivative can satisfy a request, a source
//! resolver that picks the concrete asset (or decides that a remote fetch is
//! needed and validates its outcome), and the exact geometry of each
//! transformation step. Pixel work, metadata probing and transport are left
//! to callers.

pub mod cachekey;
pub mod load;
pub mod matchers;
pub mod store;
pub mod text;
pub mod tier;
pub mod transformation;
