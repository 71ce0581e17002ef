//! Plain, non-owning raw handle descriptors for the Web platform.
//!
//! The crate provides a small, closed family of copyable value types that
//! carry platform-native window/surface identifiers between independent
//! libraries (a windowing layer and a graphics backend) without either
//! depending on the other's types. The descriptors hold nothing but plain
//! integers; validity of an identifier is the issuing collaborator's
//! responsibility, with `0` reserved by convention as the "no handle"
//! sentinel.

pub mod web;

pub use web::Wbg02CanvasWindowHandle;
pub use web::Wbg02OffscreenCanvasWindowHandle;
pub use web::WebDisplayHandle;
pub use web::WebWindowHandle;
