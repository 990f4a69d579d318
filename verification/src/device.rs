//! The device-descriptor schema: passive data shapes describing an emulated
//! device profile. These records carry no invariants beyond optional-field
//! presence; the registry neither produces nor consumes them. The parts whose
//! geometry is integral live here; the screen block that carries a
//! device-pixel ratio is held by the serialization layer outside the library.

use vstd::prelude::*;

verus! {

/// Edge insets of a device outline image, in pixels.
#[derive(Debug, Clone)]
pub struct Insets {
    pub left: i32,
    pub top: i32,
    pub right: i32,
    pub bottom: i32,
}

/// An optional device outline image with its insets.
#[derive(Debug, Clone)]
pub struct Outline {
    pub image: Option<String>,
    pub insets: Option<Insets>,
}

/// One screen orientation: its size in pixels and an optional outline.
#[derive(Debug, Clone)]
pub struct Orientation {
    pub width: i32,
    pub height: i32,
    pub outline: Option<Outline>,
}

/// Structured user-agent metadata of a device profile.
#[derive(Debug, Clone)]
pub struct UserAgentMetadata {
    pub platform: String,
    pub platform_version: String,
    pub architecture: String,
    pub model: String,
    pub mobile: bool,
}

} // verus!
