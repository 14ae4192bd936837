//! Font identities and font templates, as far as blob images depend on them.
//!
//! Nothing here reads a font. A rasterizer receives a template from the
//! resources it is given and is told when a font goes away.

use crate::identity::IdNamespace;
use std::sync::Arc;
use vstd::prelude::*;

verus! {

/// The identity of one font.
#[derive(Clone, Copy, Debug, PartialEq, Eq, Hash, Structural)]
pub struct FontKey(pub IdNamespace, pub u32);

/// The identity of one font at one size and with one set of rendering options.
#[derive(Clone, Copy, Debug, PartialEq, Eq, Hash, Structural)]
pub struct FontInstanceKey(pub IdNamespace, pub u32);

/// A font that the platform can open by itself.
#[derive(Clone, Debug)]
pub struct NativeFontHandle {
    pub pathname: String,
    pub index: u32,
}

/// Where the data of a font is found.
#[derive(Clone)]
pub enum FontTemplate {
    /// The bytes of a font file and the index of the face within it.
    Raw(Arc<Vec<u8>>, u32),
    /// A font of the platform.
    Native(NativeFontHandle),
}

} // verus!
