//! Specimen declarations in the shape the attribute is meant for: a small
//! public API with stable and not-yet-stable parts. The declarations here
//! are placeholders — what matters about each is its kind, its visibility
//! and its attributes, and the tests build exactly those as [`Item`] models
//! and run the expansion engine on them.
//!
//! [`Item`]: crate::item_like::Item

use vstd::prelude::*;

verus! {

/// A stable function
///
/// This function is stable
pub fn stable_function() {
}

/// A function of the kind a consumer keeps in a private module
///
/// Restricting it further is the designed no-op of the transformation.
pub fn private_function() {
}

/// A stable struct
///
/// This struct is stable
pub struct StableStruct {
    pub x: u8,
}

impl StableStruct {
    /// A stable method
    ///
    /// This method is stable
    pub fn stable_method(&self) -> (r: u8)
        ensures
            r == self.x,
    {
        self.x
    }
}

/// A struct not yet ready for general use
///
/// This struct is unstable
pub struct UnstableStruct {
    pub x: u8,
}

impl UnstableStruct {
    /// A stable method
    ///
    /// This method is stable
    pub fn stable_method(&self) -> (r: u8)
        ensures
            r == self.x,
    {
        self.x
    }
}

/// A struct not yet ready for general use, with a tracking issue
///
/// This struct is unstable and has an issue link.
pub struct UnstableStructWithIssue {
    pub x: u8,
}

/// A stable trait
///
/// This trait is stable
pub trait StableTrait {
    /// A stable trait method
    ///
    /// This method is stable.
    fn stable_trait_method(&self);
}

/// A trait not yet ready for general use
///
/// This trait is unstable
pub trait UnstableTrait {
    /// A stable trait method
    ///
    /// This method is stable.
    fn stable_trait_method(&self);
}

/// A stable enum
///
/// This enum is stable.
pub enum StableEnum {
    /// An enum variant
    ///
    /// This variant is stable.
    Variant,
}

/// An enum not yet ready for general use
///
/// This enum is unstable.
pub enum UnstableEnum {
    /// An enum variant
    ///
    /// This variant is stable.
    Variant,
}

} // verus!
