//! A verified model of an "unstable API" attribute: a source-to-source
//! transformation that takes one public item of a crate and produces two
//! conditionally compiled variants of it, keyed on a feature flag.
//!
//! The `item_like` module is the item abstraction layer: it models the nine
//! supported kinds of items (their attribute lists, visibility qualifiers and,
//! for structs, field visibilities) and the operations the transformation
//! needs on them. The `unstable` module is the expansion engine: from the
//! attribute's arguments and one item it derives the feature-enabled and the
//! feature-disabled variant. The `example` module holds specimen declarations
//! of the shape the attribute is meant for; the tests run the engine on their
//! models.

pub mod example;
pub mod item_like;
pub mod unstable;
