//! Feed handling: the XML event stream and the `podcast:` namespace pass.

pub mod xml;
pub mod namespace;
