//! Nodes of a binary decision tree: a leaf carries a prediction, an internal
//! node carries a split rule (feature index and threshold) and up to two
//! exclusively owned children.
pub mod node;
