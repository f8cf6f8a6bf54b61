//! Circuit mode control entity: calls tracked by the call control sub-entity.

pub mod call;
