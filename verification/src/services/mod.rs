//! What the pipeline needs from outside services.

pub mod completion;
