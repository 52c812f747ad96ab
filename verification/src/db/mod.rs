//! The durable records and the store that keeps them.

pub mod laws;
pub mod model;
pub mod models;
pub mod queries;
pub mod timestamp;

pub use model::StoreModel;
pub use models::{Conversation, ConversationView, StoredMessage, StoredMessageView};
pub use queries::ConversationStore;
