//! Protocol ids of entity types, blocks and items.

pub mod entity_type;
pub mod block_id;
pub mod item_id;
