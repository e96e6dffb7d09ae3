//! Typed records for the script-filter results that the Alfred launcher reads,
//! and their JSON text.
//!
//! A caller builds a tree of records with the builder methods of `model` and
//! turns it into one JSON document with `AlfredItems::to_json`. The shape of
//! that document (which keys appear, under which names, in which order) is
//! stated by the spec functions of `json` and proved of the code that writes it.

pub mod encode;
pub mod writer;
pub mod model;
pub mod json;
pub mod laws;

pub use crate::encode::SerializationError;
pub use crate::writer::ObjectWriter;
pub use crate::model::AlfredItem;
pub use crate::model::AlfredItemIcon;
pub use crate::model::AlfredItemIconType;
pub use crate::model::AlfredItemMod;
pub use crate::model::AlfredItemMods;
pub use crate::model::AlfredItemText;
pub use crate::model::AlfredItemType;
pub use crate::model::AlfredItems;
