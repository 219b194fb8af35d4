//! Guild Wars 2 fashion templates: chat link codec, template algebra, names, and
//! the steps of the fashion service.
pub mod le;
pub mod skins;
pub mod slots;
pub mod template;
pub mod chatlink;
pub mod error;
pub mod ids;
pub mod slot_type;
pub mod text;
pub mod names;
pub mod fashion;
pub mod gw2;
pub mod gw2_data;
pub mod filters;
pub mod fixtures;
pub mod models;
pub mod service;
pub mod secret;
