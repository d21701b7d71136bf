pub mod client;
pub mod input;
pub mod model;
pub mod registry;
pub mod selection;
pub mod text;
