pub mod text;
pub mod data;
pub mod format;
pub mod products;
pub mod xml;
pub mod utils;
pub mod loadout;
pub mod model;
pub mod naming;
pub mod fleet;
pub mod predicate;
pub mod duplicate;
