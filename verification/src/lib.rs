pub mod card;
pub mod ledger;
pub mod path;
pub mod sandbox;
pub mod text;
pub mod walls;
pub mod factory;
