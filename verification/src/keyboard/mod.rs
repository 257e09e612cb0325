pub mod default;
pub mod kb_dev;
pub mod quadax_rift;
