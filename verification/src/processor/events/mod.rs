pub mod none;
pub mod replace;
pub mod system;
