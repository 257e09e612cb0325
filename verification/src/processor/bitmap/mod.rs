pub mod debounce;
pub mod none;
