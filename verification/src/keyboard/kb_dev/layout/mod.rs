pub mod default;

pub use default::{get_input_map, Layer};
