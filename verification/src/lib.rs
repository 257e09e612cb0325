pub mod heartbeat;
pub mod key;
pub mod keyboard;
pub mod matrix;
pub mod processor;
pub mod remote;
pub mod rgb;
pub mod rotary;
pub mod split;
pub mod status;
pub mod util;
