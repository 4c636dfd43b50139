pub mod decimal;
pub mod demos;
pub mod effects;
pub mod input;
pub mod strutil;
pub mod system;
pub mod textures;
pub mod utils;
