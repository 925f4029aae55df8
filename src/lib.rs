pub mod callback;
pub mod error;
pub mod graphics;
pub mod handle;
pub mod math;
pub mod print;
pub mod runtime;
pub mod system;
