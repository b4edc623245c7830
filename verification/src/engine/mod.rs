pub mod core_engine;
pub mod fallback;
pub mod mock;
