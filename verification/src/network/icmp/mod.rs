pub mod packet;
pub mod provider;
pub mod unix;
pub mod windows;
