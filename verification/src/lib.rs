pub mod gateway;
pub mod reply;
