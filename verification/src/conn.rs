pub mod conn;
pub mod connection;
pub mod fault;
pub mod status;
pub mod stream;
