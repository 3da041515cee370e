pub mod driver;
pub mod transport;
