pub mod declare;
pub mod del;
pub mod interest;
pub mod network;
pub mod transport;
