pub mod address;
pub mod amount;
pub mod claim;
pub mod error;
pub mod initialize;
pub mod msg;
pub mod transfer;
