pub mod contract;
pub mod decode;
pub mod error;
pub mod model;
pub mod msg;
pub mod response;
pub mod state;
pub mod theorems;

