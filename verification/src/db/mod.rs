pub mod connect;
pub mod listing;
pub mod rows;
pub mod seed;
pub mod subscribers;
