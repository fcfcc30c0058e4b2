pub mod client;
pub mod completion;
