pub mod channel;
pub mod driver;
pub mod pacing;
pub mod pose;
pub mod project;
