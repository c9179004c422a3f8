pub mod laws;
pub mod reactor;
pub mod timer;
pub mod token;
