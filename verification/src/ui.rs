pub mod app;
pub mod present;
