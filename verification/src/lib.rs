pub mod driver;
pub mod drivers;
pub mod effects;
pub mod error;
pub mod hex;
pub mod scenario;
pub mod usb_monitor;
