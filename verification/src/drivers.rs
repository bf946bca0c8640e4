pub mod native_effect;
pub mod simagic_driver;
