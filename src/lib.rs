//! A small smart-home model: a house of rooms holding devices, and a report
//! generator that asks a pluggable information provider about every device.
pub mod decimal;
pub mod device;
pub mod house;
pub mod provider;
