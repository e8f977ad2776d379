//! Soil-moisture readings and Wi-Fi bring-up decisions for an ESP32-C3
//! garden controller.
//!
//! The hardware itself (ADC, radio, sockets) is driven elsewhere; this crate
//! holds the data types, validation rules and the decision logic that drive
//! the device, each with a verified contract.

pub mod garden;
pub mod wifi_control;
