//! Verified model of the STM32WLE5 support used by the LoRa-E5 boards: the
//! RCC/PWR register logic, the peripheral clock tree, the device signature,
//! the Sub-GHz radio virtual GPIOs and the SDI-12 driver and capsule.
pub mod bitfield;
pub mod rcc;
pub mod phclk;
pub mod pwr;
pub mod device_signature;
pub mod subghz_radio;
pub mod error;
pub mod hil;
pub mod sdi12;
pub mod sdi12_ents;
pub mod board;
