//! Protocol logic for two I2C peripherals: an AHT20 humidity and temperature
//! sensor, and an HD44780 character display behind a PCF8574 I/O expander.
//!
//! The drivers never touch a bus. Each call hands back the bus operations
//! that carry it out, in order, and whoever owns the bus performs them.

pub mod bus;
pub mod controller;
pub mod aht20;
pub mod lcd1602a;
