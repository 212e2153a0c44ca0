//! Firmware logic for the LEGO SPIKE Prime hub.
//!
//! The hub runs on an STM32F413: a bootloader, a resident debug monitor with a
//! serial shell, and applications that drive motors and lights. This library holds
//! what they decide and compute; it touches no hardware. A routine returns a plan,
//! the bus accesses, delays and messages it asks for, and takes what was loaded on
//! the way as arguments of its next step.
//!
//! - `plan`, `regs`: plans, what they do to registers, and the register map.
//! - `hex`, `decimal`, `words`: numbers and words as text.
//! - `clock`, `power`, `usb`, `button`, `motor`, `freeze`, `tlc5955`, `matrix`: the
//!   hub's hardware.
//! - `debug`, `breakpoint`, `memory`, `report`, `ports`, `upload`, `protect`,
//!   `command`, `shell`, `serial`, `console`: the monitor.
//! - `boot`, `hub`, `bare`, `ledtest`, `motortest`, `rng`, `sim`: the programs.
//! - `hold`: that none of them loses its power.
//! - `trace`: what the bus sees of the fixed plans, by address and value.
pub mod bare;
pub mod boot;
pub mod breakpoint;
pub mod button;
pub mod clock;
pub mod command;
pub mod console;
pub mod debug;
pub mod decimal;
pub mod freeze;
pub mod hex;
pub mod hold;
pub mod hub;
pub mod ledtest;
pub mod matrix;
pub mod memory;
pub mod motor;
pub mod motortest;
pub mod plan;
pub mod ports;
pub mod power;
pub mod protect;
pub mod regs;
pub mod report;
pub mod rng;
pub mod serial;
pub mod shell;
pub mod sim;
pub mod tlc5955;
pub mod trace;
pub mod upload;
pub mod usb;
pub mod words;
