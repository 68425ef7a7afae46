//! Hardware abstraction layer for the GD32VF103 family of RISC-V
//! microcontrollers.
//!
//! The heart of the crate is the USB full-speed device controller driver in
//! [`usbfs`]. The driver's decisions — endpoint allocation, FIFO memory
//! partitioning, transfer setup, event translation — are written against an
//! explicit model of the controller's register blocks and FIFO memory, and
//! every operation carries a contract describing exactly what it does to that
//! model. A thin unverified bridge (outside this crate) mirrors the model
//! onto the memory-mapped hardware.
//!
//! Supporting peripherals — clock tree configuration, the flash programmer,
//! the interrupt controller's level/priority encoding, ADC and USART
//! configuration — follow the same pattern.

pub mod adc;
pub mod afio;
pub mod backup_domain;
pub mod can;
pub mod clock;
pub mod delay;
pub mod eclic;
pub mod flash;
pub mod gpio;
pub mod pwm;
pub mod rcu;
pub mod serial;
pub mod time;
pub mod timer;
pub mod usbfs;
