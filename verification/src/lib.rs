//! Register-level drivers for an Arm microcontroller's on-chip peripherals:
//! reset/clock control, general-purpose I/O, timers, a clocked master bus
//! (I2C-class), a synchronous shift-register bus (SPI-class), an asynchronous
//! serial bus (USART-class), and the interrupt controller.
//!
//! Each peripheral handle owns an image of its register block - one plain
//! word per hardware register - together with the wire-side byte queues of
//! the data-bearing peripherals.  Driver operations are verified against
//! that image: every bit and field write is stated exactly, every polling
//! wait is bounded by a fault timer, and every transfer says which bytes
//! moved.  The flag behaviour that the reference manual guarantees of the
//! hardware (a start condition consumed while the peripheral is enabled, a
//! receive flag raised while bytes are queued) is reflected by the image, so
//! the sequencing logic can be exercised and proved without a device.

pub mod common;
pub mod pointer;
pub mod rcc;
pub mod gpio;
pub mod timer;
pub mod i2c;
pub mod spi;
pub mod usart;
pub mod nvic;
pub mod axis;
pub mod board;
pub mod w5200;
