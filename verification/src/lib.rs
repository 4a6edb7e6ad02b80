//! Control logic of the Pandora STM32L475 board samples: the fault report,
//! the LED blinkers, the debounced key, the serial echo and the ICM20608
//! motion-sensor driver, each as a state machine whose hardware actions are
//! carried out by the firmware around it.

pub mod blinky;
pub mod echo;
pub mod fault;
pub mod icm20608;
pub mod key;
pub mod level;
pub mod rgb;

pub use fault::{FaultFrame, HardFault};
pub use level::Level;
