pub mod gpio;
pub mod twi;
pub mod uart;
