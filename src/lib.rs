//! Finding USB devices in the kernel's device registry and switching them on and off
//! by binding and unbinding their driver.

pub mod actions;
pub mod device;
pub mod privileges;
