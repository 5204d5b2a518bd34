//! Model and control logic for Corsair Void wireless headsets as exposed by
//! the kernel driver through sysfs attribute files.
//!
//! The library holds the verified core: the battery-status codec, the device
//! record builder, the enumerator over attribute snapshots, and the planning
//! of write commands. Reading and writing the actual attribute files is left
//! to the surrounding binary, which hands the library plain text values.

pub mod battery;
pub mod commands;
pub mod device;
pub mod text;
