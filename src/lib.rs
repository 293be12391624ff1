//! Verified core of a graphics hardware abstraction layer over two native
//! back ends: an immediate-context one, driven by replaying recorded
//! commands (`command`, `execute`, `update`), and an explicit heap and
//! descriptor based one (`descriptor`, `device`, `pipeline`). The library
//! decides every native call and check; the caller makes the calls.

pub mod command;
pub mod descriptor;
pub mod device;
pub mod execute;
pub mod memory;
pub mod pipeline;
pub mod update;
