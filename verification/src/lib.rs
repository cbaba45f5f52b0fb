//! Resource-lifecycle layer for a small family of memory-mapped device
//! drivers: a revocable device-scoped container (`Devres`), a checked
//! memory-mapped I/O accessor (`IoMem`), an interrupt-registration guard
//! (`Registration`), and the platform-bus collaborators they are built on,
//! modeled as explicit state so that every operation carries a contract.

pub mod bus;
pub mod devres;
pub mod error;
pub mod irq;
pub mod ledpwm;
pub mod mem;
pub mod platform;
pub mod pushbutton;
pub mod resource;
