//! Guest environment builder, bzImage loader and exit dispatch for a minimal
//! single-vCPU hypervisor that boots Linux through the 64-bit boot protocol.

pub mod bootparam;
pub mod constants;
pub mod guest;
pub mod kvm;
pub mod linux_loader;
pub mod regs;
pub mod util;
