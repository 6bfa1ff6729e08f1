//! Drivers for the PSC3 microcontroller and its Cortex-M33 core: the Security
//! Attribution Unit, the Peripheral Protection Controller, the CPU subsystem's
//! vector table base, the EFUSE lifecycle stage, the flash (through the boot ROM's
//! routines) and the CRYPTOLITE true random number generator.
//!
//! Each driver decides from the register words that its caller reads, and gives
//! back the register operations (`regs::RegOp`) to perform, in order.
pub mod cryptolite;
pub mod efuse;
pub mod flash;
pub mod mxcm33;
pub mod ppc;
pub mod regs;
pub mod sau;
