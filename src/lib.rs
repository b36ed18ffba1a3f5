//! Hardware bring-up logic of a small x86 kernel: PCI configuration-space
//! enumeration, NVMe controller initialisation as a state machine, and the
//! text-mode console used for diagnostics.
//!
//! Every port or memory-mapped access is performed by the caller: the library
//! says which access comes next and decides what to do with the value read.
pub mod pci;
pub mod poll;
pub mod nvme;
pub mod driver;
pub mod logger;
