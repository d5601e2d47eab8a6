//! The checking and bookkeeping core of an OP-TEE style trusted-application
//! host: message and system-call decoding, shared-memory registration, RPC
//! continuation state, virtual-address allocation and page-table decisions.
//!
//! Nothing in this crate touches physical memory, devices or files. Where such
//! a step is needed, a function hands back what to do next and takes the
//! outcome as an argument.

pub mod addr;
pub mod base64_data;
pub mod bytes;
pub mod codes;
pub mod id_pool;
pub mod loader;
pub mod msg;
pub mod msg_handler;
pub mod msg_update;
pub mod numbers;
pub mod page_ops;
pub mod page_ranges;
pub mod page_walk;
pub mod paging;
pub mod params;
pub mod phys;
pub mod rpc_context;
pub mod runner;
pub mod shm;
pub mod shm_registration;
pub mod smc;
pub mod syscall;
pub mod ta_head;
pub mod ta_request;
pub mod tables;
pub mod uuid;
pub mod vmap;
