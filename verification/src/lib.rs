//! Userspace runtime of the NullStar system.
//!
//! The library holds every decision that a userspace process makes: wire formats, startup
//! contracts, service supervision, routing, and the procedures that talk to the kernel. A
//! procedure never performs a system call itself. It is a function of its inputs and of the
//! answers the kernel has given so far, see [`kernel`].

pub mod abi;
pub mod activation;
pub mod boot;
pub mod boot_mode;
pub mod bytes;
pub mod command_line;
pub mod contained_service;
pub mod control_protocol;
pub mod definition_service;
pub mod exchange;
pub mod filesystem_registry;
pub mod filesystem_service;
pub mod handle;
pub mod heap;
pub mod identity;
pub mod init_run;
pub mod init_text;
pub mod ipc;
pub mod kernel;
pub mod lifecycle_check;
pub mod lifecycle_protocol;
pub mod logctl;
pub mod logging_probes;
pub mod logging_session;
pub mod logging_supervision;
pub mod managed_startup;
pub mod nullfs_lifecycle;
pub mod nullfs_probes;
pub mod nullfs_restart_probe;
pub mod packet;
pub mod platform;
pub mod probe;
pub mod procedure;
pub mod process_start;
pub mod route_broker;
pub mod route_protocol;
pub mod runtime_context;
mod sealed;
pub mod protocol;
pub mod service_cleanup;
pub mod service_control;
pub mod service_launch;
pub mod service_registry;
pub mod service_route;
pub mod service_teardown;
mod slots;
pub mod startup_environment;
pub mod startup_record;
pub mod startup_sections;
pub mod startup_transport;
pub mod supervision;
pub mod supervisor;
pub mod syscall;
pub mod trace;
