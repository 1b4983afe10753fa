# userspace

The user side of a capability kernel: the codecs and state machines that processes share, and the
first process of the system, which brings the services up and keeps them running.

Every procedure that talks to the kernel is a function of the answers that the kernel has given so
far. `kernel::Kernel` holds those answers and records the calls; a procedure that runs out of
answers stops, and its last call is the one to perform next. Contracts say exactly which calls are
made, in which order, and what becomes of the answers.

- `src/abi.rs`, `kernel.rs`, `ipc.rs`, `syscall.rs`, `platform.rs`, `handle.rs`: calls and handles.
- `src/process_start.rs`, `startup_*.rs`, `managed_startup.rs`, `runtime_context.rs`,
  `protocol.rs`, `command_line.rs`: what a process is told when it starts.
- `src/identity.rs`, `*_protocol.rs`, `exchange.rs`, `service_control.rs`, `service_route.rs`,
  `logging_session.rs`, `packet.rs`, `logctl.rs`: what processes say to each other.
- `src/supervisor.rs`, `service_cleanup.rs`, `service_teardown.rs`, `activation.rs`,
  `contained_service.rs`, `definition_service.rs`, `logging_supervision.rs`,
  `nullfs_lifecycle.rs`, `route_broker.rs`, `service_registry.rs`, `filesystem_registry.rs`: the
  life of a service.
- `src/boot.rs`, `boot_mode.rs`, `supervision.rs`, `probe.rs`, `*_probes.rs`,
  `nullfs_restart_probe.rs`, `lifecycle_check.rs`: the first process.
- `src/heap.rs`, `filesystem_service.rs`, `slots.rs`, `bytes.rs`: storage.

Public proof functions named `lemma_..` state what holds of the modules as a whole.

`app/` performs the calls and runs the first process.
