//! What procedures ask of the kernel, and what they never ask of it.
//!
//! A conversation only grows: a procedure goes on from where it started. Beyond that, most
//! procedures keep away from calls that change what the whole system relies on. The relations here
//! say which calls a stretch of the conversation holds, and the lemmas say it of the procedures.

use crate::abi;
use crate::activation;
use crate::boot;
use crate::boot_mode;
use crate::contained_service;
use crate::control_protocol;
use crate::definition_service;
use crate::filesystem_registry;
use crate::handle;
use crate::identity;
use crate::init_run;
use crate::init_text;
use crate::ipc;
use crate::kernel;
use crate::lifecycle_protocol;
use crate::logging_probes;
use crate::logging_supervision;
use crate::managed_startup;
use crate::nullfs_lifecycle;
use crate::nullfs_probes;
use crate::nullfs_restart_probe;
use crate::platform;
use crate::probe;
use crate::procedure;
use crate::process_start;
use crate::route_broker;
use crate::route_protocol;
use crate::service_cleanup;
use crate::service_control;
use crate::service_launch;
use crate::service_registry;
use crate::service_route;
use crate::service_teardown;
use crate::startup_record;
use crate::startup_sections;
use crate::startup_transport;
use crate::supervisor;
use crate::syscall;
use crate::kernel::{Attachment, Op, Transcript};
use crate::identity::ProviderGeneration;
use crate::init_text::Text;
use crate::platform::FilesystemProvider;
use vstd::prelude::*;

verus! {

/// Whether a call changes where a filesystem is found.
pub open spec fn registers(op: Op) -> bool {
    op is RegisterFilesystem
}

/// Whether a call takes a filesystem other than NullFS away.
pub open spec fn takes_away(op: Op) -> bool {
    op matches Op::OfflineFilesystem { provider, .. } && provider
        != FilesystemProvider::Nullfs.raw()
}

/// Whether no call of this stretch is one of those.
pub open spec fn avoids(
    before: Transcript,
    after: Transcript,
    excluded: spec_fn(Op) -> bool,
) -> bool {
    &&& after.follows(before)
    &&& forall|i: int|
        before.asked.len() <= i < after.asked.len() ==> !excluded((#[trigger] after.asked[i]).op)
}

/// Nothing was started, and every filesystem is found where it was.
#[verifier::opaque]
pub open spec fn idle(before: Transcript, after: Transcript) -> bool {
    avoids(
        before,
        after,
        |op: Op| op is Spawn || op is RegisterFilesystem || op is OfflineFilesystem,
    )
}

/// Every filesystem is found where it was.
#[verifier::opaque]
pub open spec fn calm(before: Transcript, after: Transcript) -> bool {
    avoids(before, after, |op: Op| op is RegisterFilesystem || op is OfflineFilesystem)
}

/// No filesystem was registered, and no other than NullFS was taken away.
#[verifier::opaque]
pub open spec fn fading(before: Transcript, after: Transcript) -> bool {
    avoids(before, after, |op: Op| registers(op) || takes_away(op))
}

/// Whether a call is about another filesystem than NullFS.
pub open spec fn concerns_others(op: Op) -> bool {
    ||| takes_away(op)
    ||| op matches Op::RegisterFilesystem { provider, .. } && provider
        != FilesystemProvider::Nullfs.raw()
}

/// Every filesystem but NullFS is found where it was.
#[verifier::opaque]
pub open spec fn mild(before: Transcript, after: Transcript) -> bool {
    avoids(before, after, |op: Op| concerns_others(op))
}

pub(crate) broadcast proof fn lemma_idle_stays(k: Transcript)
    ensures
        #[trigger] idle(k, k),
{
    reveal(idle);
}

pub(crate) broadcast proof fn lemma_idle_call(
    k: Transcript,
    op: Op,
    bytes: Seq<u8>,
    attached: Seq<Attachment>,
)
    ensures
        !(op is Spawn) && !(op is RegisterFilesystem) && !(op is OfflineFilesystem) ==> idle(
            k,
            #[trigger] k.ask_with(op, bytes, attached),
        ),
{
    reveal(idle);
}

pub(crate) broadcast proof fn lemma_idle_goes_on(
    first: Transcript,
    second: Transcript,
    third: Transcript,
)
    requires
        #[trigger] idle(first, second),
        #[trigger] idle(second, third),
    ensures
        idle(first, third),
{
    reveal(idle);
    assert forall|i: int| 0 <= i < first.asked.len() implies third.asked[i]
        == #[trigger] first.asked[i] by {
        assert(second.asked[i] == first.asked[i]);
    }
    assert forall|i: int| first.asked.len() <= i < second.asked.len() implies (
    #[trigger] third.asked[i]) == second.asked[i] by {
        assert(second.asked[i] == second.asked[i]);
    }
}

pub(crate) broadcast proof fn lemma_idle_is_calm(before: Transcript, after: Transcript)
    requires
        #[trigger] idle(before, after),
    ensures
        calm(before, after),
{
    reveal(idle);
    reveal(calm);
}

pub(crate) broadcast proof fn lemma_idle_is_fading(before: Transcript, after: Transcript)
    requires
        #[trigger] idle(before, after),
    ensures
        fading(before, after),
{
    reveal(idle);
    reveal(fading);
}

pub(crate) broadcast proof fn lemma_idle_is_mild(before: Transcript, after: Transcript)
    requires
        #[trigger] idle(before, after),
    ensures
        mild(before, after),
{
    reveal(idle);
    reveal(mild);
}

pub(crate) broadcast proof fn lemma_calm_stays(k: Transcript)
    ensures
        #[trigger] calm(k, k),
{
    reveal(calm);
}

pub(crate) broadcast proof fn lemma_calm_call(
    k: Transcript,
    op: Op,
    bytes: Seq<u8>,
    attached: Seq<Attachment>,
)
    ensures
        !(op is RegisterFilesystem) && !(op is OfflineFilesystem) ==> calm(
            k,
            #[trigger] k.ask_with(op, bytes, attached),
        ),
{
    reveal(calm);
}

pub(crate) broadcast proof fn lemma_calm_goes_on(
    first: Transcript,
    second: Transcript,
    third: Transcript,
)
    requires
        #[trigger] calm(first, second),
        #[trigger] calm(second, third),
    ensures
        calm(first, third),
{
    reveal(calm);
    assert forall|i: int| 0 <= i < first.asked.len() implies third.asked[i]
        == #[trigger] first.asked[i] by {
        assert(second.asked[i] == first.asked[i]);
    }
    assert forall|i: int| first.asked.len() <= i < second.asked.len() implies (
    #[trigger] third.asked[i]) == second.asked[i] by {
        assert(second.asked[i] == second.asked[i]);
    }
}

pub(crate) broadcast proof fn lemma_calm_is_fading(before: Transcript, after: Transcript)
    requires
        #[trigger] calm(before, after),
    ensures
        fading(before, after),
{
    reveal(calm);
    reveal(fading);
}

pub(crate) broadcast proof fn lemma_calm_is_mild(before: Transcript, after: Transcript)
    requires
        #[trigger] calm(before, after),
    ensures
        mild(before, after),
{
    reveal(calm);
    reveal(mild);
}

pub(crate) broadcast proof fn lemma_fading_stays(k: Transcript)
    ensures
        #[trigger] fading(k, k),
{
    reveal(fading);
}

pub(crate) broadcast proof fn lemma_fading_call(
    k: Transcript,
    op: Op,
    bytes: Seq<u8>,
    attached: Seq<Attachment>,
)
    ensures
        !registers(op) && !takes_away(op) ==> fading(k, #[trigger] k.ask_with(op, bytes, attached)),
{
    reveal(fading);
}

pub(crate) broadcast proof fn lemma_fading_goes_on(
    first: Transcript,
    second: Transcript,
    third: Transcript,
)
    requires
        #[trigger] fading(first, second),
        #[trigger] fading(second, third),
    ensures
        fading(first, third),
{
    reveal(fading);
    assert forall|i: int| 0 <= i < first.asked.len() implies third.asked[i]
        == #[trigger] first.asked[i] by {
        assert(second.asked[i] == first.asked[i]);
    }
    assert forall|i: int| first.asked.len() <= i < second.asked.len() implies (
    #[trigger] third.asked[i]) == second.asked[i] by {
        assert(second.asked[i] == second.asked[i]);
    }
}

pub(crate) broadcast proof fn lemma_fading_is_mild(before: Transcript, after: Transcript)
    requires
        #[trigger] fading(before, after),
    ensures
        mild(before, after),
{
    reveal(fading);
    reveal(mild);
}

pub(crate) broadcast proof fn lemma_mild_stays(k: Transcript)
    ensures
        #[trigger] mild(k, k),
{
    reveal(mild);
}

pub(crate) broadcast proof fn lemma_mild_call(
    k: Transcript,
    op: Op,
    bytes: Seq<u8>,
    attached: Seq<Attachment>,
)
    ensures
        !concerns_others(op) ==> mild(k, #[trigger] k.ask_with(op, bytes, attached)),
{
    reveal(mild);
}

pub(crate) broadcast proof fn lemma_mild_goes_on(
    first: Transcript,
    second: Transcript,
    third: Transcript,
)
    requires
        #[trigger] mild(first, second),
        #[trigger] mild(second, third),
    ensures
        mild(first, third),
{
    reveal(mild);
    assert forall|i: int| 0 <= i < first.asked.len() implies third.asked[i]
        == #[trigger] first.asked[i] by {
        assert(second.asked[i] == first.asked[i]);
    }
    assert forall|i: int| first.asked.len() <= i < second.asked.len() implies (
    #[trigger] third.asked[i]) == second.asked[i] by {
        assert(second.asked[i] == second.asked[i]);
    }
}

pub(crate) broadcast group group_idle {
    lemma_idle_stays,
    lemma_idle_call,
    lemma_idle_goes_on,
}

pub(crate) broadcast group group_calm {
    lemma_calm_stays,
    lemma_calm_call,
    lemma_calm_goes_on,
    lemma_idle_is_calm,
}

pub(crate) broadcast group group_fading {
    lemma_fading_stays,
    lemma_fading_call,
    lemma_fading_goes_on,
    lemma_idle_is_fading,
    lemma_calm_is_fading,
}

pub(crate) broadcast group group_mild {
    lemma_mild_stays,
    lemma_mild_call,
    lemma_mild_goes_on,
    lemma_idle_is_mild,
    lemma_calm_is_mild,
    lemma_fading_is_mild,
}


pub(crate) broadcast proof fn lemma_syscall_write_all_run(
    k: kernel::Transcript,
    stream: u64,
    bytes: Seq<u8>,
)
    ensures
        idle(k, #[trigger] syscall::write_all_run(k, stream, bytes).0),
{
    broadcast use {group_idle};

}

pub(crate) broadcast proof fn lemma_service_teardown_say_run(
    k: kernel::Transcript,
    stream: u64,
    bytes: Seq<u8>,
)
    ensures
        idle(k, #[trigger] service_teardown::say_run(k, stream, bytes).0),
{
    broadcast use {group_idle, lemma_syscall_write_all_run};

}

pub(crate) broadcast proof fn lemma_init_run_announce_run(
    k: kernel::Transcript,
    text: init_text::Text,
)
    ensures
        idle(k, #[trigger] init_run::announce_run(k, text).0),
{
    broadcast use {group_idle, lemma_service_teardown_say_run};

}

pub(crate) broadcast proof fn lemma_syscall_yield_run(k: kernel::Transcript)
    ensures
        idle(k, #[trigger] syscall::yield_run(k).0),
{
    broadcast use {group_idle};

}

pub(crate) broadcast proof fn lemma_init_run_rest_run(k: kernel::Transcript, text: init_text::Text)
    ensures
        idle(k, #[trigger] init_run::rest_run(k, text).0),
{
    broadcast use {group_idle, lemma_syscall_yield_run};

}

pub(crate) broadcast proof fn lemma_logging_probes_tire_run(
    k: kernel::Transcript,
    remaining: nat,
    text: init_text::Text,
)
    ensures
        idle(k, #[trigger] logging_probes::tire_run(k, remaining, text).0),
{
    broadcast use {group_idle, lemma_init_run_rest_run};

}

pub(crate) broadcast proof fn lemma_syscall_try_wait_run(
    k: kernel::Transcript,
    process_id: syscall::ProcessId,
)
    ensures
        idle(k, #[trigger] syscall::try_wait_run(k, process_id).0),
{
    broadcast use {group_idle};

}

pub(crate) broadcast proof fn lemma_probe_ended_run(
    k: kernel::Transcript,
    process_id: syscall::ProcessId,
    text: init_text::Text,
)
    ensures
        idle(k, #[trigger] probe::ended_run(k, process_id, text).0),
{
    broadcast use {group_idle, lemma_syscall_try_wait_run};

}

pub(crate) broadcast proof fn lemma_ipc_try_receive_run(
    k: kernel::Transcript,
    endpoint: ipc::CapabilityHandle,
    capacity: usize,
)
    ensures
        idle(k, #[trigger] ipc::try_receive_run(k, endpoint, capacity).0),
{
    broadcast use {group_idle};

}

pub(crate) broadcast proof fn lemma_ipc_info_run(
    k: kernel::Transcript,
    handle: ipc::CapabilityHandle,
)
    ensures
        idle(k, #[trigger] ipc::info_run(k, handle).0),
{
    broadcast use {group_idle};

}

pub(crate) broadcast proof fn lemma_ipc_close_run(
    k: kernel::Transcript,
    handle: ipc::CapabilityHandle,
)
    ensures
        idle(k, #[trigger] ipc::close_run(k, handle).0),
{
    broadcast use {group_idle};

}

pub(crate) broadcast proof fn lemma_procedure_quiet_run(
    k: kernel::Transcript,
    handle: ipc::CapabilityHandle,
)
    ensures
        idle(k, #[trigger] procedure::quiet_run(k, handle).0),
{
    broadcast use {group_idle, lemma_ipc_close_run};

}

pub(crate) broadcast proof fn lemma_procedure_quiet_received_run(
    k: kernel::Transcript,
    capability: Option<ipc::ReceivedCapability>,
)
    ensures
        idle(k, #[trigger] procedure::quiet_received_run(k, capability).0),
{
    broadcast use {group_idle, lemma_procedure_quiet_run};

}

pub(crate) broadcast proof fn lemma_service_control_admit_run(
    k: kernel::Transcript,
    ingress: service_control::Ingress,
    delivery: ipc::Delivery,
)
    ensures
        idle(k, #[trigger] service_control::admit_run(k, ingress, delivery).0),
{
    broadcast use {
        group_idle,
        lemma_ipc_info_run,
        lemma_procedure_quiet_received_run,
        lemma_procedure_quiet_run,
    };

}

pub(crate) broadcast proof fn lemma_service_control_accept_run(
    k: kernel::Transcript,
    ingress: service_control::Ingress,
)
    ensures
        idle(k, #[trigger] service_control::accept_run(k, ingress).0),
{
    broadcast use {group_idle, lemma_ipc_try_receive_run, lemma_service_control_admit_run};

}

pub(crate) broadcast proof fn lemma_ipc_send_run(
    k: kernel::Transcript,
    endpoint: ipc::CapabilityHandle,
    bytes: Seq<u8>,
    transfer: Option<ipc::Transfer>,
)
    ensures
        idle(k, #[trigger] ipc::send_run(k, endpoint, bytes, transfer).0),
{
    broadcast use {group_idle};

}

pub(crate) broadcast proof fn lemma_service_control_reply_run(
    k: kernel::Transcript,
    pending: service_control::Pending,
    response: control_protocol::ServiceControlResponse,
)
    ensures
        idle(k, #[trigger] service_control::reply_run(k, pending, response).0),
{
    broadcast use {group_idle, lemma_ipc_close_run, lemma_ipc_send_run, lemma_procedure_quiet_run};

}

pub(crate) broadcast proof fn lemma_service_registry_observation_step_run(
    k: kernel::Transcript,
    ingress: service_control::Ingress,
    registry: service_registry::Registry,
    generations: service_registry::Generations,
)
    ensures
        idle(
            k,
            #[trigger] service_registry::observation_step_run(k, ingress, registry, generations).0,
        ),
{
    broadcast use {group_idle, lemma_service_control_accept_run, lemma_service_control_reply_run};

}

proof fn lemma_service_registry_observation_run_from(
    k: kernel::Transcript,
    ingress: service_control::Ingress,
    registry: service_registry::Registry,
    generations: service_registry::Generations,
    budget: nat,
)
    ensures
        idle(k, service_registry::observation_run(k, ingress, registry, generations, budget).0),
    decreases budget,
{
    broadcast use {group_idle, lemma_service_registry_observation_step_run};

if budget == 0 {

} else {
let (asked, result) = service_registry::observation_step_run(k, ingress, registry, generations);
match result {
Err(halt) => {},
Ok(false) => {},
Ok(true) => {
lemma_service_registry_observation_run_from(
                asked,
                ingress,
                registry,
                generations,
                (budget - 1) as nat,
            );
},
}
}
}

pub(crate) broadcast proof fn lemma_service_registry_observation_run(
    k: kernel::Transcript,
    ingress: service_control::Ingress,
    registry: service_registry::Registry,
    generations: service_registry::Generations,
    budget: nat,
)
    ensures
        idle(
            k,
            #[trigger] service_registry::observation_run(
                k,
                ingress,
                registry,
                generations,
                budget,
            ).0,
        ),
{
    lemma_service_registry_observation_run_from(k, ingress, registry, generations, budget);
}

pub(crate) broadcast proof fn lemma_logging_probes_control_step_run(
    k: kernel::Transcript,
    control: service_registry::Control,
    registry: service_registry::Registry,
    generations: service_registry::Generations,
    process_id: syscall::ProcessId,
    remaining: nat,
)
    ensures
        idle(
            k,
            #[trigger] logging_probes::control_step_run(
                k,
                control,
                registry,
                generations,
                process_id,
                remaining,
            ).0,
        ),
{
    broadcast use {
        group_idle,
        lemma_logging_probes_tire_run,
        lemma_probe_ended_run,
        lemma_service_registry_observation_run,
    };

}

proof fn lemma_logging_probes_control_ended_run_from(
    k: kernel::Transcript,
    control: service_registry::Control,
    registry: service_registry::Registry,
    generations: service_registry::Generations,
    process_id: syscall::ProcessId,
    remaining: nat,
)
    ensures
        idle(
            k,
            logging_probes::control_ended_run(
                k,
                control,
                registry,
                generations,
                process_id,
                remaining,
            ).0,
        ),
    decreases remaining,
{
    broadcast use {group_idle, lemma_logging_probes_control_step_run};

let (looked, result) = logging_probes::control_step_run(
        k,
        control,
        registry,
        generations,
        process_id,
        remaining,
    );
match result {
Err(halt) => {},
Ok(true) => {},
Ok(false) => {
if remaining > 0 {
lemma_logging_probes_control_ended_run_from(
                looked,
                control,
                registry,
                generations,
                process_id,
                (remaining - 1) as nat,
            );
}
},
}
}

pub(crate) broadcast proof fn lemma_logging_probes_control_ended_run(
    k: kernel::Transcript,
    control: service_registry::Control,
    registry: service_registry::Registry,
    generations: service_registry::Generations,
    process_id: syscall::ProcessId,
    remaining: nat,
)
    ensures
        idle(
            k,
            #[trigger] logging_probes::control_ended_run(
                k,
                control,
                registry,
                generations,
                process_id,
                remaining,
            ).0,
        ),
{
    lemma_logging_probes_control_ended_run_from(
        k,
        control,
        registry,
        generations,
        process_id,
        remaining,
    );
}

pub(crate) broadcast proof fn lemma_init_run_grant_run(
    k: kernel::Transcript,
    process_id: syscall::ProcessId,
    source: ipc::CapabilityHandle,
    rights: ipc::Rights,
    target: ipc::CapabilityHandle,
)
    ensures
        idle(k, #[trigger] init_run::grant_run(k, process_id, source, rights, target).0),
{
    broadcast use {group_idle};

}

proof fn lemma_init_run_grant_each_run_from(
    k: kernel::Transcript,
    process_id: syscall::ProcessId,
    grants: Seq<init_run::BootstrapCapability>,
    from: int,
)
    ensures
        idle(k, init_run::grant_each_run(k, process_id, grants, from).0),
    decreases grants.len() - from,
{
    broadcast use {group_idle, lemma_init_run_grant_run};

if from >= grants.len() {

} else {
let (asked, result) = init_run::grant_run(
            k,
            process_id,
            grants[from].source_handle,
            grants[from].rights,
            grants[from].target_handle,
        );
match result {
Err(halt) => {},
Ok(false) => {},
Ok(true) => {
lemma_init_run_grant_each_run_from(asked, process_id, grants, from + 1);
},
}
}
}

pub(crate) broadcast proof fn lemma_init_run_grant_each_run(
    k: kernel::Transcript,
    process_id: syscall::ProcessId,
    grants: Seq<init_run::BootstrapCapability>,
    from: int,
)
    ensures
        idle(k, #[trigger] init_run::grant_each_run(k, process_id, grants, from).0),
{
    lemma_init_run_grant_each_run_from(k, process_id, grants, from);
}

pub(crate) broadcast proof fn lemma_syscall_barrier_run(k: kernel::Transcript)
    ensures
        idle(k, #[trigger] syscall::barrier_run(k).0),
{
    broadcast use {group_idle};

}

pub(crate) broadcast proof fn lemma_syscall_release_run(
    k: kernel::Transcript,
    barrier: syscall::LaunchBarrier,
)
    ensures
        idle(k, #[trigger] syscall::release_run(k, barrier).0),
{
    broadcast use {group_idle};

}

pub(crate) broadcast proof fn lemma_syscall_spawn_run(
    k: kernel::Transcript,
    command: Seq<u8>,
    foreground: bool,
    barrier: syscall::LaunchBarrier,
)
    ensures
        calm(k, #[trigger] syscall::spawn_run(k, command, foreground, barrier).0),
{
    broadcast use {group_calm};

}

pub(crate) broadcast proof fn lemma_probe_launch_run(
    k: kernel::Transcript,
    command: init_text::Text,
    foreground: bool,
    grants: Seq<init_run::BootstrapCapability>,
    text: init_text::Text,
)
    ensures
        calm(k, #[trigger] probe::launch_run(k, command, foreground, grants, text).0),
{
    reveal(probe::launch_run);
    broadcast use {
        group_calm,
        lemma_init_run_grant_each_run,
        lemma_syscall_barrier_run,
        lemma_syscall_release_run,
        lemma_syscall_spawn_run,
    };

}

pub(crate) broadcast proof fn lemma_logging_probes_control_probe_run(
    k: kernel::Transcript,
    command: init_text::Text,
    passed: init_text::Text,
    control: service_registry::Control,
    registry: service_registry::Registry,
    generations: service_registry::Generations,
)
    ensures
        calm(
            k,
            #[trigger] logging_probes::control_probe_run(
                k,
                command,
                passed,
                control,
                registry,
                generations,
            ).0,
        ),
{
    broadcast use {
        group_calm,
        lemma_init_run_announce_run,
        lemma_logging_probes_control_ended_run,
        lemma_probe_launch_run,
    };

}

pub(crate) broadcast proof fn lemma_boot_restarted_run(
    k: kernel::Transcript,
    tested: nullfs_restart_probe::Tested,
    generation: identity::ProviderGeneration,
    generations: service_registry::Generations,
)
    ensures
        calm(k, #[trigger] boot::restarted_run(k, tested, generation, generations).0),
{
    broadcast use {group_calm, lemma_init_run_announce_run, lemma_logging_probes_control_probe_run};

}

pub(crate) broadcast proof fn lemma_nullfs_lifecycle_final_status_run(
    k: kernel::Transcript,
    process_id: syscall::ProcessId,
)
    ensures
        idle(k, #[trigger] nullfs_lifecycle::final_status_run(k, process_id).0),
{
    broadcast use {group_idle, lemma_syscall_try_wait_run};

}

pub(crate) broadcast proof fn lemma_probe_still_running_run(
    k: kernel::Transcript,
    process_id: Option<syscall::ProcessId>,
    text: init_text::Text,
)
    ensures
        idle(k, #[trigger] probe::still_running_run(k, process_id, text).0),
{
    broadcast use {group_idle, lemma_nullfs_lifecycle_final_status_run};

}

pub(crate) broadcast proof fn lemma_service_registry_checked_run<S>(
    k: kernel::Transcript,
    state: S,
    checked: Result<control_protocol::ServiceControlResponse, control_protocol::InvalidResponse>,
)
    ensures
        idle(k, #[trigger] service_registry::checked_run::<S>(k, state, checked).0),
{
    broadcast use {group_idle};

}

pub(crate) broadcast proof fn lemma_nullfs_lifecycle_quiesce_run(
    k: kernel::Transcript,
    lifecycle: nullfs_lifecycle::NullfsLifecycle,
    service: supervisor::Service,
    process_id: syscall::ProcessId,
    generation: identity::ProviderGeneration,
    request: ipc::CapabilityHandle,
    message: lifecycle_protocol::LifecycleMessage,
)
    ensures
        idle(
            k,
            #[trigger] nullfs_lifecycle::quiesce_run(
                k,
                lifecycle,
                service,
                process_id,
                generation,
                request,
                message,
            ).0,
        ),
{
    broadcast use {group_idle, lemma_ipc_send_run};

}

pub(crate) broadcast proof fn lemma_nullfs_lifecycle_request_restart_run(
    k: kernel::Transcript,
    lifecycle: nullfs_lifecycle::NullfsLifecycle,
    service: supervisor::Service,
    generation: identity::ProviderGeneration,
    request: ipc::CapabilityHandle,
)
    ensures
        idle(
            k,
            #[trigger] nullfs_lifecycle::request_restart_run(
                k,
                lifecycle,
                service,
                generation,
                request,
            ).0,
        ),
{
    broadcast use {group_idle, lemma_nullfs_lifecycle_quiesce_run};

}

pub(crate) broadcast proof fn lemma_service_registry_nullfs_restart_run(
    k: kernel::Transcript,
    service: identity::ServiceId,
    runtime: supervisor::Service,
    generation: identity::ProviderGeneration,
    lifecycle: nullfs_lifecycle::NullfsLifecycle,
    endpoint: ipc::CapabilityHandle,
)
    ensures
        idle(
            k,
            #[trigger] service_registry::nullfs_restart_run(
                k,
                service,
                runtime,
                generation,
                lifecycle,
                endpoint,
            ).0,
        ),
{
    broadcast use {group_idle, lemma_nullfs_lifecycle_request_restart_run};

}

pub(crate) broadcast proof fn lemma_syscall_signal_group_run(
    k: kernel::Transcript,
    group: syscall::ProcessId,
    signal: u64,
)
    ensures
        idle(k, #[trigger] syscall::signal_group_run(k, group, signal).0),
{
    broadcast use {group_idle};

}

pub(crate) broadcast proof fn lemma_service_registry_terminate_group_run(
    k: kernel::Transcript,
    group: syscall::ProcessId,
)
    ensures
        idle(k, #[trigger] service_registry::terminate_group_run(k, group).0),
{
    broadcast use {group_idle, lemma_syscall_signal_group_run};

}

pub(crate) broadcast proof fn lemma_service_registry_restart_run(
    k: kernel::Transcript,
    service: identity::ServiceId,
    runtime: supervisor::Service,
    generation: identity::ProviderGeneration,
)
    ensures
        idle(k, #[trigger] service_registry::restart_run(k, service, runtime, generation).0),
{
    broadcast use {group_idle, lemma_service_registry_terminate_group_run};

}

pub(crate) broadcast proof fn lemma_service_registry_restart_target_run(
    k: kernel::Transcript,
    service: identity::ServiceId,
    held: service_registry::Held,
    generations: service_registry::Generations,
    endpoint: ipc::CapabilityHandle,
)
    ensures
        idle(
            k,
            #[trigger] service_registry::restart_target_run(
                k,
                service,
                held,
                generations,
                endpoint,
            ).0,
        ),
{
    broadcast use {
        group_idle,
        lemma_service_registry_nullfs_restart_run,
        lemma_service_registry_restart_run,
    };

}

pub(crate) broadcast proof fn lemma_service_registry_start_service_run(
    k: kernel::Transcript,
    service: identity::ServiceId,
    held: service_registry::Held,
    generations: service_registry::Generations,
)
    ensures
        idle(k, #[trigger] service_registry::start_service_run(k, service, held, generations).0),
{
    broadcast use {group_idle, lemma_service_registry_checked_run};

}

pub(crate) broadcast proof fn lemma_service_registry_stop_run(
    k: kernel::Transcript,
    service: identity::ServiceId,
    runtime: supervisor::Service,
    generation: identity::ProviderGeneration,
)
    ensures
        idle(k, #[trigger] service_registry::stop_run(k, service, runtime, generation).0),
{
    broadcast use {group_idle, lemma_service_registry_terminate_group_run};

}

pub(crate) broadcast proof fn lemma_service_registry_stop_service_run(
    k: kernel::Transcript,
    service: identity::ServiceId,
    held: service_registry::Held,
    generations: service_registry::Generations,
)
    ensures
        idle(k, #[trigger] service_registry::stop_service_run(k, service, held, generations).0),
{
    broadcast use {group_idle, lemma_service_registry_checked_run, lemma_service_registry_stop_run};

}

pub(crate) broadcast proof fn lemma_service_registry_mutation_run(
    k: kernel::Transcript,
    request: control_protocol::ServiceControlRequest,
    held: service_registry::Held,
    generations: service_registry::Generations,
    endpoint: ipc::CapabilityHandle,
)
    ensures
        idle(
            k,
            #[trigger] service_registry::mutation_run(k, request, held, generations, endpoint).0,
        ),
{
    broadcast use {
        group_idle,
        lemma_service_registry_checked_run,
        lemma_service_registry_restart_target_run,
        lemma_service_registry_start_service_run,
        lemma_service_registry_stop_service_run,
    };

}

pub(crate) broadcast proof fn lemma_service_registry_mutation_step_run(
    k: kernel::Transcript,
    ingress: service_control::Ingress,
    held: service_registry::Held,
    generations: service_registry::Generations,
    endpoint: ipc::CapabilityHandle,
)
    ensures
        idle(
            k,
            #[trigger] service_registry::mutation_step_run(
                k,
                ingress,
                held,
                generations,
                endpoint,
            ).0,
        ),
{
    broadcast use {
        group_idle,
        lemma_service_control_accept_run,
        lemma_service_control_reply_run,
        lemma_service_registry_mutation_run,
    };

}

proof fn lemma_service_registry_pump_mutation_run_from(
    k: kernel::Transcript,
    ingress: service_control::Ingress,
    held: service_registry::Held,
    generations: service_registry::Generations,
    endpoint: ipc::CapabilityHandle,
    processed: usize,
)
    ensures
        idle(
            k,
            service_registry::pump_mutation_run(
                k,
                ingress,
                held,
                generations,
                endpoint,
                processed,
            ).0,
        ),
    decreases service_registry::SERVICE_CONTROL_PUMP_BUDGET - processed,
{
    broadcast use {group_idle, lemma_service_registry_mutation_step_run};

if processed >= service_registry::SERVICE_CONTROL_PUMP_BUDGET {

} else {
let (asked, result) = service_registry::mutation_step_run(k, ingress, held, generations, endpoint);
match result {
Err(halt) => {},
Ok((next, false)) => {},
Ok((next, true)) => {
lemma_service_registry_pump_mutation_run_from(
                asked,
                ingress,
                next,
                generations,
                endpoint,
                (processed + 1) as usize,
            );
},
}
}
}

pub(crate) broadcast proof fn lemma_service_registry_pump_mutation_run(
    k: kernel::Transcript,
    ingress: service_control::Ingress,
    held: service_registry::Held,
    generations: service_registry::Generations,
    endpoint: ipc::CapabilityHandle,
    processed: usize,
)
    ensures
        idle(
            k,
            #[trigger] service_registry::pump_mutation_run(
                k,
                ingress,
                held,
                generations,
                endpoint,
                processed,
            ).0,
        ),
{
    lemma_service_registry_pump_mutation_run_from(
        k,
        ingress,
        held,
        generations,
        endpoint,
        processed,
    );
}

pub(crate) broadcast proof fn lemma_nullfs_restart_probe_requested_step_run(
    k: kernel::Transcript,
    ingress: service_control::Ingress,
    held: service_registry::Held,
    generations: service_registry::Generations,
    endpoint: ipc::CapabilityHandle,
    tool: Option<syscall::ProcessId>,
)
    ensures
        idle(
            k,
            #[trigger] nullfs_restart_probe::requested_step_run(
                k,
                ingress,
                held,
                generations,
                endpoint,
                tool,
            ).0,
        ),
{
    broadcast use {
        group_idle,
        lemma_init_run_rest_run,
        lemma_probe_still_running_run,
        lemma_service_registry_pump_mutation_run,
    };

}

proof fn lemma_nullfs_restart_probe_requested_run_from(
    k: kernel::Transcript,
    ingress: service_control::Ingress,
    held: service_registry::Held,
    generations: service_registry::Generations,
    endpoint: ipc::CapabilityHandle,
    tool: Option<syscall::ProcessId>,
    looks: nat,
)
    ensures
        idle(
            k,
            nullfs_restart_probe::requested_run(
                k,
                ingress,
                held,
                generations,
                endpoint,
                tool,
                looks,
            ).0,
        ),
    decreases looks,
{
    broadcast use {group_idle, lemma_nullfs_restart_probe_requested_step_run};

let text = init_text::Text::NullfsRestartProbeFailed;
if looks == 0 {

} else {
let (looked, result) = nullfs_restart_probe::requested_step_run(
    k,
    ingress,
    held,
    generations,
    endpoint,
    tool,
);
match result {
Err(halt) => {},
Ok((next, true)) => {},
Ok((next, false)) => {
lemma_nullfs_restart_probe_requested_run_from(
                looked,
                ingress,
                next,
                generations,
                endpoint,
                tool,
                (looks - 1) as nat,
            );
},
}
}
}

pub(crate) broadcast proof fn lemma_nullfs_restart_probe_requested_run(
    k: kernel::Transcript,
    ingress: service_control::Ingress,
    held: service_registry::Held,
    generations: service_registry::Generations,
    endpoint: ipc::CapabilityHandle,
    tool: Option<syscall::ProcessId>,
    looks: nat,
)
    ensures
        idle(
            k,
            #[trigger] nullfs_restart_probe::requested_run(
                k,
                ingress,
                held,
                generations,
                endpoint,
                tool,
                looks,
            ).0,
        ),
{
    lemma_nullfs_restart_probe_requested_run_from(
        k,
        ingress,
        held,
        generations,
        endpoint,
        tool,
        looks,
    );
}

pub(crate) broadcast proof fn lemma_nullfs_restart_probe_ask_run(
    k: kernel::Transcript,
    tested: nullfs_restart_probe::Tested,
    generations: service_registry::Generations,
    watched: bool,
)
    ensures
        calm(k, #[trigger] nullfs_restart_probe::ask_run(k, tested, generations, watched).0),
{
    broadcast use {group_calm, lemma_nullfs_restart_probe_requested_run, lemma_probe_launch_run};

}

pub(crate) broadcast proof fn lemma_ipc_job_try_wait_run(
    k: kernel::Transcript,
    handle: ipc::CapabilityHandle,
)
    ensures
        idle(k, #[trigger] ipc::job_try_wait_run(k, handle).0),
{
    broadcast use {group_idle};

}

pub(crate) broadcast proof fn lemma_service_teardown_report_run(
    k: kernel::Transcript,
    service: service_cleanup::Service,
    phase: service_cleanup::Phase,
    operation: service_cleanup::Operation,
    observation: service_cleanup::Observation,
)
    ensures
        idle(
            k,
            #[trigger] service_teardown::report_run(k, service, phase, operation, observation).0,
        ),
{
    broadcast use {group_idle, lemma_service_teardown_say_run};

}

proof fn lemma_service_teardown_collect_run_from(
    k: kernel::Transcript,
    service: service_cleanup::Service,
    handle: ipc::CapabilityHandle,
)
    ensures
        idle(k, service_teardown::collect_run(k, service, handle).0),
    decreases k.unread(),
{
    broadcast use {group_idle, lemma_ipc_job_try_wait_run, lemma_service_teardown_report_run};

let (asked, polled) = ipc::job_try_wait_run(k, handle);
match polled {
None => {},
Some(polled) => {
match service_teardown::job_action(polled, false) {
service_cleanup::Action::Progress => {
lemma_service_teardown_collect_run_from(asked, service, handle);
},
service_cleanup::Action::Pending => {},
service_cleanup::Action::Complete => {},
service_cleanup::Action::Unexpected(observation) => {},
service_cleanup::Action::Retry => {},
}
},
}
}

pub(crate) broadcast proof fn lemma_service_teardown_collect_run(
    k: kernel::Transcript,
    service: service_cleanup::Service,
    handle: ipc::CapabilityHandle,
)
    ensures
        idle(k, #[trigger] service_teardown::collect_run(k, service, handle).0),
{
    lemma_service_teardown_collect_run_from(k, service, handle);
}

pub(crate) broadcast proof fn lemma_service_teardown_close_capability_run(
    k: kernel::Transcript,
    service: service_cleanup::Service,
    phase: service_cleanup::Phase,
    handle: Option<ipc::CapabilityHandle>,
)
    ensures
        idle(k, #[trigger] service_teardown::close_capability_run(k, service, phase, handle).0),
{
    broadcast use {group_idle, lemma_ipc_close_run, lemma_service_teardown_report_run};

}

pub(crate) broadcast proof fn lemma_service_teardown_drained_run(
    k: kernel::Transcript,
    service: service_cleanup::Service,
    handle: ipc::CapabilityHandle,
    drained: init_text::Text,
)
    ensures
        idle(k, #[trigger] service_teardown::drained_run(k, service, handle, drained).0),
{
    broadcast use {
        group_idle,
        lemma_service_teardown_close_capability_run,
        lemma_service_teardown_say_run,
    };

}

pub(crate) broadcast proof fn lemma_service_teardown_pause_run(
    k: kernel::Transcript,
    service: service_cleanup::Service,
    phase: service_cleanup::Phase,
)
    ensures
        idle(k, #[trigger] service_teardown::pause_run(k, service, phase).0),
{
    broadcast use {group_idle, lemma_service_teardown_report_run, lemma_syscall_yield_run};

}

pub(crate) broadcast proof fn lemma_service_teardown_drain_end_run(
    k: kernel::Transcript,
    service: service_cleanup::Service,
    handle: ipc::CapabilityHandle,
    leader: Option<syscall::ProcessId>,
    emptied: bool,
    reaped: bool,
    drained: init_text::Text,
)
    ensures
        idle(
            k,
            #[trigger] service_teardown::drain_end_run(
                k,
                service,
                handle,
                leader,
                emptied,
                reaped,
                drained,
            ).0,
        ),
{
    broadcast use {
        group_idle,
        lemma_service_teardown_drained_run,
        lemma_service_teardown_pause_run,
    };

}

proof fn lemma_service_teardown_reap_run_from(
    k: kernel::Transcript,
    service: service_cleanup::Service,
    process_id: syscall::ProcessId,
)
    ensures
        idle(k, service_teardown::reap_run(k, service, process_id).0),
    decreases k.unread(),
{
    broadcast use {group_idle, lemma_service_teardown_report_run, lemma_syscall_try_wait_run};

let (asked, polled) = syscall::try_wait_run(k, process_id);
match polled {
None => {},
Some(polled) => {
match service_teardown::leader_action(polled) {
service_cleanup::Action::Complete => {},
service_cleanup::Action::Retry => {
lemma_service_teardown_reap_run_from(asked, service, process_id);
},
service_cleanup::Action::Unexpected(observation) => {},
_ => {},
}
},
}
}

pub(crate) broadcast proof fn lemma_service_teardown_reap_run(
    k: kernel::Transcript,
    service: service_cleanup::Service,
    process_id: syscall::ProcessId,
)
    ensures
        idle(k, #[trigger] service_teardown::reap_run(k, service, process_id).0),
{
    lemma_service_teardown_reap_run_from(k, service, process_id);
}

pub(crate) broadcast proof fn lemma_service_teardown_reap_leader_run(
    k: kernel::Transcript,
    service: service_cleanup::Service,
    leader: Option<syscall::ProcessId>,
)
    ensures
        idle(k, #[trigger] service_teardown::reap_leader_run(k, service, leader).0),
{
    broadcast use {group_idle, lemma_service_teardown_reap_run};

}

pub(crate) broadcast proof fn lemma_service_teardown_terminate_run(
    k: kernel::Transcript,
    service: service_cleanup::Service,
    handle: ipc::CapabilityHandle,
)
    ensures
        idle(k, #[trigger] service_teardown::terminate_run(k, service, handle).0),
{
    broadcast use {group_idle, lemma_service_teardown_report_run};

}

pub(crate) broadcast proof fn lemma_service_teardown_drain_round_run(
    k: kernel::Transcript,
    service: service_cleanup::Service,
    handle: ipc::CapabilityHandle,
    leader: Option<syscall::ProcessId>,
    drained: init_text::Text,
)
    ensures
        idle(
            k,
            #[trigger] service_teardown::drain_round_run(k, service, handle, leader, drained).0,
        ),
{
    broadcast use {
        group_idle,
        lemma_service_teardown_collect_run,
        lemma_service_teardown_drain_end_run,
        lemma_service_teardown_reap_leader_run,
        lemma_service_teardown_terminate_run,
    };

}

pub(crate) broadcast proof fn lemma_service_teardown_report_budget_run(
    k: kernel::Transcript,
    service: service_cleanup::Service,
    phase: service_cleanup::Phase,
    operation: service_cleanup::Operation,
    reported: bool,
)
    ensures
        idle(
            k,
            #[trigger] service_teardown::report_budget_run(
                k,
                service,
                phase,
                operation,
                reported,
            ).0,
        ),
{
    broadcast use {group_idle, lemma_service_teardown_report_run};

}

proof fn lemma_service_teardown_drain_job_run_from(
    k: kernel::Transcript,
    service: service_cleanup::Service,
    handle: ipc::CapabilityHandle,
    leader: Option<syscall::ProcessId>,
    drained: init_text::Text,
    emptied: bool,
    rounds: nat,
    reported: bool,
)
    ensures
        idle(
            k,
            service_teardown::drain_job_run(
                k,
                service,
                handle,
                leader,
                drained,
                emptied,
                rounds,
                reported,
            ).0,
        ),
    decreases rounds,
{
    broadcast use {
        group_idle,
        lemma_service_teardown_drain_round_run,
        lemma_service_teardown_report_budget_run,
    };

if rounds == 0 {

} else {
let (asked, round) = service_teardown::drain_round_run(k, service, handle, leader, drained);
match round {
None => {},
Some(service_teardown::Round::Over { clean, leader }) => {},
Some(service_teardown::Round::Again { emptied, leader }) => {
lemma_service_teardown_drain_job_run_from(
                asked,
                service,
                handle,
                leader,
                drained,
                emptied,
                (rounds - 1) as nat,
                reported,
            );
},
}
}
}

pub(crate) broadcast proof fn lemma_service_teardown_drain_job_run(
    k: kernel::Transcript,
    service: service_cleanup::Service,
    handle: ipc::CapabilityHandle,
    leader: Option<syscall::ProcessId>,
    drained: init_text::Text,
    emptied: bool,
    rounds: nat,
    reported: bool,
)
    ensures
        idle(
            k,
            #[trigger] service_teardown::drain_job_run(
                k,
                service,
                handle,
                leader,
                drained,
                emptied,
                rounds,
                reported,
            ).0,
        ),
{
    lemma_service_teardown_drain_job_run_from(
        k,
        service,
        handle,
        leader,
        drained,
        emptied,
        rounds,
        reported,
    );
}

pub(crate) broadcast proof fn lemma_service_teardown_drain_run(
    k: kernel::Transcript,
    service: service_cleanup::Service,
    job: Option<ipc::CapabilityHandle>,
    leader: Option<syscall::ProcessId>,
    drained: init_text::Text,
    reported: bool,
)
    ensures
        idle(
            k,
            #[trigger] service_teardown::drain_run(k, service, job, leader, drained, reported).0,
        ),
{
    reveal(service_teardown::drain_run);
    broadcast use {
        group_idle,
        lemma_service_teardown_drain_job_run,
        lemma_service_teardown_report_run,
    };

}

pub(crate) broadcast proof fn lemma_contained_service_drain_run(
    k: kernel::Transcript,
    job: contained_service::ContainedServiceJob,
)
    ensures
        idle(k, #[trigger] contained_service::drain_run(k, job).0),
{
    broadcast use {group_idle, lemma_service_teardown_drain_run};

}

pub(crate) broadcast proof fn lemma_contained_service_must_drain_run(
    k: kernel::Transcript,
    job: contained_service::ContainedServiceJob,
    text: init_text::Text,
)
    ensures
        idle(k, #[trigger] contained_service::must_drain_run(k, job, text).0),
{
    broadcast use {group_idle, lemma_contained_service_drain_run};

}

pub(crate) broadcast proof fn lemma_nullfs_restart_probe_drained_run(
    k: kernel::Transcript,
    tested: nullfs_restart_probe::Tested,
)
    ensures
        idle(k, #[trigger] nullfs_restart_probe::drained_run(k, tested).0),
{
    broadcast use {group_idle, lemma_contained_service_must_drain_run};

}

pub(crate) broadcast proof fn lemma_nullfs_lifecycle_ended_run(
    k: kernel::Transcript,
    lifecycle: nullfs_lifecycle::NullfsLifecycle,
    generation: identity::ProviderGeneration,
    status: u64,
)
    ensures
        fading(k, #[trigger] nullfs_lifecycle::ended_run(k, lifecycle, generation, status).0),
{
    broadcast use {group_fading};

}

pub(crate) broadcast proof fn lemma_nullfs_lifecycle_observe_exit_run(
    k: kernel::Transcript,
    lifecycle: nullfs_lifecycle::NullfsLifecycle,
    process_id: syscall::ProcessId,
    generation: identity::ProviderGeneration,
)
    ensures
        fading(
            k,
            #[trigger] nullfs_lifecycle::observe_exit_run(k, lifecycle, process_id, generation).0,
        ),
{
    broadcast use {
        group_fading,
        lemma_nullfs_lifecycle_ended_run,
        lemma_nullfs_lifecycle_final_status_run,
    };

}

pub(crate) broadcast proof fn lemma_contained_service_request_termination_run(
    k: kernel::Transcript,
    job: contained_service::ContainedServiceJob,
)
    ensures
        idle(k, #[trigger] contained_service::request_termination_run(k, job).0),
{
    broadcast use {
        group_idle,
        lemma_service_teardown_report_run,
        lemma_service_teardown_terminate_run,
    };

}

pub(crate) broadcast proof fn lemma_nullfs_lifecycle_begin_force_run(
    k: kernel::Transcript,
    lifecycle: nullfs_lifecycle::NullfsLifecycle,
    process_id: syscall::ProcessId,
    generation: identity::ProviderGeneration,
    job: contained_service::ContainedServiceJob,
)
    ensures
        fading(
            k,
            #[trigger] nullfs_lifecycle::begin_force_run(
                k,
                lifecycle,
                process_id,
                generation,
                job,
            ).0,
        ),
{
    broadcast use {
        group_fading,
        lemma_contained_service_request_termination_run,
        lemma_init_run_announce_run,
    };

}

pub(crate) broadcast proof fn lemma_nullfs_lifecycle_queue_unmount_run(
    k: kernel::Transcript,
    lifecycle: nullfs_lifecycle::NullfsLifecycle,
    request: ipc::CapabilityHandle,
    job: contained_service::ContainedServiceJob,
)
    ensures
        fading(k, #[trigger] nullfs_lifecycle::queue_unmount_run(k, lifecycle, request, job).0),
{
    broadcast use {group_fading, lemma_ipc_send_run, lemma_nullfs_lifecycle_begin_force_run};

}

pub(crate) broadcast proof fn lemma_nullfs_lifecycle_forced_run(
    k: kernel::Transcript,
    lifecycle: nullfs_lifecycle::NullfsLifecycle,
    process_id: syscall::ProcessId,
    generation: identity::ProviderGeneration,
    job: contained_service::ContainedServiceJob,
)
    ensures
        fading(
            k,
            #[trigger] nullfs_lifecycle::forced_run(k, lifecycle, process_id, generation, job).0,
        ),
{
    broadcast use {group_fading, lemma_nullfs_lifecycle_begin_force_run};

}

pub(crate) broadcast proof fn lemma_nullfs_lifecycle_spend_run(
    k: kernel::Transcript,
    lifecycle: nullfs_lifecycle::NullfsLifecycle,
    job: contained_service::ContainedServiceJob,
)
    ensures
        fading(k, #[trigger] nullfs_lifecycle::spend_run(k, lifecycle, job).0),
{
    broadcast use {
        group_fading,
        lemma_contained_service_request_termination_run,
        lemma_nullfs_lifecycle_forced_run,
    };

}

pub(crate) broadcast proof fn lemma_nullfs_lifecycle_act_run(
    k: kernel::Transcript,
    lifecycle: nullfs_lifecycle::NullfsLifecycle,
    process_id: syscall::ProcessId,
    generation: identity::ProviderGeneration,
    request: ipc::CapabilityHandle,
    job: contained_service::ContainedServiceJob,
)
    ensures
        fading(
            k,
            #[trigger] nullfs_lifecycle::act_run(
                k,
                lifecycle,
                process_id,
                generation,
                request,
                job,
            ).0,
        ),
{
    broadcast use {
        group_fading,
        lemma_nullfs_lifecycle_observe_exit_run,
        lemma_nullfs_lifecycle_queue_unmount_run,
        lemma_nullfs_lifecycle_spend_run,
    };

}

pub(crate) broadcast proof fn lemma_nullfs_lifecycle_idle_run(
    k: kernel::Transcript,
    lifecycle: nullfs_lifecycle::NullfsLifecycle,
    current_process_id: Option<syscall::ProcessId>,
)
    ensures
        idle(k, #[trigger] nullfs_lifecycle::idle_run(k, lifecycle, current_process_id).0),
{
    broadcast use {group_idle, lemma_nullfs_lifecycle_final_status_run};

}

pub(crate) broadcast proof fn lemma_nullfs_lifecycle_force_current_run(
    k: kernel::Transcript,
    lifecycle: nullfs_lifecycle::NullfsLifecycle,
    job: contained_service::ContainedServiceJob,
)
    ensures
        fading(k, #[trigger] nullfs_lifecycle::force_current_run(k, lifecycle, job).0),
{
    broadcast use {group_fading, lemma_nullfs_lifecycle_begin_force_run};

}

pub(crate) broadcast proof fn lemma_nullfs_lifecycle_take_message_run(
    k: kernel::Transcript,
    lifecycle: nullfs_lifecycle::NullfsLifecycle,
    decoded: Result<lifecycle_protocol::LifecycleMessage, lifecycle_protocol::MessageDecodeError>,
    job: contained_service::ContainedServiceJob,
)
    ensures
        fading(k, #[trigger] nullfs_lifecycle::take_message_run(k, lifecycle, decoded, job).0),
{
    broadcast use {group_fading, lemma_nullfs_lifecycle_force_current_run};

}

pub(crate) broadcast proof fn lemma_nullfs_lifecycle_receive_event_run(
    k: kernel::Transcript,
    lifecycle: nullfs_lifecycle::NullfsLifecycle,
    readiness: ipc::CapabilityHandle,
    job: contained_service::ContainedServiceJob,
)
    ensures
        fading(k, #[trigger] nullfs_lifecycle::receive_event_run(k, lifecycle, readiness, job).0),
{
    broadcast use {
        group_fading,
        lemma_ipc_try_receive_run,
        lemma_nullfs_lifecycle_force_current_run,
        lemma_nullfs_lifecycle_take_message_run,
        lemma_procedure_quiet_received_run,
    };

}

pub(crate) broadcast proof fn lemma_nullfs_lifecycle_advance_run(
    k: kernel::Transcript,
    lifecycle: nullfs_lifecycle::NullfsLifecycle,
    current_process_id: Option<syscall::ProcessId>,
    current_generation: identity::ProviderGeneration,
    readiness: ipc::CapabilityHandle,
    request: ipc::CapabilityHandle,
    job: contained_service::ContainedServiceJob,
)
    ensures
        fading(
            k,
            #[trigger] nullfs_lifecycle::advance_run(
                k,
                lifecycle,
                current_process_id,
                current_generation,
                readiness,
                request,
                job,
            ).0,
        ),
{
    broadcast use {
        group_fading,
        lemma_nullfs_lifecycle_act_run,
        lemma_nullfs_lifecycle_idle_run,
        lemma_nullfs_lifecycle_receive_event_run,
    };

}

pub(crate) broadcast proof fn lemma_nullfs_restart_probe_exit_step_run(
    k: kernel::Transcript,
    lifecycle: nullfs_lifecycle::NullfsLifecycle,
    process_id: Option<syscall::ProcessId>,
    generation: identity::ProviderGeneration,
    resources: contained_service::GenerationResources,
    beside: Option<syscall::ProcessId>,
)
    ensures
        fading(
            k,
            #[trigger] nullfs_restart_probe::exit_step_run(
                k,
                lifecycle,
                process_id,
                generation,
                resources,
                beside,
            ).0,
        ),
{
    broadcast use {
        group_fading,
        lemma_init_run_rest_run,
        lemma_nullfs_lifecycle_advance_run,
        lemma_probe_still_running_run,
    };

}

proof fn lemma_nullfs_restart_probe_exit_run_from(
    k: kernel::Transcript,
    lifecycle: nullfs_lifecycle::NullfsLifecycle,
    process_id: Option<syscall::ProcessId>,
    generation: identity::ProviderGeneration,
    resources: contained_service::GenerationResources,
    beside: Option<syscall::ProcessId>,
)
    ensures
        fading(
            k,
            nullfs_restart_probe::exit_run(
                k,
                lifecycle,
                process_id,
                generation,
                resources,
                beside,
            ).0,
        ),
    decreases k.unread(),
{
    nullfs_restart_probe::lemma_exit_step_asks(
        k,
        lifecycle,
        process_id,
        generation,
        resources,
        beside,
    );
    broadcast use {group_fading, lemma_nullfs_restart_probe_exit_step_run};

let (looked, result) = nullfs_restart_probe::exit_step_run(
    k,
    lifecycle,
    process_id,
    generation,
    resources,
    beside,
);
match result {
Err(halt) => {},
Ok((next, Some(status))) => {},
Ok((next, None)) => {
lemma_nullfs_restart_probe_exit_run_from(looked, next, process_id, generation, resources, beside);
},
}
}

pub(crate) broadcast proof fn lemma_nullfs_restart_probe_exit_run(
    k: kernel::Transcript,
    lifecycle: nullfs_lifecycle::NullfsLifecycle,
    process_id: Option<syscall::ProcessId>,
    generation: identity::ProviderGeneration,
    resources: contained_service::GenerationResources,
    beside: Option<syscall::ProcessId>,
)
    ensures
        fading(
            k,
            #[trigger] nullfs_restart_probe::exit_run(
                k,
                lifecycle,
                process_id,
                generation,
                resources,
                beside,
            ).0,
        ),
{
    lemma_nullfs_restart_probe_exit_run_from(
        k,
        lifecycle,
        process_id,
        generation,
        resources,
        beside,
    );
}

pub(crate) broadcast proof fn lemma_nullfs_restart_probe_exited_run(
    k: kernel::Transcript,
    tested: nullfs_restart_probe::Tested,
    generation: identity::ProviderGeneration,
    beside: Option<syscall::ProcessId>,
)
    ensures
        fading(k, #[trigger] nullfs_restart_probe::exited_run(k, tested, generation, beside).0),
{
    broadcast use {group_fading, lemma_nullfs_restart_probe_exit_run};

}

pub(crate) broadcast proof fn lemma_nullfs_probes_object_run(
    k: kernel::Transcript,
    handle: ipc::CapabilityHandle,
    text: init_text::Text,
)
    ensures
        idle(k, #[trigger] nullfs_probes::object_run(k, handle, text).0),
{
    broadcast use {group_idle, lemma_ipc_info_run};

}

proof fn lemma_service_registry_drain_mutation_run_from(
    k: kernel::Transcript,
    ingress: service_control::Ingress,
    held: service_registry::Held,
    generations: service_registry::Generations,
    endpoint: ipc::CapabilityHandle,
)
    ensures
        idle(k, service_registry::drain_mutation_run(k, ingress, held, generations, endpoint).0),
    decreases k.unread(),
{
    if service_registry::pump_mutation_run(k, ingress, held, generations, endpoint, 0).1 is Ok {
        service_registry::lemma_pump_asks(k, ingress, held, generations, endpoint, 0);
    }
    broadcast use {group_idle, lemma_service_registry_pump_mutation_run};

let (asked, result) = service_registry::pump_mutation_run(
    k,
    ingress,
    held,
    generations,
    endpoint,
    0,
);
match result {
Err(halt) => {},
Ok((next, processed)) => {
if processed < service_registry::SERVICE_CONTROL_PUMP_BUDGET {

} else {
lemma_service_registry_drain_mutation_run_from(asked, ingress, next, generations, endpoint);
}
},
}
}

pub(crate) broadcast proof fn lemma_service_registry_drain_mutation_run(
    k: kernel::Transcript,
    ingress: service_control::Ingress,
    held: service_registry::Held,
    generations: service_registry::Generations,
    endpoint: ipc::CapabilityHandle,
)
    ensures
        idle(
            k,
            #[trigger] service_registry::drain_mutation_run(
                k,
                ingress,
                held,
                generations,
                endpoint,
            ).0,
        ),
{
    lemma_service_registry_drain_mutation_run_from(k, ingress, held, generations, endpoint);
}

pub(crate) broadcast proof fn lemma_nullfs_restart_probe_completed_run(
    k: kernel::Transcript,
    tested: nullfs_restart_probe::Tested,
    generations: service_registry::Generations,
)
    ensures
        idle(k, #[trigger] nullfs_restart_probe::completed_run(k, tested, generations).0),
{
    broadcast use {group_idle, lemma_service_registry_drain_mutation_run};

}

pub(crate) broadcast proof fn lemma_syscall_wait_run(
    k: kernel::Transcript,
    process_id: syscall::ProcessId,
)
    ensures
        idle(k, #[trigger] syscall::wait_run(k, process_id).0),
{
    broadcast use {group_idle};

}

pub(crate) broadcast proof fn lemma_probe_wait_step_run(
    k: kernel::Transcript,
    process_id: syscall::ProcessId,
    text: init_text::Text,
)
    ensures
        idle(k, #[trigger] probe::wait_step_run(k, process_id, text).0),
{
    broadcast use {group_idle, lemma_syscall_wait_run};

}

proof fn lemma_probe_wait_run_from(
    k: kernel::Transcript,
    process_id: syscall::ProcessId,
    text: init_text::Text,
)
    ensures
        idle(k, probe::wait_run(k, process_id, text).0),
    decreases k.unread(),
{
    broadcast use {group_idle, lemma_probe_wait_step_run};

let (waited, result) = probe::wait_step_run(k, process_id, text);
match result {
Err(halt) => {},
Ok(true) => {},
Ok(false) => {
lemma_probe_wait_run_from(waited, process_id, text);
},
}
}

pub(crate) broadcast proof fn lemma_probe_wait_run(
    k: kernel::Transcript,
    process_id: syscall::ProcessId,
    text: init_text::Text,
)
    ensures
        idle(k, #[trigger] probe::wait_run(k, process_id, text).0),
{
    lemma_probe_wait_run_from(k, process_id, text);
}

pub(crate) broadcast proof fn lemma_probe_probe_run(
    k: kernel::Transcript,
    command: init_text::Text,
    endpoint: ipc::CapabilityHandle,
    failed: init_text::Text,
    passed: init_text::Text,
)
    ensures
        calm(k, #[trigger] probe::probe_run(k, command, endpoint, failed, passed).0),
{
    broadcast use {
        group_calm,
        lemma_init_run_announce_run,
        lemma_probe_launch_run,
        lemma_probe_wait_run,
    };

}

pub(crate) broadcast proof fn lemma_nullfs_restart_probe_forced_end_run(
    k: kernel::Transcript,
    request_endpoint: ipc::CapabilityHandle,
    tool: syscall::ProcessId,
)
    ensures
        calm(k, #[trigger] nullfs_restart_probe::forced_end_run(k, request_endpoint, tool).0),
{
    broadcast use {group_calm, lemma_probe_probe_run, lemma_probe_wait_run};

}

pub(crate) broadcast proof fn lemma_contained_service_create_endpoints_run(
    k: kernel::Transcript,
    text: init_text::Text,
)
    ensures
        idle(k, #[trigger] contained_service::create_endpoints_run(k, text).0),
{
    broadcast use {group_idle};

}

pub(crate) broadcast proof fn lemma_nullfs_probes_close_both_run(
    k: kernel::Transcript,
    first: ipc::CapabilityHandle,
    second: ipc::CapabilityHandle,
    text: init_text::Text,
)
    ensures
        idle(k, #[trigger] nullfs_probes::close_both_run(k, first, second, text).0),
{
    broadcast use {group_idle, lemma_ipc_close_run};

}

pub(crate) broadcast proof fn lemma_nullfs_probes_renew_run(
    k: kernel::Transcript,
    resources: contained_service::GenerationResources,
    old_object: u64,
    text: init_text::Text,
)
    ensures
        idle(k, #[trigger] nullfs_probes::renew_run(k, resources, old_object, text).0),
{
    broadcast use {
        group_idle,
        lemma_contained_service_create_endpoints_run,
        lemma_nullfs_probes_close_both_run,
        lemma_nullfs_probes_object_run,
    };

}

pub(crate) broadcast proof fn lemma_service_teardown_kill_run(
    k: kernel::Transcript,
    service: service_cleanup::Service,
    group: syscall::ProcessId,
)
    ensures
        idle(k, #[trigger] service_teardown::kill_run(k, service, group).0),
{
    broadcast use {group_idle, lemma_service_teardown_report_run, lemma_syscall_signal_group_run};

}

pub(crate) broadcast proof fn lemma_service_teardown_group_round_run(
    k: kernel::Transcript,
    service: service_cleanup::Service,
    group: syscall::ProcessId,
    leader: Option<syscall::ProcessId>,
)
    ensures
        idle(k, #[trigger] service_teardown::group_round_run(k, service, group, leader).0),
{
    broadcast use {
        group_idle,
        lemma_service_teardown_kill_run,
        lemma_service_teardown_pause_run,
        lemma_service_teardown_reap_leader_run,
    };

}

proof fn lemma_service_teardown_group_run_from(
    k: kernel::Transcript,
    service: service_cleanup::Service,
    group: syscall::ProcessId,
    leader: Option<syscall::ProcessId>,
    emptied: bool,
    rounds: nat,
    reported: bool,
)
    ensures
        idle(
            k,
            service_teardown::group_run(k, service, group, leader, emptied, rounds, reported).0,
        ),
    decreases rounds,
{
    broadcast use {
        group_idle,
        lemma_service_teardown_group_round_run,
        lemma_service_teardown_report_budget_run,
    };

if rounds == 0 {

} else {
let (asked, round) = service_teardown::group_round_run(k, service, group, leader);
match round {
None => {},
Some(service_teardown::Round::Over { clean, leader }) => {},
Some(service_teardown::Round::Again { emptied, leader }) => {
lemma_service_teardown_group_run_from(
                asked,
                service,
                group,
                leader,
                emptied,
                (rounds - 1) as nat,
                reported,
            );
},
}
}
}

pub(crate) broadcast proof fn lemma_service_teardown_group_run(
    k: kernel::Transcript,
    service: service_cleanup::Service,
    group: syscall::ProcessId,
    leader: Option<syscall::ProcessId>,
    emptied: bool,
    rounds: nat,
    reported: bool,
)
    ensures
        idle(
            k,
            #[trigger] service_teardown::group_run(
                k,
                service,
                group,
                leader,
                emptied,
                rounds,
                reported,
            ).0,
        ),
{
    lemma_service_teardown_group_run_from(k, service, group, leader, emptied, rounds, reported);
}

pub(crate) broadcast proof fn lemma_activation_end_group_run(
    k: kernel::Transcript,
    attempt: activation::ActivationAttempt,
)
    ensures
        idle(k, #[trigger] activation::end_group_run(k, attempt).0),
{
    broadcast use {group_idle, lemma_service_teardown_group_run};

}

pub(crate) broadcast proof fn lemma_service_teardown_inspect_job_run(
    k: kernel::Transcript,
    service: service_cleanup::Service,
    handle: Option<ipc::CapabilityHandle>,
)
    ensures
        idle(k, #[trigger] service_teardown::inspect_job_run(k, service, handle).0),
{
    broadcast use {group_idle, lemma_ipc_job_try_wait_run, lemma_service_teardown_report_run};

}

pub(crate) broadcast proof fn lemma_service_teardown_close_job_run(
    k: kernel::Transcript,
    service: service_cleanup::Service,
    management: Option<ipc::CapabilityHandle>,
    job: Option<ipc::CapabilityHandle>,
)
    ensures
        idle(k, #[trigger] service_teardown::close_job_run(k, service, management, job).0),
{
    broadcast use {
        group_idle,
        lemma_service_teardown_close_capability_run,
        lemma_service_teardown_inspect_job_run,
    };

}

pub(crate) broadcast proof fn lemma_activation_end_processes_run(
    k: kernel::Transcript,
    attempt: activation::ActivationAttempt,
)
    ensures
        idle(k, #[trigger] activation::end_processes_run(k, attempt).0),
{
    broadcast use {
        group_idle,
        lemma_activation_end_group_run,
        lemma_service_teardown_close_job_run,
        lemma_service_teardown_drain_run,
    };

}

pub(crate) broadcast proof fn lemma_activation_close_one_run(
    k: kernel::Transcript,
    service: service_cleanup::Service,
    handle: Option<ipc::CapabilityHandle>,
)
    ensures
        idle(k, #[trigger] activation::close_one_run(k, service, handle).0),
{
    broadcast use {group_idle, lemma_service_teardown_close_capability_run};

}

pub(crate) broadcast proof fn lemma_activation_close_bootstrap_run(
    k: kernel::Transcript,
    attempt: activation::ActivationAttempt,
)
    ensures
        idle(k, #[trigger] activation::close_bootstrap_run(k, attempt).0),
{
    broadcast use {group_idle, lemma_activation_close_one_run};

}

pub(crate) broadcast proof fn lemma_activation_close_generation_run(
    k: kernel::Transcript,
    attempt: activation::ActivationAttempt,
)
    ensures
        idle(k, #[trigger] activation::close_generation_run(k, attempt).0),
{
    broadcast use {group_idle, lemma_activation_close_one_run};

}

pub(crate) broadcast proof fn lemma_activation_close_management_run(
    k: kernel::Transcript,
    attempt: activation::ActivationAttempt,
)
    ensures
        idle(k, #[trigger] activation::close_management_run(k, attempt).0),
{
    broadcast use {group_idle, lemma_activation_close_one_run};

}

pub(crate) broadcast proof fn lemma_activation_close_readiness_run(
    k: kernel::Transcript,
    attempt: activation::ActivationAttempt,
)
    ensures
        idle(k, #[trigger] activation::close_readiness_run(k, attempt).0),
{
    broadcast use {group_idle, lemma_activation_close_one_run};

}

pub(crate) broadcast proof fn lemma_activation_close_routes_run(
    k: kernel::Transcript,
    attempt: activation::ActivationAttempt,
)
    ensures
        idle(k, #[trigger] activation::close_routes_run(k, attempt).0),
{
    broadcast use {group_idle, lemma_activation_close_one_run};

}

pub(crate) broadcast proof fn lemma_service_teardown_release_barrier_run(
    k: kernel::Transcript,
    service: service_cleanup::Service,
    barrier: Option<syscall::LaunchBarrier>,
)
    ensures
        idle(k, #[trigger] service_teardown::release_barrier_run(k, service, barrier).0),
{
    broadcast use {group_idle, lemma_service_teardown_report_run, lemma_syscall_release_run};

}

pub(crate) broadcast proof fn lemma_activation_free_barrier_run(
    k: kernel::Transcript,
    attempt: activation::ActivationAttempt,
)
    ensures
        idle(k, #[trigger] activation::free_barrier_run(k, attempt).0),
{
    broadcast use {group_idle, lemma_service_teardown_release_barrier_run};

}

pub(crate) broadcast proof fn lemma_activation_release_rest_run(
    k: kernel::Transcript,
    attempt: activation::ActivationAttempt,
)
    ensures
        idle(k, #[trigger] activation::release_rest_run(k, attempt).0),
{
    broadcast use {
        group_idle,
        lemma_activation_close_bootstrap_run,
        lemma_activation_close_generation_run,
        lemma_activation_close_management_run,
        lemma_activation_close_readiness_run,
        lemma_activation_close_routes_run,
        lemma_activation_free_barrier_run,
    };

}

pub(crate) broadcast proof fn lemma_activation_abort_run(
    k: kernel::Transcript,
    attempt: activation::ActivationAttempt,
)
    ensures
        idle(k, #[trigger] activation::abort_run(k, attempt).0),
{
    reveal(activation::abort_run);
    broadcast use {
        group_idle,
        lemma_activation_end_processes_run,
        lemma_activation_release_rest_run,
    };

}

pub(crate) broadcast proof fn lemma_contained_service_fail_attempt_run<T>(
    k: kernel::Transcript,
    attempt: activation::ActivationAttempt,
    unclean: init_text::Text,
    text: init_text::Text,
)
    ensures
        idle(k, #[trigger] contained_service::fail_attempt_run::<T>(k, attempt, unclean, text).0),
{
    broadcast use {group_idle, lemma_activation_abort_run};

}

pub(crate) broadcast proof fn lemma_init_run_linger_run(k: kernel::Transcript)
    ensures
        idle(k, #[trigger] init_run::linger_run(k).0),
{
    broadcast use {group_idle, lemma_syscall_yield_run};

}

pub(crate) broadcast proof fn lemma_contained_service_look_child_run(
    k: kernel::Transcript,
    service: supervisor::Service,
    attempt: activation::ActivationAttempt,
    process_id: syscall::ProcessId,
    messages: contained_service::ServiceMessages,
)
    ensures
        idle(
            k,
            #[trigger] contained_service::look_child_run(
                k,
                service,
                attempt,
                process_id,
                messages,
            ).0,
        ),
{
    broadcast use {
        group_idle,
        lemma_contained_service_fail_attempt_run,
        lemma_init_run_linger_run,
        lemma_syscall_try_wait_run,
    };

}

pub(crate) broadcast proof fn lemma_contained_service_look_ready_run(
    k: kernel::Transcript,
    service: supervisor::Service,
    attempt: activation::ActivationAttempt,
    process_id: syscall::ProcessId,
    readiness: ipc::CapabilityHandle,
    messages: contained_service::ServiceMessages,
)
    ensures
        idle(
            k,
            #[trigger] contained_service::look_ready_run(
                k,
                service,
                attempt,
                process_id,
                readiness,
                messages,
            ).0,
        ),
{
    broadcast use {
        group_idle,
        lemma_contained_service_fail_attempt_run,
        lemma_init_run_announce_run,
        lemma_ipc_try_receive_run,
    };

}

pub(crate) broadcast proof fn lemma_contained_service_look_run(
    k: kernel::Transcript,
    service: supervisor::Service,
    attempt: activation::ActivationAttempt,
    process_id: syscall::ProcessId,
    readiness: ipc::CapabilityHandle,
    messages: contained_service::ServiceMessages,
)
    ensures
        idle(
            k,
            #[trigger] contained_service::look_run(
                k,
                service,
                attempt,
                process_id,
                readiness,
                messages,
            ).0,
        ),
{
    broadcast use {
        group_idle,
        lemma_contained_service_look_child_run,
        lemma_contained_service_look_ready_run,
    };

}

proof fn lemma_contained_service_await_run_from(
    k: kernel::Transcript,
    service: supervisor::Service,
    attempt: activation::ActivationAttempt,
    process_id: syscall::ProcessId,
    readiness: ipc::CapabilityHandle,
    messages: contained_service::ServiceMessages,
)
    ensures
        idle(
            k,
            contained_service::await_run(k, service, attempt, process_id, readiness, messages).0,
        ),
    decreases k.unread(),
{
    broadcast use {group_idle, lemma_contained_service_look_run};

let (looked, result) = contained_service::look_run(
    k,
    service,
    attempt,
    process_id,
    readiness,
    messages,
);
match result {
Ok((next, contained_service::StartProgress::Again)) => {
lemma_contained_service_await_run_from(
            looked,
            next,
            attempt,
            process_id,
            readiness,
            messages,
        );
},
_ => {},
}
}

pub(crate) broadcast proof fn lemma_contained_service_await_run(
    k: kernel::Transcript,
    service: supervisor::Service,
    attempt: activation::ActivationAttempt,
    process_id: syscall::ProcessId,
    readiness: ipc::CapabilityHandle,
    messages: contained_service::ServiceMessages,
)
    ensures
        idle(
            k,
            #[trigger] contained_service::await_run(
                k,
                service,
                attempt,
                process_id,
                readiness,
                messages,
            ).0,
        ),
{
    lemma_contained_service_await_run_from(k, service, attempt, process_id, readiness, messages);
}

pub(crate) broadcast proof fn lemma_activation_check_job_run(
    k: kernel::Transcript,
    management: ipc::CapabilityHandle,
    job: ipc::CapabilityHandle,
)
    ensures
        idle(k, #[trigger] activation::check_job_run(k, management, job).0),
{
    broadcast use {group_idle, lemma_ipc_info_run, lemma_ipc_job_try_wait_run};

}

pub(crate) broadcast proof fn lemma_activation_create_job_run(
    k: kernel::Transcript,
    attempt: activation::ActivationAttempt,
)
    ensures
        idle(k, #[trigger] activation::create_job_run(k, attempt).0),
{
    reveal(activation::create_job_run);
    broadcast use {group_idle, lemma_activation_check_job_run};

}

pub(crate) broadcast proof fn lemma_contained_service_granted_bootstrap_run(
    k: kernel::Transcript,
    attempt: activation::ActivationAttempt,
    process_id: syscall::ProcessId,
    readiness: ipc::CapabilityHandle,
    request: ipc::CapabilityHandle,
    additional: Seq<init_run::BootstrapCapability>,
)
    ensures
        idle(
            k,
            #[trigger] contained_service::granted_bootstrap_run(
                k,
                attempt,
                process_id,
                readiness,
                request,
                additional,
            ).0,
        ),
{
    broadcast use {group_idle, lemma_init_run_grant_each_run};

}

pub(crate) broadcast proof fn lemma_handle_discard_run(k: kernel::Transcript, raw: Option<u64>)
    ensures
        idle(k, #[trigger] handle::discard_run(k, raw).0),
{
    broadcast use {group_idle, lemma_ipc_close_run};

}

proof fn lemma_managed_startup_close_all_run_from(k: kernel::Transcript, handles: Seq<u64>, i: int)
    ensures
        idle(k, managed_startup::close_all_run(k, handles, i).0),
    decreases handles.len() - i,
{
    broadcast use {group_idle, lemma_handle_discard_run};

if i >= handles.len() {

} else {
let (closed, done) = handle::discard_run(k, Some(handles[i]));
match done {
None => {},
Some(_) => {
lemma_managed_startup_close_all_run_from(closed, handles, i + 1);
},
}
}
}

pub(crate) broadcast proof fn lemma_managed_startup_close_all_run(
    k: kernel::Transcript,
    handles: Seq<u64>,
    i: int,
)
    ensures
        idle(k, #[trigger] managed_startup::close_all_run(k, handles, i).0),
{
    lemma_managed_startup_close_all_run_from(k, handles, i);
}

proof fn lemma_managed_startup_duplicate_all_run_from(
    k: kernel::Transcript,
    capabilities: Seq<managed_startup::ManagedToolCapability>,
    duplicates: Seq<u64>,
)
    ensures
        idle(k, managed_startup::duplicate_all_run(k, capabilities, duplicates).0),
    decreases capabilities.len() - duplicates.len(),
{
    broadcast use {group_idle, lemma_managed_startup_close_all_run};

let i = duplicates.len() as int;
if i >= capabilities.len() {

} else {
let (asked, value) = ipc::value_run(
            k,
            kernel::Op::Duplicate {
                handle: capabilities[i].source_handle,
                rights: capabilities[i].rights.with(ipc::Rights::transfer()).raw,
            },
        );
match value {
None => {},
Some(Err(error)) => {},
Some(Ok(handle)) => {
lemma_managed_startup_duplicate_all_run_from(asked, capabilities, duplicates.push(handle));
},
}
}
}

pub(crate) broadcast proof fn lemma_managed_startup_duplicate_all_run(
    k: kernel::Transcript,
    capabilities: Seq<managed_startup::ManagedToolCapability>,
    duplicates: Seq<u64>,
)
    ensures
        idle(k, #[trigger] managed_startup::duplicate_all_run(k, capabilities, duplicates).0),
{
    lemma_managed_startup_duplicate_all_run_from(k, capabilities, duplicates);
}

pub(crate) broadcast proof fn lemma_ipc_send_move_many_run(
    k: kernel::Transcript,
    endpoint: ipc::CapabilityHandle,
    bytes: Seq<u8>,
    transfers: Seq<ipc::Transfer>,
)
    ensures
        idle(k, #[trigger] ipc::send_move_many_run(k, endpoint, bytes, transfers).0),
{
    broadcast use {group_idle};

}

pub(crate) broadcast proof fn lemma_startup_transport_send_record_run(
    k: kernel::Transcript,
    endpoint: u64,
    plan: startup_record::StartupPlan,
    transfers: Seq<ipc::Transfer>,
)
    ensures
        idle(k, #[trigger] startup_transport::send_record_run(k, endpoint, plan, transfers).0),
{
    broadcast use {group_idle, lemma_ipc_send_move_many_run};

}

pub(crate) broadcast proof fn lemma_managed_startup_send_capabilities_run(
    k: kernel::Transcript,
    sender: u64,
    runtime_role: startup_record::StartupRuntimeRole,
    capabilities: Seq<managed_startup::ManagedToolCapability>,
)
    ensures
        idle(
            k,
            #[trigger] managed_startup::send_capabilities_run(
                k,
                sender,
                runtime_role,
                capabilities,
            ).0,
        ),
{
    broadcast use {
        group_idle,
        lemma_managed_startup_close_all_run,
        lemma_managed_startup_duplicate_all_run,
        lemma_startup_transport_send_record_run,
    };

}

proof fn lemma_startup_transport_send_fragments_run_from(
    k: kernel::Transcript,
    endpoint: u64,
    fragments: Seq<process_start::Fragment>,
)
    ensures
        idle(k, startup_transport::send_fragments_run(k, endpoint, fragments).0),
    decreases fragments.len(),
{
    broadcast use {group_idle, lemma_ipc_send_run};

if fragments.len() == 0 {

} else {
let (sent, result) = ipc::send_run(k, endpoint, fragments[0].frame(), None);
match result {
Some(Ok(_)) => {
lemma_startup_transport_send_fragments_run_from(sent, endpoint, fragments.drop_first());
},
_ => {},
}
}
}

pub(crate) broadcast proof fn lemma_startup_transport_send_fragments_run(
    k: kernel::Transcript,
    endpoint: u64,
    fragments: Seq<process_start::Fragment>,
)
    ensures
        idle(k, #[trigger] startup_transport::send_fragments_run(k, endpoint, fragments).0),
{
    lemma_startup_transport_send_fragments_run_from(k, endpoint, fragments);
}

proof fn lemma_startup_transport_send_sections_run_from(
    k: kernel::Transcript,
    endpoint: u64,
    sections: Seq<process_start::Section>,
    i: int,
)
    ensures
        idle(k, startup_transport::send_sections_run(k, endpoint, sections, i).0),
    decreases sections.len() - i,
{
    broadcast use {group_idle, lemma_ipc_send_run, lemma_startup_transport_send_fragments_run};

if i >= sections.len() {

} else if sections[i].payload.len() > abi::MAX_ARGUMENT_BYTES {

} else {
let (sent, result) = startup_transport::send_fragments_run(
    k,
    endpoint,
    startup_transport::fragments_of(sections[i]),
);
match result {
Some(Ok(_)) => {
lemma_startup_transport_send_sections_run_from(sent, endpoint, sections, i + 1);
},
_ => {},
}
}
}

pub(crate) broadcast proof fn lemma_startup_transport_send_sections_run(
    k: kernel::Transcript,
    endpoint: u64,
    sections: Seq<process_start::Section>,
    i: int,
)
    ensures
        idle(k, #[trigger] startup_transport::send_sections_run(k, endpoint, sections, i).0),
{
    lemma_startup_transport_send_sections_run_from(k, endpoint, sections, i);
}

pub(crate) broadcast proof fn lemma_startup_transport_send_data_run(
    k: kernel::Transcript,
    endpoint: u64,
    sections: Seq<process_start::Section>,
)
    ensures
        idle(k, #[trigger] startup_transport::send_data_run(k, endpoint, sections).0),
{
    broadcast use {group_idle, lemma_startup_transport_send_sections_run};

}

pub(crate) broadcast proof fn lemma_service_launch_describe_run(
    k: kernel::Transcript,
    sender: ipc::CapabilityHandle,
    identity: startup_sections::StartupIdentity,
    arguments: Seq<Seq<u8>>,
    launch: startup_sections::StartupLaunch,
)
    ensures
        idle(k, #[trigger] service_launch::describe_run(k, sender, identity, arguments, launch).0),
{
    broadcast use {group_idle, lemma_startup_transport_send_data_run};

}

pub(crate) broadcast proof fn lemma_service_launch_managed_start_run(
    k: kernel::Transcript,
    sender: ipc::CapabilityHandle,
    command: Seq<u8>,
    process_id: syscall::ProcessId,
    generation: identity::ProviderGeneration,
    restart_count: u32,
    identity: managed_startup::ManagedServiceIdentity,
    capabilities: Seq<managed_startup::ManagedToolCapability>,
)
    ensures
        idle(
            k,
            #[trigger] service_launch::managed_start_run(
                k,
                sender,
                command,
                process_id,
                generation,
                restart_count,
                identity,
                capabilities,
            ).0,
        ),
{
    broadcast use {
        group_idle,
        lemma_managed_startup_send_capabilities_run,
        lemma_service_launch_describe_run,
    };

}

pub(crate) broadcast proof fn lemma_contained_service_managed_bootstrap_run(
    k: kernel::Transcript,
    attempt: activation::ActivationAttempt,
    process_id: syscall::ProcessId,
    generation: identity::ProviderGeneration,
    service: supervisor::Service,
    identity: managed_startup::ManagedServiceIdentity,
    readiness: ipc::CapabilityHandle,
    request: ipc::CapabilityHandle,
    additional: Seq<init_run::BootstrapCapability>,
)
    ensures
        idle(
            k,
            #[trigger] contained_service::managed_bootstrap_run(
                k,
                attempt,
                process_id,
                generation,
                service,
                identity,
                readiness,
                request,
                additional,
            ).0,
        ),
{
    broadcast use {group_idle, lemma_init_run_grant_run, lemma_service_launch_managed_start_run};

}

pub(crate) broadcast proof fn lemma_activation_release_child_run(
    k: kernel::Transcript,
    attempt: activation::ActivationAttempt,
)
    ensures
        idle(k, #[trigger] activation::release_child_run(k, attempt).0),
{
    reveal(activation::release_child_run);
    broadcast use {
        group_idle,
        lemma_activation_close_bootstrap_run,
        lemma_activation_close_generation_run,
        lemma_activation_free_barrier_run,
    };

}

pub(crate) broadcast proof fn lemma_contained_service_release_run(
    k: kernel::Transcript,
    attempt: activation::ActivationAttempt,
    messages: contained_service::ServiceMessages,
)
    ensures
        idle(k, #[trigger] contained_service::release_run(k, attempt, messages).0),
{
    broadcast use {
        group_idle,
        lemma_activation_release_child_run,
        lemma_contained_service_fail_attempt_run,
    };

}

pub(crate) broadcast proof fn lemma_contained_service_bootstrap_run(
    k: kernel::Transcript,
    attempt: activation::ActivationAttempt,
    process_id: syscall::ProcessId,
    generation: identity::ProviderGeneration,
    service: supervisor::Service,
    identity: Option<managed_startup::ManagedServiceIdentity>,
    readiness: ipc::CapabilityHandle,
    request: ipc::CapabilityHandle,
    additional: Seq<init_run::BootstrapCapability>,
    messages: contained_service::ServiceMessages,
)
    ensures
        idle(
            k,
            #[trigger] contained_service::bootstrap_run(
                k,
                attempt,
                process_id,
                generation,
                service,
                identity,
                readiness,
                request,
                additional,
                messages,
            ).0,
        ),
{
    broadcast use {
        group_idle,
        lemma_contained_service_fail_attempt_run,
        lemma_contained_service_granted_bootstrap_run,
        lemma_contained_service_managed_bootstrap_run,
        lemma_contained_service_release_run,
    };

}

pub(crate) broadcast proof fn lemma_activation_say_if_run(
    k: kernel::Transcript,
    announcement: Option<init_text::Text>,
)
    ensures
        idle(k, #[trigger] activation::say_if_run(k, announcement).0),
{
    broadcast use {group_idle, lemma_service_teardown_say_run};

}

pub(crate) broadcast proof fn lemma_activation_spawn_child_run(
    k: kernel::Transcript,
    attempt: activation::ActivationAttempt,
    command: Seq<u8>,
    announcement: Option<init_text::Text>,
)
    ensures
        calm(k, #[trigger] activation::spawn_child_run(k, attempt, command, announcement).0),
{
    reveal(activation::spawn_child_run);
    broadcast use {
        group_calm,
        lemma_activation_say_if_run,
        lemma_syscall_barrier_run,
        lemma_syscall_spawn_run,
    };

}

pub(crate) broadcast proof fn lemma_activation_assign_run(
    k: kernel::Transcript,
    attempt: activation::ActivationAttempt,
    management: ipc::CapabilityHandle,
    job: ipc::CapabilityHandle,
    process_id: syscall::ProcessId,
)
    ensures
        idle(k, #[trigger] activation::assign_run(k, attempt, management, job, process_id).0),
{
    reveal(activation::assign_run);
    broadcast use {group_idle, lemma_activation_close_management_run, lemma_ipc_info_run};

}

pub(crate) broadcast proof fn lemma_contained_service_assign_run(
    k: kernel::Transcript,
    attempt: activation::ActivationAttempt,
    process_id: syscall::ProcessId,
    messages: contained_service::ServiceMessages,
)
    ensures
        idle(k, #[trigger] contained_service::assign_run(k, attempt, process_id, messages).0),
{
    broadcast use {
        group_idle,
        lemma_activation_assign_run,
        lemma_contained_service_fail_attempt_run,
    };

}

pub(crate) broadcast proof fn lemma_contained_service_launch_run(
    k: kernel::Transcript,
    attempt: activation::ActivationAttempt,
    command: Seq<u8>,
    messages: contained_service::ServiceMessages,
)
    ensures
        calm(k, #[trigger] contained_service::launch_run(k, attempt, command, messages).0),
{
    broadcast use {
        group_calm,
        lemma_activation_spawn_child_run,
        lemma_contained_service_assign_run,
        lemma_contained_service_fail_attempt_run,
        lemma_init_run_announce_run,
    };

}

pub(crate) broadcast proof fn lemma_service_route_queue_generation_run(
    k: kernel::Transcript,
    source: ipc::CapabilityHandle,
    generation: identity::ProviderGeneration,
)
    ensures
        idle(k, #[trigger] service_route::queue_generation_run(k, source, generation).0),
{
    broadcast use {group_idle, lemma_ipc_info_run, lemma_ipc_send_run};

}

pub(crate) broadcast proof fn lemma_contained_service_queue_run(
    k: kernel::Transcript,
    attempt: activation::ActivationAttempt,
    source: ipc::CapabilityHandle,
    generation: identity::ProviderGeneration,
    messages: contained_service::ServiceMessages,
)
    ensures
        idle(
            k,
            #[trigger] contained_service::queue_run(k, attempt, source, generation, messages).0,
        ),
{
    broadcast use {
        group_idle,
        lemma_contained_service_fail_attempt_run,
        lemma_service_route_queue_generation_run,
    };

}

pub(crate) broadcast proof fn lemma_ipc_endpoint_create_pair_run(k: kernel::Transcript)
    ensures
        idle(k, #[trigger] ipc::endpoint_create_pair_run(k).0),
{
    broadcast use {group_idle};

}

pub(crate) broadcast proof fn lemma_contained_service_prepare_run(
    k: kernel::Transcript,
    attempt: activation::ActivationAttempt,
    managed: bool,
    generation: identity::ProviderGeneration,
    messages: contained_service::ServiceMessages,
)
    ensures
        idle(
            k,
            #[trigger] contained_service::prepare_run(k, attempt, managed, generation, messages).0,
        ),
{
    broadcast use {
        group_idle,
        lemma_contained_service_fail_attempt_run,
        lemma_contained_service_queue_run,
        lemma_ipc_endpoint_create_pair_run,
    };

}

pub(crate) broadcast proof fn lemma_contained_service_begin_run(
    k: kernel::Transcript,
    starting: contained_service::Starting,
    generation: identity::ProviderGeneration,
    additional: Seq<init_run::BootstrapCapability>,
    messages: contained_service::ServiceMessages,
    containment: contained_service::ServiceContainment,
)
    ensures
        calm(
            k,
            #[trigger] contained_service::begin_run(
                k,
                starting,
                generation,
                additional,
                messages,
                containment,
            ).0,
        ),
{
    broadcast use {
        group_calm,
        lemma_activation_create_job_run,
        lemma_contained_service_bootstrap_run,
        lemma_contained_service_fail_attempt_run,
        lemma_contained_service_launch_run,
        lemma_contained_service_prepare_run,
    };

}

pub(crate) broadcast proof fn lemma_contained_service_close_endpoint_run(
    k: kernel::Transcript,
    containment: contained_service::ServiceContainment,
    handle: ipc::CapabilityHandle,
    text: init_text::Text,
)
    ensures
        idle(k, #[trigger] contained_service::close_endpoint_run(k, containment, handle, text).0),
{
    broadcast use {group_idle, lemma_service_teardown_close_capability_run};

}

pub(crate) broadcast proof fn lemma_contained_service_close_endpoints_run(
    k: kernel::Transcript,
    containment: contained_service::ServiceContainment,
    readiness: ipc::CapabilityHandle,
    request: ipc::CapabilityHandle,
    text: init_text::Text,
)
    ensures
        idle(
            k,
            #[trigger] contained_service::close_endpoints_run(
                k,
                containment,
                readiness,
                request,
                text,
            ).0,
        ),
{
    broadcast use {group_idle, lemma_contained_service_close_endpoint_run};

}

pub(crate) broadcast proof fn lemma_contained_service_replace_endpoints_run(
    k: kernel::Transcript,
    containment: contained_service::ServiceContainment,
    readiness: ipc::CapabilityHandle,
    request: ipc::CapabilityHandle,
    close_failed: init_text::Text,
    create_failed: init_text::Text,
)
    ensures
        idle(
            k,
            #[trigger] contained_service::replace_endpoints_run(
                k,
                containment,
                readiness,
                request,
                close_failed,
                create_failed,
            ).0,
        ),
{
    broadcast use {
        group_idle,
        lemma_contained_service_close_endpoints_run,
        lemma_contained_service_create_endpoints_run,
    };

}

proof fn lemma_init_run_backoff_run_from(k: kernel::Transcript, yields: nat)
    ensures
        idle(k, init_run::backoff_run(k, yields).0),
    decreases yields,
{
    broadcast use {group_idle, lemma_init_run_rest_run};

if yields == 0 {

} else {
let (rested, result) = init_run::rest_run(k, init_text::Text::TmpfsServiceFailed);
match result {
Err(halt) => {},
Ok(_) => {
lemma_init_run_backoff_run_from(rested, (yields - 1) as nat);
},
}
}
}

pub(crate) broadcast proof fn lemma_init_run_backoff_run(k: kernel::Transcript, yields: nat)
    ensures
        idle(k, #[trigger] init_run::backoff_run(k, yields).0),
{
    lemma_init_run_backoff_run_from(k, yields);
}

pub(crate) broadcast proof fn lemma_contained_service_renew_run(
    k: kernel::Transcript,
    attempt: activation::ActivationAttempt,
    containment: contained_service::ServiceContainment,
    readiness: ipc::CapabilityHandle,
    request: ipc::CapabilityHandle,
    backoff_yields: u32,
    messages: contained_service::ServiceMessages,
)
    ensures
        idle(
            k,
            #[trigger] contained_service::renew_run(
                k,
                attempt,
                containment,
                readiness,
                request,
                backoff_yields,
                messages,
            ).0,
        ),
{
    broadcast use {
        group_idle,
        lemma_activation_abort_run,
        lemma_contained_service_replace_endpoints_run,
        lemma_init_run_announce_run,
        lemma_init_run_backoff_run,
    };

}

pub(crate) broadcast proof fn lemma_contained_service_outcome_run(
    k: kernel::Transcript,
    starting: contained_service::Starting,
    attempt: activation::ActivationAttempt,
    progress: contained_service::StartProgress,
    generation: identity::ProviderGeneration,
    messages: contained_service::ServiceMessages,
    containment: contained_service::ServiceContainment,
)
    ensures
        idle(
            k,
            #[trigger] contained_service::outcome_run(
                k,
                starting,
                attempt,
                progress,
                generation,
                messages,
                containment,
            ).0,
        ),
{
    broadcast use {group_idle, lemma_contained_service_renew_run};

}

pub(crate) broadcast proof fn lemma_contained_service_attempt_run(
    k: kernel::Transcript,
    starting: contained_service::Starting,
    additional: Seq<init_run::BootstrapCapability>,
    messages: contained_service::ServiceMessages,
    containment: contained_service::ServiceContainment,
)
    ensures
        calm(
            k,
            #[trigger] contained_service::attempt_run(
                k,
                starting,
                additional,
                messages,
                containment,
            ).0,
        ),
{
    broadcast use {
        group_calm,
        lemma_contained_service_await_run,
        lemma_contained_service_begin_run,
        lemma_contained_service_outcome_run,
    };

}

proof fn lemma_contained_service_start_run_from(
    k: kernel::Transcript,
    starting: contained_service::Starting,
    additional: Seq<init_run::BootstrapCapability>,
    messages: contained_service::ServiceMessages,
    containment: contained_service::ServiceContainment,
)
    ensures
        calm(k, contained_service::start_run(k, starting, additional, messages, containment).0),
    decreases u64::MAX - starting.generations,
{
    broadcast use {group_calm, lemma_contained_service_attempt_run};

let (tried, result) = contained_service::attempt_run(
    k,
    starting,
    additional,
    messages,
    containment,
);
match result {
Err(halt) => {},
Ok((next, contained_service::Attempted::Running { generation, job })) => {},
Ok((next, contained_service::Attempted::Again)) => {
if next.generations > starting.generations {
lemma_contained_service_start_run_from(tried, next, additional, messages, containment);
}
},
}
}

pub(crate) broadcast proof fn lemma_contained_service_start_run(
    k: kernel::Transcript,
    starting: contained_service::Starting,
    additional: Seq<init_run::BootstrapCapability>,
    messages: contained_service::ServiceMessages,
    containment: contained_service::ServiceContainment,
)
    ensures
        calm(
            k,
            #[trigger] contained_service::start_run(
                k,
                starting,
                additional,
                messages,
                containment,
            ).0,
        ),
{
    lemma_contained_service_start_run_from(k, starting, additional, messages, containment);
}

proof fn lemma_filesystem_registry_register_nullfs_tries_from(
    k: kernel::Transcript,
    generation: u32,
    endpoint: ipc::CapabilityHandle,
    tries: nat,
)
    ensures
        mild(k, filesystem_registry::register_nullfs_tries(k, generation, endpoint, tries).0),
    decreases tries,
{
    broadcast use {group_mild, lemma_init_run_rest_run};

if tries == 0 {

} else {
let (asked, result) = platform::register_run(
            k,
            platform::FilesystemProvider::Nullfs,
            endpoint,
            generation,
        );
match result {
None => {},
Some(Ok(_)) => {},
Some(Err(error)) => {
if error == platform::Errno::try_again() {
let (rested, yielded) = init_run::rest_run(
                    asked,
                    init_text::Text::NullfsServiceBootstrapFailed,
                );
match yielded {
Err(halt) => {},
Ok(_) => {
lemma_filesystem_registry_register_nullfs_tries_from(
                        rested,
                        generation,
                        endpoint,
                        (tries - 1) as nat,
                    );
},
}
}
},
}
}
}

pub(crate) broadcast proof fn lemma_filesystem_registry_register_nullfs_tries(
    k: kernel::Transcript,
    generation: u32,
    endpoint: ipc::CapabilityHandle,
    tries: nat,
)
    ensures
        mild(
            k,
            #[trigger] filesystem_registry::register_nullfs_tries(k, generation, endpoint, tries).0,
        ),
{
    lemma_filesystem_registry_register_nullfs_tries_from(k, generation, endpoint, tries);
}

pub(crate) broadcast proof fn lemma_filesystem_registry_register_nullfs_run(
    k: kernel::Transcript,
    generation: identity::ProviderGeneration,
    endpoint: ipc::CapabilityHandle,
)
    ensures
        mild(k, #[trigger] filesystem_registry::register_nullfs_run(k, generation, endpoint).0),
{
    broadcast use {group_mild, lemma_filesystem_registry_register_nullfs_tries};

}

pub(crate) broadcast proof fn lemma_nullfs_probes_replace_run(
    k: kernel::Transcript,
    nullfs: nullfs_probes::Nullfs,
    old_generation: identity::ProviderGeneration,
    grants: Seq<init_run::BootstrapCapability>,
    text: init_text::Text,
)
    ensures
        mild(k, #[trigger] nullfs_probes::replace_run(k, nullfs, old_generation, grants, text).0),
{
    broadcast use {
        group_mild,
        lemma_contained_service_start_run,
        lemma_filesystem_registry_register_nullfs_run,
    };

}

pub(crate) broadcast proof fn lemma_nullfs_restart_probe_replaced_run(
    k: kernel::Transcript,
    tested: nullfs_restart_probe::Tested,
    old_generation: identity::ProviderGeneration,
    old_object: u64,
    block: init_run::BootstrapCapability,
)
    ensures
        mild(
            k,
            #[trigger] nullfs_restart_probe::replaced_run(
                k,
                tested,
                old_generation,
                old_object,
                block,
            ).0,
        ),
{
    broadcast use {group_mild, lemma_nullfs_probes_renew_run, lemma_nullfs_probes_replace_run};

}

pub(crate) broadcast proof fn lemma_nullfs_restart_probe_forced_start_run(
    k: kernel::Transcript,
    tested: nullfs_restart_probe::Tested,
    generations: service_registry::Generations,
    block: init_run::BootstrapCapability,
    tool: syscall::ProcessId,
)
    ensures
        mild(
            k,
            #[trigger] nullfs_restart_probe::forced_start_run(
                k,
                tested,
                generations,
                block,
                tool,
            ).0,
        ),
{
    broadcast use {
        group_mild,
        lemma_nullfs_probes_object_run,
        lemma_nullfs_restart_probe_completed_run,
        lemma_nullfs_restart_probe_forced_end_run,
        lemma_nullfs_restart_probe_replaced_run,
    };

}

pub(crate) broadcast proof fn lemma_nullfs_restart_probe_forced_exit_run(
    k: kernel::Transcript,
    tested: nullfs_restart_probe::Tested,
    generations: service_registry::Generations,
    block: init_run::BootstrapCapability,
    tool: syscall::ProcessId,
)
    ensures
        mild(
            k,
            #[trigger] nullfs_restart_probe::forced_exit_run(k, tested, generations, block, tool).0,
        ),
{
    broadcast use {
        group_mild,
        lemma_nullfs_restart_probe_drained_run,
        lemma_nullfs_restart_probe_exited_run,
        lemma_nullfs_restart_probe_forced_start_run,
    };

}

pub(crate) broadcast proof fn lemma_nullfs_restart_probe_stopped_step_run(
    k: kernel::Transcript,
    service: supervisor::Service,
    process_id: syscall::ProcessId,
)
    ensures
        idle(k, #[trigger] nullfs_restart_probe::stopped_step_run(k, service, process_id).0),
{
    broadcast use {group_idle, lemma_syscall_wait_run};

}

proof fn lemma_nullfs_restart_probe_stopped_run_from(
    k: kernel::Transcript,
    service: supervisor::Service,
    process_id: syscall::ProcessId,
)
    ensures
        idle(k, nullfs_restart_probe::stopped_run(k, service, process_id).0),
    decreases k.unread(),
{
    broadcast use {group_idle, lemma_nullfs_restart_probe_stopped_step_run};

let (waited, result) = nullfs_restart_probe::stopped_step_run(k, service, process_id);
match result {
Err(halt) => {},
Ok(Some(observed)) => {},
Ok(None) => {
lemma_nullfs_restart_probe_stopped_run_from(waited, service, process_id);
},
}
}

pub(crate) broadcast proof fn lemma_nullfs_restart_probe_stopped_run(
    k: kernel::Transcript,
    service: supervisor::Service,
    process_id: syscall::ProcessId,
)
    ensures
        idle(k, #[trigger] nullfs_restart_probe::stopped_run(k, service, process_id).0),
{
    lemma_nullfs_restart_probe_stopped_run_from(k, service, process_id);
}

pub(crate) broadcast proof fn lemma_nullfs_restart_probe_stop_run(
    k: kernel::Transcript,
    service: supervisor::Service,
)
    ensures
        idle(k, #[trigger] nullfs_restart_probe::stop_run(k, service).0),
{
    broadcast use {
        group_idle,
        lemma_nullfs_restart_probe_stopped_run,
        lemma_syscall_signal_group_run,
    };

}

pub(crate) broadcast proof fn lemma_nullfs_restart_probe_forced_run(
    k: kernel::Transcript,
    tested: nullfs_restart_probe::Tested,
    generations: service_registry::Generations,
    block: init_run::BootstrapCapability,
)
    ensures
        mild(k, #[trigger] nullfs_restart_probe::forced_run(k, tested, generations, block).0),
{
    broadcast use {
        group_mild,
        lemma_nullfs_restart_probe_ask_run,
        lemma_nullfs_restart_probe_forced_exit_run,
        lemma_nullfs_restart_probe_stop_run,
    };

}

pub(crate) broadcast proof fn lemma_nullfs_probes_launch_pair_run(
    k: kernel::Transcript,
    command: init_text::Text,
    text: init_text::Text,
)
    ensures
        calm(k, #[trigger] nullfs_probes::launch_pair_run(k, command, text).0),
{
    broadcast use {
        group_calm,
        lemma_contained_service_create_endpoints_run,
        lemma_probe_launch_run,
    };

}

pub(crate) broadcast proof fn lemma_nullfs_restart_probe_ordered_end_run(
    k: kernel::Transcript,
    launched: (ipc::CapabilityHandle, ipc::CapabilityHandle, syscall::ProcessId),
    tool: syscall::ProcessId,
)
    ensures
        idle(k, #[trigger] nullfs_restart_probe::ordered_end_run(k, launched, tool).0),
{
    broadcast use {
        group_idle,
        lemma_ipc_send_run,
        lemma_nullfs_probes_close_both_run,
        lemma_probe_wait_run,
    };

}

pub(crate) broadcast proof fn lemma_nullfs_probes_refused_offline_run(
    k: kernel::Transcript,
    generation: Option<u32>,
    text: init_text::Text,
)
    ensures
        fading(k, #[trigger] nullfs_probes::refused_offline_run(k, generation, text).0),
{
    broadcast use {group_fading};

}

pub(crate) broadcast proof fn lemma_nullfs_restart_probe_ordered_settled_run(
    k: kernel::Transcript,
    tested: nullfs_restart_probe::Tested,
    generations: service_registry::Generations,
    generation: identity::ProviderGeneration,
    restart_count: u32,
)
    ensures
        fading(
            k,
            #[trigger] nullfs_restart_probe::ordered_settled_run(
                k,
                tested,
                generations,
                generation,
                restart_count,
            ).0,
        ),
{
    broadcast use {
        group_fading,
        lemma_nullfs_probes_refused_offline_run,
        lemma_nullfs_restart_probe_completed_run,
    };

}

pub(crate) broadcast proof fn lemma_nullfs_restart_probe_ordered_start_run(
    k: kernel::Transcript,
    tested: nullfs_restart_probe::Tested,
    generations: service_registry::Generations,
    vfs_endpoint: ipc::CapabilityHandle,
    block: init_run::BootstrapCapability,
    launched: (ipc::CapabilityHandle, ipc::CapabilityHandle, syscall::ProcessId),
    old_object: u64,
    restart_count: u32,
    tool: syscall::ProcessId,
)
    ensures
        mild(
            k,
            #[trigger] nullfs_restart_probe::ordered_start_run(
                k,
                tested,
                generations,
                vfs_endpoint,
                block,
                launched,
                old_object,
                restart_count,
                tool,
            ).0,
        ),
{
    broadcast use {
        group_mild,
        lemma_init_run_announce_run,
        lemma_nullfs_restart_probe_drained_run,
        lemma_nullfs_restart_probe_ordered_end_run,
        lemma_nullfs_restart_probe_ordered_settled_run,
        lemma_nullfs_restart_probe_replaced_run,
        lemma_probe_probe_run,
    };

}

pub(crate) broadcast proof fn lemma_nullfs_restart_probe_ordered_exit_run(
    k: kernel::Transcript,
    tested: nullfs_restart_probe::Tested,
    generations: service_registry::Generations,
    vfs_endpoint: ipc::CapabilityHandle,
    block: init_run::BootstrapCapability,
    launched: (ipc::CapabilityHandle, ipc::CapabilityHandle, syscall::ProcessId),
    old_object: u64,
)
    ensures
        mild(
            k,
            #[trigger] nullfs_restart_probe::ordered_exit_run(
                k,
                tested,
                generations,
                vfs_endpoint,
                block,
                launched,
                old_object,
            ).0,
        ),
{
    broadcast use {
        group_mild,
        lemma_nullfs_restart_probe_ask_run,
        lemma_nullfs_restart_probe_exited_run,
        lemma_nullfs_restart_probe_ordered_start_run,
    };

}

pub(crate) broadcast proof fn lemma_probe_message_step_run(
    k: kernel::Transcript,
    endpoint: ipc::CapabilityHandle,
    process_id: syscall::ProcessId,
    expected: init_text::Text,
    text: init_text::Text,
)
    ensures
        idle(k, #[trigger] probe::message_step_run(k, endpoint, process_id, expected, text).0),
{
    broadcast use {
        group_idle,
        lemma_init_run_rest_run,
        lemma_ipc_try_receive_run,
        lemma_probe_still_running_run,
    };

}

proof fn lemma_probe_message_run_from(
    k: kernel::Transcript,
    endpoint: ipc::CapabilityHandle,
    process_id: syscall::ProcessId,
    expected: init_text::Text,
    text: init_text::Text,
)
    ensures
        idle(k, probe::message_run(k, endpoint, process_id, expected, text).0),
    decreases k.unread(),
{
    broadcast use {group_idle, lemma_probe_message_step_run};

let (looked, result) = probe::message_step_run(k, endpoint, process_id, expected, text);
match result {
Err(halt) => {},
Ok(true) => {},
Ok(false) => {
lemma_probe_message_run_from(looked, endpoint, process_id, expected, text);
},
}
}

pub(crate) broadcast proof fn lemma_probe_message_run(
    k: kernel::Transcript,
    endpoint: ipc::CapabilityHandle,
    process_id: syscall::ProcessId,
    expected: init_text::Text,
    text: init_text::Text,
)
    ensures
        idle(k, #[trigger] probe::message_run(k, endpoint, process_id, expected, text).0),
{
    lemma_probe_message_run_from(k, endpoint, process_id, expected, text);
}

pub(crate) broadcast proof fn lemma_nullfs_restart_probe_ordered_run(
    k: kernel::Transcript,
    tested: nullfs_restart_probe::Tested,
    generations: service_registry::Generations,
    vfs_endpoint: ipc::CapabilityHandle,
    block: init_run::BootstrapCapability,
)
    ensures
        mild(
            k,
            #[trigger] nullfs_restart_probe::ordered_run(
                k,
                tested,
                generations,
                vfs_endpoint,
                block,
            ).0,
        ),
{
    broadcast use {
        group_mild,
        lemma_nullfs_probes_launch_pair_run,
        lemma_nullfs_probes_object_run,
        lemma_nullfs_restart_probe_ordered_exit_run,
        lemma_probe_message_run,
    };

}

pub(crate) broadcast proof fn lemma_nullfs_restart_probe_restart_probe_run(
    k: kernel::Transcript,
    tested: nullfs_restart_probe::Tested,
    generations: service_registry::Generations,
    vfs_endpoint: ipc::CapabilityHandle,
    block: init_run::BootstrapCapability,
)
    ensures
        mild(
            k,
            #[trigger] nullfs_restart_probe::restart_probe_run(
                k,
                tested,
                generations,
                vfs_endpoint,
                block,
            ).0,
        ),
{
    broadcast use {
        group_mild,
        lemma_nullfs_restart_probe_forced_run,
        lemma_nullfs_restart_probe_ordered_run,
    };

}

pub(crate) broadcast proof fn lemma_boot_restart_test_run(
    k: kernel::Transcript,
    tested: nullfs_restart_probe::Tested,
    generations: service_registry::Generations,
    vfs_endpoint: ipc::CapabilityHandle,
    block_endpoint: ipc::CapabilityHandle,
)
    ensures
        mild(
            k,
            #[trigger] boot::restart_test_run(
                k,
                tested,
                generations,
                vfs_endpoint,
                block_endpoint,
            ).0,
        ),
{
    broadcast use {
        group_mild,
        lemma_boot_restarted_run,
        lemma_nullfs_restart_probe_restart_probe_run,
        lemma_probe_probe_run,
    };

}

pub(crate) broadcast proof fn lemma_nullfs_probes_inject_run(
    k: kernel::Transcript,
    generation: identity::ProviderGeneration,
    hook: ipc::CapabilityHandle,
    control: ipc::CapabilityHandle,
)
    ensures
        idle(k, #[trigger] nullfs_probes::inject_run(k, generation, hook, control).0),
{
    broadcast use {group_idle, lemma_init_run_announce_run, lemma_ipc_send_run};

}

pub(crate) broadcast proof fn lemma_nullfs_probes_reached_step_run(
    k: kernel::Transcript,
    readiness: ipc::CapabilityHandle,
    service_process: syscall::ProcessId,
    probe_process: syscall::ProcessId,
)
    ensures
        idle(
            k,
            #[trigger] nullfs_probes::reached_step_run(
                k,
                readiness,
                service_process,
                probe_process,
            ).0,
        ),
{
    broadcast use {
        group_idle,
        lemma_init_run_rest_run,
        lemma_ipc_try_receive_run,
        lemma_probe_still_running_run,
    };

}

proof fn lemma_nullfs_probes_reached_run_from(
    k: kernel::Transcript,
    readiness: ipc::CapabilityHandle,
    service_process: syscall::ProcessId,
    probe_process: syscall::ProcessId,
)
    ensures
        idle(k, nullfs_probes::reached_run(k, readiness, service_process, probe_process).0),
    decreases k.unread(),
{
    broadcast use {group_idle, lemma_nullfs_probes_reached_step_run};

let (looked, result) = nullfs_probes::reached_step_run(
    k,
    readiness,
    service_process,
    probe_process,
);
match result {
Err(halt) => {},
Ok(Some(message)) => {},
Ok(None) => {
lemma_nullfs_probes_reached_run_from(looked, readiness, service_process, probe_process);
},
}
}

pub(crate) broadcast proof fn lemma_nullfs_probes_reached_run(
    k: kernel::Transcript,
    readiness: ipc::CapabilityHandle,
    service_process: syscall::ProcessId,
    probe_process: syscall::ProcessId,
)
    ensures
        idle(
            k,
            #[trigger] nullfs_probes::reached_run(k, readiness, service_process, probe_process).0,
        ),
{
    lemma_nullfs_probes_reached_run_from(k, readiness, service_process, probe_process);
}

pub(crate) broadcast proof fn lemma_probe_status_step_run(
    k: kernel::Transcript,
    process_id: syscall::ProcessId,
    beside: Option<syscall::ProcessId>,
    text: init_text::Text,
)
    ensures
        idle(k, #[trigger] probe::status_step_run(k, process_id, beside, text).0),
{
    broadcast use {
        group_idle,
        lemma_init_run_rest_run,
        lemma_nullfs_lifecycle_final_status_run,
        lemma_probe_still_running_run,
    };

}

proof fn lemma_probe_status_run_from(
    k: kernel::Transcript,
    process_id: syscall::ProcessId,
    beside: Option<syscall::ProcessId>,
    text: init_text::Text,
)
    ensures
        idle(k, probe::status_run(k, process_id, beside, text).0),
    decreases k.unread(),
{
    broadcast use {group_idle, lemma_probe_status_step_run};

let (looked, result) = probe::status_step_run(k, process_id, beside, text);
match result {
Err(halt) => {},
Ok(Some(status)) => {},
Ok(None) => {
lemma_probe_status_run_from(looked, process_id, beside, text);
},
}
}

pub(crate) broadcast proof fn lemma_probe_status_run(
    k: kernel::Transcript,
    process_id: syscall::ProcessId,
    beside: Option<syscall::ProcessId>,
    text: init_text::Text,
)
    ensures
        idle(k, #[trigger] probe::status_run(k, process_id, beside, text).0),
{
    lemma_probe_status_run_from(k, process_id, beside, text);
}

pub(crate) broadcast proof fn lemma_nullfs_probes_crash_run(
    k: kernel::Transcript,
    readiness: ipc::CapabilityHandle,
    service_process: syscall::ProcessId,
    probe_process: syscall::ProcessId,
    generation: identity::ProviderGeneration,
    hook: ipc::CapabilityHandle,
    control: ipc::CapabilityHandle,
)
    ensures
        idle(
            k,
            #[trigger] nullfs_probes::crash_run(
                k,
                readiness,
                service_process,
                probe_process,
                generation,
                hook,
                control,
            ).0,
        ),
{
    broadcast use {
        group_idle,
        lemma_nullfs_probes_inject_run,
        lemma_nullfs_probes_reached_run,
        lemma_probe_status_run,
    };

}

proof fn lemma_probe_message_within_run_from(
    k: kernel::Transcript,
    endpoint: ipc::CapabilityHandle,
    process_id: syscall::ProcessId,
    expected: init_text::Text,
    text: init_text::Text,
    looks: nat,
)
    ensures
        idle(k, probe::message_within_run(k, endpoint, process_id, expected, text, looks).0),
    decreases looks,
{
    broadcast use {group_idle, lemma_probe_message_step_run};

if looks == 0 {

} else {
let (looked, result) = probe::message_step_run(k, endpoint, process_id, expected, text);
match result {
Err(halt) => {},
Ok(true) => {},
Ok(false) => {
lemma_probe_message_within_run_from(
                looked,
                endpoint,
                process_id,
                expected,
                text,
                (looks - 1) as nat,
            );
},
}
}
}

pub(crate) broadcast proof fn lemma_probe_message_within_run(
    k: kernel::Transcript,
    endpoint: ipc::CapabilityHandle,
    process_id: syscall::ProcessId,
    expected: init_text::Text,
    text: init_text::Text,
    looks: nat,
)
    ensures
        idle(
            k,
            #[trigger] probe::message_within_run(k, endpoint, process_id, expected, text, looks).0,
        ),
{
    lemma_probe_message_within_run_from(k, endpoint, process_id, expected, text, looks);
}

pub(crate) broadcast proof fn lemma_nullfs_probes_after_crash_run(
    k: kernel::Transcript,
    generation: identity::ProviderGeneration,
    ready: ipc::CapabilityHandle,
    probe_process: syscall::ProcessId,
)
    ensures
        fading(k, #[trigger] nullfs_probes::after_crash_run(k, generation, ready, probe_process).0),
{
    broadcast use {
        group_fading,
        lemma_nullfs_probes_refused_offline_run,
        lemma_probe_message_within_run,
    };

}

pub(crate) broadcast proof fn lemma_nullfs_probes_finish_crash_run(
    k: kernel::Transcript,
    ready: ipc::CapabilityHandle,
    control: ipc::CapabilityHandle,
    probe_process: syscall::ProcessId,
)
    ensures
        idle(k, #[trigger] nullfs_probes::finish_crash_run(k, ready, control, probe_process).0),
{
    broadcast use {
        group_idle,
        lemma_init_run_announce_run,
        lemma_ipc_send_run,
        lemma_nullfs_probes_close_both_run,
        lemma_probe_status_run,
    };

}

pub(crate) broadcast proof fn lemma_nullfs_probes_recover_run(
    k: kernel::Transcript,
    nullfs: nullfs_probes::Nullfs,
    old_generation: identity::ProviderGeneration,
    old_object: u64,
    backoff_yields: u32,
    grants: Seq<init_run::BootstrapCapability>,
)
    ensures
        mild(
            k,
            #[trigger] nullfs_probes::recover_run(
                k,
                nullfs,
                old_generation,
                old_object,
                backoff_yields,
                grants,
            ).0,
        ),
{
    broadcast use {
        group_mild,
        lemma_init_run_backoff_run,
        lemma_nullfs_probes_renew_run,
        lemma_nullfs_probes_replace_run,
    };

}

pub(crate) broadcast proof fn lemma_nullfs_probes_settle_crash_run(
    k: kernel::Transcript,
    nullfs: nullfs_probes::Nullfs,
    old_generation: identity::ProviderGeneration,
    old_object: u64,
    backoff_yields: u32,
    launched: (ipc::CapabilityHandle, ipc::CapabilityHandle, syscall::ProcessId),
    grants: Seq<init_run::BootstrapCapability>,
)
    ensures
        mild(
            k,
            #[trigger] nullfs_probes::settle_crash_run(
                k,
                nullfs,
                old_generation,
                old_object,
                backoff_yields,
                launched,
                grants,
            ).0,
        ),
{
    broadcast use {
        group_mild,
        lemma_nullfs_probes_after_crash_run,
        lemma_nullfs_probes_finish_crash_run,
        lemma_nullfs_probes_recover_run,
    };

}

pub(crate) broadcast proof fn lemma_nullfs_probes_crash_and_recover_run(
    k: kernel::Transcript,
    nullfs: nullfs_probes::Nullfs,
    old_generation: identity::ProviderGeneration,
    old_process: syscall::ProcessId,
    old_object: u64,
    launched: (ipc::CapabilityHandle, ipc::CapabilityHandle, syscall::ProcessId),
    grants: Seq<init_run::BootstrapCapability>,
    hook: ipc::CapabilityHandle,
)
    ensures
        mild(
            k,
            #[trigger] nullfs_probes::crash_and_recover_run(
                k,
                nullfs,
                old_generation,
                old_process,
                old_object,
                launched,
                grants,
                hook,
            ).0,
        ),
{
    broadcast use {
        group_mild,
        lemma_contained_service_must_drain_run,
        lemma_nullfs_probes_crash_run,
        lemma_nullfs_probes_settle_crash_run,
    };

}

pub(crate) broadcast proof fn lemma_nullfs_probes_crash_recovery_run(
    k: kernel::Transcript,
    nullfs: nullfs_probes::Nullfs,
    old_generation: identity::ProviderGeneration,
    grants: Seq<init_run::BootstrapCapability>,
    hook: ipc::CapabilityHandle,
)
    ensures
        mild(
            k,
            #[trigger] nullfs_probes::crash_recovery_run(k, nullfs, old_generation, grants, hook).0,
        ),
{
    broadcast use {
        group_mild,
        lemma_nullfs_probes_crash_and_recover_run,
        lemma_nullfs_probes_launch_pair_run,
        lemma_nullfs_probes_object_run,
        lemma_probe_message_within_run,
    };

}

proof fn lemma_probe_status_within_run_from(
    k: kernel::Transcript,
    process_id: syscall::ProcessId,
    beside: Option<syscall::ProcessId>,
    text: init_text::Text,
    looks: nat,
)
    ensures
        idle(k, probe::status_within_run(k, process_id, beside, text, looks).0),
    decreases looks,
{
    broadcast use {group_idle, lemma_probe_status_step_run};

if looks == 0 {

} else {
let (looked, result) = probe::status_step_run(k, process_id, beside, text);
match result {
Err(halt) => {},
Ok(Some(status)) => {},
Ok(None) => {
lemma_probe_status_within_run_from(looked, process_id, beside, text, (looks - 1) as nat);
},
}
}
}

pub(crate) broadcast proof fn lemma_probe_status_within_run(
    k: kernel::Transcript,
    process_id: syscall::ProcessId,
    beside: Option<syscall::ProcessId>,
    text: init_text::Text,
    looks: nat,
)
    ensures
        idle(k, #[trigger] probe::status_within_run(k, process_id, beside, text, looks).0),
{
    lemma_probe_status_within_run_from(k, process_id, beside, text, looks);
}

pub(crate) broadcast proof fn lemma_nullfs_probes_loss_finished_run(
    k: kernel::Transcript,
    launched: (ipc::CapabilityHandle, ipc::CapabilityHandle, syscall::ProcessId),
)
    ensures
        idle(k, #[trigger] nullfs_probes::loss_finished_run(k, launched).0),
{
    broadcast use {
        group_idle,
        lemma_init_run_announce_run,
        lemma_ipc_send_run,
        lemma_nullfs_probes_close_both_run,
        lemma_probe_status_within_run,
    };

}

pub(crate) broadcast proof fn lemma_nullfs_probes_loss_seen_run(
    k: kernel::Transcript,
    launched: (ipc::CapabilityHandle, ipc::CapabilityHandle, syscall::ProcessId),
    service_process: syscall::ProcessId,
)
    ensures
        idle(k, #[trigger] nullfs_probes::loss_seen_run(k, launched, service_process).0),
{
    broadcast use {
        group_idle,
        lemma_init_run_announce_run,
        lemma_ipc_send_run,
        lemma_probe_message_within_run,
        lemma_probe_status_within_run,
    };

}

pub(crate) broadcast proof fn lemma_nullfs_probes_after_loss_run(
    k: kernel::Transcript,
    service_process: syscall::ProcessId,
    generation: identity::ProviderGeneration,
    job: contained_service::ContainedServiceJob,
    launched: (ipc::CapabilityHandle, ipc::CapabilityHandle, syscall::ProcessId),
)
    ensures
        fading(
            k,
            #[trigger] nullfs_probes::after_loss_run(
                k,
                service_process,
                generation,
                job,
                launched,
            ).0,
        ),
{
    broadcast use {
        group_fading,
        lemma_contained_service_must_drain_run,
        lemma_nullfs_probes_loss_finished_run,
        lemma_nullfs_probes_loss_seen_run,
    };

}

pub(crate) broadcast proof fn lemma_nullfs_probes_offline_device_run(
    k: kernel::Transcript,
    generation: u64,
)
    ensures
        idle(k, #[trigger] nullfs_probes::offline_device_run(k, generation).0),
{
    broadcast use {group_idle};

}

pub(crate) broadcast proof fn lemma_nullfs_probes_reopen_run(k: kernel::Transcript)
    ensures
        idle(k, #[trigger] nullfs_probes::reopen_run(k).0),
{
    broadcast use {group_idle};

}

pub(crate) broadcast proof fn lemma_nullfs_probes_lose_device_run(
    k: kernel::Transcript,
    block_generation: u64,
)
    ensures
        idle(k, #[trigger] nullfs_probes::lose_device_run(k, block_generation).0),
{
    broadcast use {
        group_idle,
        lemma_nullfs_probes_offline_device_run,
        lemma_nullfs_probes_reopen_run,
    };

}

pub(crate) broadcast proof fn lemma_nullfs_probes_loss_probe_run(
    k: kernel::Transcript,
    vfs_endpoint: ipc::CapabilityHandle,
)
    ensures
        calm(k, #[trigger] nullfs_probes::loss_probe_run(k, vfs_endpoint).0),
{
    broadcast use {
        group_calm,
        lemma_contained_service_create_endpoints_run,
        lemma_probe_launch_run,
        lemma_probe_message_within_run,
    };

}

pub(crate) broadcast proof fn lemma_nullfs_probes_device_loss_run(
    k: kernel::Transcript,
    service: supervisor::Service,
    generation: identity::ProviderGeneration,
    job: contained_service::ContainedServiceJob,
    vfs_endpoint: ipc::CapabilityHandle,
    block_endpoint: ipc::CapabilityHandle,
)
    ensures
        fading(
            k,
            #[trigger] nullfs_probes::device_loss_run(
                k,
                service,
                generation,
                job,
                vfs_endpoint,
                block_endpoint,
            ).0,
        ),
{
    broadcast use {
        group_fading,
        lemma_nullfs_probes_after_loss_run,
        lemma_nullfs_probes_lose_device_run,
        lemma_nullfs_probes_loss_probe_run,
        lemma_nullfs_probes_object_run,
    };

}

pub(crate) broadcast proof fn lemma_boot_mode_probe_run(
    k: kernel::Transcript,
    mode: boot_mode::InitBootMode,
    tested: nullfs_restart_probe::Tested,
    generations: service_registry::Generations,
    vfs_endpoint: ipc::CapabilityHandle,
    device: boot::NullfsDevice,
)
    ensures
        mild(
            k,
            #[trigger] boot::mode_probe_run(k, mode, tested, generations, vfs_endpoint, device).0,
        ),
{
    broadcast use {
        group_mild,
        lemma_boot_restart_test_run,
        lemma_nullfs_probes_crash_recovery_run,
        lemma_nullfs_probes_device_loss_run,
        lemma_probe_probe_run,
    };

}

pub(crate) broadcast proof fn lemma_boot_open_volume_run(k: kernel::Transcript, volume: Seq<u8>)
    ensures
        idle(k, #[trigger] boot::open_volume_run(k, volume).0),
{
    broadcast use {group_idle};

}

pub(crate) broadcast proof fn lemma_boot_missing_run(k: kernel::Transcript)
    ensures
        idle(k, #[trigger] boot::missing_run(k).0),
{
    broadcast use {group_idle, lemma_boot_open_volume_run};

}

pub(crate) broadcast proof fn lemma_boot_shaped_run(
    k: kernel::Transcript,
    handle: ipc::CapabilityHandle,
    kind: ipc::ObjectKind,
    rights: ipc::Rights,
    text: init_text::Text,
)
    ensures
        idle(k, #[trigger] boot::shaped_run(k, handle, kind, rights, text).0),
{
    broadcast use {group_idle, lemma_ipc_info_run};

}

pub(crate) broadcast proof fn lemma_boot_probe_device_run(
    k: kernel::Transcript,
    endpoint: ipc::CapabilityHandle,
    command: init_text::Text,
    failed: init_text::Text,
    passed: init_text::Text,
)
    ensures
        calm(k, #[trigger] boot::probe_device_run(k, endpoint, command, failed, passed).0),
{
    broadcast use {group_calm, lemma_boot_shaped_run, lemma_ipc_close_run, lemma_probe_probe_run};

}

pub(crate) broadcast proof fn lemma_boot_probe_volume_run(
    k: kernel::Transcript,
    command: init_text::Text,
    failed: init_text::Text,
    passed: init_text::Text,
)
    ensures
        calm(k, #[trigger] boot::probe_volume_run(k, command, failed, passed).0),
{
    broadcast use {group_calm, lemma_boot_probe_device_run};

}

pub(crate) broadcast proof fn lemma_boot_volumes_run(
    k: kernel::Transcript,
    mode: boot_mode::InitBootMode,
)
    ensures
        calm(k, #[trigger] boot::volumes_run(k, mode).0),
{
    broadcast use {group_calm, lemma_boot_probe_volume_run};

}

pub(crate) broadcast proof fn lemma_boot_devices_run(
    k: kernel::Transcript,
    mode: boot_mode::InitBootMode,
)
    ensures
        calm(k, #[trigger] boot::devices_run(k, mode).0),
{
    broadcast use {
        group_calm,
        lemma_boot_missing_run,
        lemma_boot_probe_device_run,
        lemma_boot_volumes_run,
    };

}

pub(crate) broadcast proof fn lemma_boot_filesystem_run(
    k: kernel::Transcript,
    spec: supervisor::ServiceSpec,
    endpoints: (ipc::CapabilityHandle, ipc::CapabilityHandle),
    grants: Seq<init_run::BootstrapCapability>,
    messages: contained_service::ServiceMessages,
    containment: contained_service::ServiceContainment,
)
    ensures
        calm(
            k,
            #[trigger] boot::filesystem_run(k, spec, endpoints, grants, messages, containment).0,
        ),
{
    broadcast use {group_calm, lemma_contained_service_start_run};

}

pub(crate) broadcast proof fn lemma_platform_connect_run(k: kernel::Transcript, endpoint: u64)
    ensures
        idle(k, #[trigger] platform::connect_run(k, endpoint).0),
{
    broadcast use {group_idle};

}

pub(crate) broadcast proof fn lemma_service_control_bind_run(
    k: kernel::Transcript,
    receive: ipc::CapabilityHandle,
)
    ensures
        idle(k, #[trigger] service_control::bind_run(k, receive).0),
{
    broadcast use {group_idle, lemma_ipc_info_run};

}

pub(crate) broadcast proof fn lemma_service_registry_open_ingress_run(k: kernel::Transcript)
    ensures
        idle(k, #[trigger] service_registry::open_ingress_run(k).0),
{
    broadcast use {group_idle, lemma_service_control_bind_run};

}

pub(crate) broadcast proof fn lemma_service_registry_new_run(k: kernel::Transcript)
    ensures
        idle(k, #[trigger] service_registry::new_run(k).0),
{
    broadcast use {group_idle, lemma_service_registry_open_ingress_run};

}

pub(crate) broadcast proof fn lemma_boot_early_log_run(k: kernel::Transcript)
    ensures
        idle(k, #[trigger] boot::early_log_run(k).0),
{
    broadcast use {group_idle, lemma_boot_shaped_run};

}

pub(crate) broadcast proof fn lemma_logging_probes_running_run(
    k: kernel::Transcript,
    process_id: syscall::ProcessId,
)
    ensures
        idle(k, #[trigger] logging_probes::running_run(k, process_id).0),
{
    broadcast use {group_idle, lemma_syscall_try_wait_run};

}

pub(crate) broadcast proof fn lemma_logging_probes_service_running_run(
    k: kernel::Transcript,
    process_id: Option<syscall::ProcessId>,
)
    ensures
        idle(k, #[trigger] logging_probes::service_running_run(k, process_id).0),
{
    broadcast use {group_idle, lemma_logging_probes_running_run};

}

pub(crate) broadcast proof fn lemma_procedure_quiet_option_run(
    k: kernel::Transcript,
    handle: Option<ipc::CapabilityHandle>,
)
    ensures
        idle(k, #[trigger] procedure::quiet_option_run(k, handle).0),
{
    broadcast use {group_idle, lemma_procedure_quiet_run};

}

pub(crate) broadcast proof fn lemma_service_route_send_reply_run(
    k: kernel::Transcript,
    reply: ipc::CapabilityHandle,
    message: route_protocol::RouteMessage,
    temporary: Option<ipc::CapabilityHandle>,
)
    ensures
        idle(k, #[trigger] service_route::send_reply_run(k, reply, message, temporary).0),
{
    broadcast use {
        group_idle,
        lemma_ipc_send_run,
        lemma_procedure_quiet_option_run,
        lemma_procedure_quiet_run,
    };

}

pub(crate) broadcast proof fn lemma_service_route_authorize_run<E>(
    k: kernel::Transcript,
    request: service_route::Requested,
    verdict: Result<(), E>,
)
    ensures
        idle(k, #[trigger] service_route::authorize_run::<E>(k, request, verdict).0),
{
    broadcast use {group_idle, lemma_service_route_send_reply_run};

}

pub(crate) broadcast proof fn lemma_service_route_route_reply_run(
    k: kernel::Transcript,
    reply: ipc::CapabilityHandle,
    message: route_protocol::RouteMessage,
    temporary: Option<ipc::CapabilityHandle>,
    intended: service_route::RouteReply,
)
    ensures
        idle(
            k,
            #[trigger] service_route::route_reply_run(k, reply, message, temporary, intended).0,
        ),
{
    broadcast use {group_idle, lemma_service_route_send_reply_run};

}

pub(crate) broadcast proof fn lemma_service_route_resolve_run(
    k: kernel::Transcript,
    request: service_route::Requested,
    published: Option<route_protocol::PublishedRoute<ipc::CapabilityHandle>>,
)
    ensures
        idle(k, #[trigger] service_route::resolve_run(k, request, published).0),
{
    broadcast use {
        group_idle,
        lemma_service_route_route_reply_run,
        lemma_service_route_send_reply_run,
    };

}

pub(crate) broadcast proof fn lemma_route_broker_answer_run(
    k: kernel::Transcript,
    request: service_route::Requested,
    routes: route_broker::Routes,
)
    ensures
        idle(k, #[trigger] route_broker::answer_run(k, request, routes).0),
{
    broadcast use {group_idle, lemma_service_route_authorize_run, lemma_service_route_resolve_run};

}

pub(crate) broadcast proof fn lemma_service_route_admit_run(
    k: kernel::Transcript,
    ingress: service_route::Ingress,
    delivery: ipc::Delivery,
)
    ensures
        idle(k, #[trigger] service_route::admit_run(k, ingress, delivery).0),
{
    broadcast use {
        group_idle,
        lemma_ipc_info_run,
        lemma_procedure_quiet_received_run,
        lemma_procedure_quiet_run,
    };

}

pub(crate) broadcast proof fn lemma_service_route_accept_run(
    k: kernel::Transcript,
    ingress: service_route::Ingress,
)
    ensures
        idle(k, #[trigger] service_route::accept_run(k, ingress).0),
{
    broadcast use {group_idle, lemma_ipc_try_receive_run, lemma_service_route_admit_run};

}

pub(crate) broadcast proof fn lemma_route_broker_pump_ingress_run(
    k: kernel::Transcript,
    ingress: service_route::Ingress,
    routes: route_broker::Routes,
)
    ensures
        idle(k, #[trigger] route_broker::pump_ingress_run(k, ingress, routes).0),
{
    broadcast use {group_idle, lemma_route_broker_answer_run, lemma_service_route_accept_run};

}

pub(crate) broadcast proof fn lemma_route_broker_pump_both_run(
    k: kernel::Transcript,
    broker: route_broker::Broker,
)
    ensures
        idle(k, #[trigger] route_broker::pump_both_run(k, broker).0),
{
    broadcast use {group_idle, lemma_route_broker_pump_ingress_run};

}

proof fn lemma_route_broker_pump_run_from(
    k: kernel::Transcript,
    broker: route_broker::Broker,
    budget: nat,
)
    ensures
        idle(k, route_broker::pump_run(k, broker, budget).0),
    decreases budget,
{
    broadcast use {group_idle, lemma_route_broker_pump_both_run};

if budget == 0 {

} else {
let (asked, result) = route_broker::pump_both_run(k, broker);
match result {
Err(halt) => {},
Ok(false) => {},
Ok(true) => {
lemma_route_broker_pump_run_from(asked, broker, (budget - 1) as nat);
},
}
}
}

pub(crate) broadcast proof fn lemma_route_broker_pump_run(
    k: kernel::Transcript,
    broker: route_broker::Broker,
    budget: nat,
)
    ensures
        idle(k, #[trigger] route_broker::pump_run(k, broker, budget).0),
{
    lemma_route_broker_pump_run_from(k, broker, budget);
}

pub(crate) broadcast proof fn lemma_logging_probes_tend_run(
    k: kernel::Transcript,
    service: supervisor::Service,
    broker: route_broker::Broker,
)
    ensures
        idle(k, #[trigger] logging_probes::tend_run(k, service, broker).0),
{
    broadcast use {
        group_idle,
        lemma_logging_probes_service_running_run,
        lemma_route_broker_pump_run,
    };

}

pub(crate) broadcast proof fn lemma_logging_probes_heard_step_run(
    k: kernel::Transcript,
    service: supervisor::Service,
    broker: route_broker::Broker,
    process_id: syscall::ProcessId,
    endpoint: ipc::CapabilityHandle,
    expected: init_text::Text,
    remaining: nat,
)
    ensures
        idle(
            k,
            #[trigger] logging_probes::heard_step_run(
                k,
                service,
                broker,
                process_id,
                endpoint,
                expected,
                remaining,
            ).0,
        ),
{
    broadcast use {
        group_idle,
        lemma_ipc_try_receive_run,
        lemma_logging_probes_running_run,
        lemma_logging_probes_tend_run,
        lemma_logging_probes_tire_run,
    };

}

proof fn lemma_logging_probes_heard_run_from(
    k: kernel::Transcript,
    service: supervisor::Service,
    broker: route_broker::Broker,
    process_id: syscall::ProcessId,
    endpoint: ipc::CapabilityHandle,
    expected: init_text::Text,
    remaining: nat,
)
    ensures
        idle(
            k,
            logging_probes::heard_run(
                k,
                service,
                broker,
                process_id,
                endpoint,
                expected,
                remaining,
            ).0,
        ),
    decreases remaining,
{
    broadcast use {group_idle, lemma_logging_probes_heard_step_run};

let (looked, result) = logging_probes::heard_step_run(
        k,
        service,
        broker,
        process_id,
        endpoint,
        expected,
        remaining,
    );
match result {
Err(halt) => {},
Ok(true) => {},
Ok(false) => {
if remaining > 0 {
lemma_logging_probes_heard_run_from(
                looked,
                service,
                broker,
                process_id,
                endpoint,
                expected,
                (remaining - 1) as nat,
            );
}
},
}
}

pub(crate) broadcast proof fn lemma_logging_probes_heard_run(
    k: kernel::Transcript,
    service: supervisor::Service,
    broker: route_broker::Broker,
    process_id: syscall::ProcessId,
    endpoint: ipc::CapabilityHandle,
    expected: init_text::Text,
    remaining: nat,
)
    ensures
        idle(
            k,
            #[trigger] logging_probes::heard_run(
                k,
                service,
                broker,
                process_id,
                endpoint,
                expected,
                remaining,
            ).0,
        ),
{
    lemma_logging_probes_heard_run_from(
        k,
        service,
        broker,
        process_id,
        endpoint,
        expected,
        remaining,
    );
}

pub(crate) broadcast proof fn lemma_logging_probes_stress_run(
    k: kernel::Transcript,
    broker: route_broker::Broker,
)
    ensures
        calm(k, #[trigger] logging_probes::stress_run(k, broker).0),
{
    broadcast use {
        group_calm,
        lemma_contained_service_create_endpoints_run,
        lemma_probe_launch_run,
    };

}

pub(crate) broadcast proof fn lemma_logging_probes_keep_waiting_run<T>(
    k: kernel::Transcript,
    service: supervisor::Service,
    broker: route_broker::Broker,
    remaining: nat,
)
    ensures
        idle(k, #[trigger] logging_probes::keep_waiting_run::<T>(k, service, broker, remaining).0),
{
    broadcast use {group_idle, lemma_logging_probes_tire_run, lemma_route_broker_pump_run};

}

pub(crate) broadcast proof fn lemma_logging_probes_change_step_run(
    k: kernel::Transcript,
    service: supervisor::Service,
    broker: route_broker::Broker,
    process_id: syscall::ProcessId,
    change: logging_probes::Change,
    remaining: nat,
)
    ensures
        idle(
            k,
            #[trigger] logging_probes::change_step_run(
                k,
                service,
                broker,
                process_id,
                change,
                remaining,
            ).0,
        ),
{
    broadcast use {group_idle, lemma_logging_probes_keep_waiting_run, lemma_syscall_try_wait_run};

}

proof fn lemma_logging_probes_change_run_from(
    k: kernel::Transcript,
    service: supervisor::Service,
    broker: route_broker::Broker,
    process_id: syscall::ProcessId,
    change: logging_probes::Change,
    remaining: nat,
)
    ensures
        idle(k, logging_probes::change_run(k, service, broker, process_id, change, remaining).0),
    decreases remaining,
{
    broadcast use {group_idle, lemma_logging_probes_change_step_run};

let (looked, result) = logging_probes::change_step_run(
    k,
    service,
    broker,
    process_id,
    change,
    remaining,
);
match result {
Err(halt) => {},
Ok((next, logging_probes::Seen::Done(_))) => {},
Ok((next, logging_probes::Seen::Nothing)) => {
if remaining > 0 {
lemma_logging_probes_change_run_from(
    looked,
    next,
    broker,
    process_id,
    change,
    (remaining - 1) as nat,
);
}
},
}
}

pub(crate) broadcast proof fn lemma_logging_probes_change_run(
    k: kernel::Transcript,
    service: supervisor::Service,
    broker: route_broker::Broker,
    process_id: syscall::ProcessId,
    change: logging_probes::Change,
    remaining: nat,
)
    ensures
        idle(
            k,
            #[trigger] logging_probes::change_run(
                k,
                service,
                broker,
                process_id,
                change,
                remaining,
            ).0,
        ),
{
    lemma_logging_probes_change_run_from(k, service, broker, process_id, change, remaining);
}

pub(crate) broadcast proof fn lemma_logging_probes_holds_run(
    k: kernel::Transcript,
    endpoint: ipc::CapabilityHandle,
    size: u64,
)
    ensures
        idle(k, #[trigger] logging_probes::holds_run(k, endpoint, size).0),
{
    broadcast use {group_idle, lemma_ipc_info_run};

}

pub(crate) broadcast proof fn lemma_logging_probes_signal_one_run(
    k: kernel::Transcript,
    process_id: syscall::ProcessId,
    signal: u64,
)
    ensures
        idle(k, #[trigger] logging_probes::signal_one_run(k, process_id, signal).0),
{
    broadcast use {group_idle, lemma_syscall_signal_group_run};

}

pub(crate) broadcast proof fn lemma_logging_probes_pause_run(
    k: kernel::Transcript,
    service: supervisor::Service,
    broker: route_broker::Broker,
    generation: logging_supervision::LoggingGeneration,
    process_id: syscall::ProcessId,
)
    ensures
        idle(k, #[trigger] logging_probes::pause_run(k, service, broker, generation, process_id).0),
{
    broadcast use {
        group_idle,
        lemma_logging_probes_change_run,
        lemma_logging_probes_holds_run,
        lemma_logging_probes_signal_one_run,
    };

}

pub(crate) broadcast proof fn lemma_logging_probes_tool_step_run(
    k: kernel::Transcript,
    service: supervisor::Service,
    broker: route_broker::Broker,
    process_id: syscall::ProcessId,
    text: init_text::Text,
    remaining: nat,
)
    ensures
        idle(
            k,
            #[trigger] logging_probes::tool_step_run(
                k,
                service,
                broker,
                process_id,
                text,
                remaining,
            ).0,
        ),
{
    broadcast use {
        group_idle,
        lemma_logging_probes_tend_run,
        lemma_logging_probes_tire_run,
        lemma_probe_ended_run,
    };

}

proof fn lemma_logging_probes_tool_ended_run_from(
    k: kernel::Transcript,
    service: supervisor::Service,
    broker: route_broker::Broker,
    process_id: syscall::ProcessId,
    text: init_text::Text,
    remaining: nat,
)
    ensures
        idle(k, logging_probes::tool_ended_run(k, service, broker, process_id, text, remaining).0),
    decreases remaining,
{
    broadcast use {group_idle, lemma_logging_probes_tool_step_run};

let (looked, result) = logging_probes::tool_step_run(
    k,
    service,
    broker,
    process_id,
    text,
    remaining,
);
match result {
Err(halt) => {},
Ok(true) => {},
Ok(false) => {
if remaining > 0 {
lemma_logging_probes_tool_ended_run_from(
    looked,
    service,
    broker,
    process_id,
    text,
    (remaining - 1) as nat,
);
}
},
}
}

pub(crate) broadcast proof fn lemma_logging_probes_tool_ended_run(
    k: kernel::Transcript,
    service: supervisor::Service,
    broker: route_broker::Broker,
    process_id: syscall::ProcessId,
    text: init_text::Text,
    remaining: nat,
)
    ensures
        idle(
            k,
            #[trigger] logging_probes::tool_ended_run(
                k,
                service,
                broker,
                process_id,
                text,
                remaining,
            ).0,
        ),
{
    lemma_logging_probes_tool_ended_run_from(k, service, broker, process_id, text, remaining);
}

pub(crate) broadcast proof fn lemma_logging_probes_resume_run(
    k: kernel::Transcript,
    service: supervisor::Service,
    broker: route_broker::Broker,
    process_id: syscall::ProcessId,
    stress: logging_probes::Stress,
)
    ensures
        idle(k, #[trigger] logging_probes::resume_run(k, service, broker, process_id, stress).0),
{
    broadcast use {
        group_idle,
        lemma_logging_probes_change_run,
        lemma_logging_probes_tool_ended_run,
    };

}

pub(crate) broadcast proof fn lemma_logging_probes_pressure_run(
    k: kernel::Transcript,
    service: supervisor::Service,
    broker: route_broker::Broker,
    generation: logging_supervision::LoggingGeneration,
    process_id: syscall::ProcessId,
    stress: logging_probes::Stress,
)
    ensures
        idle(
            k,
            #[trigger] logging_probes::pressure_run(
                k,
                service,
                broker,
                generation,
                process_id,
                stress,
            ).0,
        ),
{
    broadcast use {
        group_idle,
        lemma_ipc_send_run,
        lemma_logging_probes_heard_run,
        lemma_logging_probes_holds_run,
        lemma_logging_probes_resume_run,
        lemma_logging_probes_signal_one_run,
    };

}

pub(crate) broadcast proof fn lemma_logging_probes_quiet_run(
    k: kernel::Transcript,
    generation: logging_supervision::LoggingGeneration,
    stress: logging_probes::Stress,
)
    ensures
        idle(k, #[trigger] logging_probes::quiet_run(k, generation, stress).0),
{
    broadcast use {group_idle, lemma_logging_probes_holds_run};

}

pub(crate) broadcast proof fn lemma_logging_probes_praise_run(
    k: kernel::Transcript,
    passed: Option<init_text::Text>,
)
    ensures
        idle(k, #[trigger] logging_probes::praise_run(k, passed).0),
{
    broadcast use {group_idle, lemma_init_run_announce_run};

}

pub(crate) broadcast proof fn lemma_logging_probes_logging_probe_run(
    k: kernel::Transcript,
    service: supervisor::Service,
    broker: route_broker::Broker,
    command: init_text::Text,
    passed: Option<init_text::Text>,
)
    ensures
        calm(
            k,
            #[trigger] logging_probes::logging_probe_run(k, service, broker, command, passed).0,
        ),
{
    broadcast use {
        group_calm,
        lemma_logging_probes_praise_run,
        lemma_logging_probes_tool_ended_run,
        lemma_probe_launch_run,
    };

}

pub(crate) broadcast proof fn lemma_logging_probes_prove_run(
    k: kernel::Transcript,
    collector: logging_probes::Collector,
    replacement: logging_supervision::LoggingGeneration,
)
    ensures
        calm(k, #[trigger] logging_probes::prove_run(k, collector, replacement).0),
{
    broadcast use {
        group_calm,
        lemma_logging_probes_holds_run,
        lemma_logging_probes_logging_probe_run,
    };

}

pub(crate) broadcast proof fn lemma_route_broker_authority_run(
    k: kernel::Transcript,
    source: ipc::CapabilityHandle,
)
    ensures
        idle(k, #[trigger] route_broker::authority_run(k, source).0),
{
    broadcast use {group_idle};

}

pub(crate) broadcast proof fn lemma_service_route_publish_run(
    k: kernel::Transcript,
    routes: Seq<route_protocol::Route<ipc::CapabilityHandle>>,
    capacity: int,
    key: identity::RouteKey,
    generation: identity::ProviderGeneration,
    authority: ipc::CapabilityHandle,
)
    ensures
        idle(
            k,
            #[trigger] service_route::publish_run(
                k,
                routes,
                capacity,
                key,
                generation,
                authority,
            ).0,
        ),
{
    broadcast use {group_idle, lemma_ipc_info_run};

}

pub(crate) broadcast proof fn lemma_route_broker_publish_one_run(
    k: kernel::Transcript,
    routes: route_broker::Routes,
    key: identity::RouteKey,
    generation: identity::ProviderGeneration,
    authority: ipc::CapabilityHandle,
)
    ensures
        idle(k, #[trigger] route_broker::publish_one_run(k, routes, key, generation, authority).0),
{
    broadcast use {group_idle, lemma_service_route_publish_run};

}

pub(crate) broadcast proof fn lemma_route_broker_publish_run(
    k: kernel::Transcript,
    routes: route_broker::Routes,
    generation: identity::ProviderGeneration,
    producer: ipc::CapabilityHandle,
    observer: ipc::CapabilityHandle,
)
    ensures
        idle(k, #[trigger] route_broker::publish_run(k, routes, generation, producer, observer).0),
{
    broadcast use {
        group_idle,
        lemma_route_broker_authority_run,
        lemma_route_broker_publish_one_run,
    };

}

pub(crate) broadcast proof fn lemma_logging_supervision_publish_ready_run(
    k: kernel::Transcript,
    service: supervisor::Service,
    broker: route_broker::Broker,
    generation: logging_supervision::LoggingGeneration,
)
    ensures
        idle(
            k,
            #[trigger] logging_supervision::publish_ready_run(k, service, broker, generation).0,
        ),
{
    broadcast use {group_idle, lemma_init_run_announce_run, lemma_route_broker_publish_run};

}

pub(crate) broadcast proof fn lemma_logging_supervision_settle_step_run(
    k: kernel::Transcript,
    service: supervisor::Service,
    process_id: syscall::ProcessId,
)
    ensures
        idle(k, #[trigger] logging_supervision::settle_step_run(k, service, process_id).0),
{
    broadcast use {group_idle, lemma_syscall_try_wait_run};

}

proof fn lemma_logging_supervision_settle_run_from(
    k: kernel::Transcript,
    service: supervisor::Service,
    process_id: syscall::ProcessId,
)
    ensures
        idle(k, logging_supervision::settle_run(k, service, process_id).0),
    decreases k.unread(),
{
    broadcast use {group_idle, lemma_logging_supervision_settle_step_run};

let (looked, result) = logging_supervision::settle_step_run(k, service, process_id);
match result {
Ok((next, logging_supervision::Settling::Again)) => {
lemma_logging_supervision_settle_run_from(looked, next, process_id);
},
_ => {},
}
}

pub(crate) broadcast proof fn lemma_logging_supervision_settle_run(
    k: kernel::Transcript,
    service: supervisor::Service,
    process_id: syscall::ProcessId,
)
    ensures
        idle(k, #[trigger] logging_supervision::settle_run(k, service, process_id).0),
{
    lemma_logging_supervision_settle_run_from(k, service, process_id);
}

pub(crate) broadcast proof fn lemma_logging_supervision_settle_ready_run(
    k: kernel::Transcript,
    awaiting: logging_supervision::Awaiting,
    generation: logging_supervision::LoggingGeneration,
    process_id: syscall::ProcessId,
)
    ensures
        idle(
            k,
            #[trigger] logging_supervision::settle_ready_run(k, awaiting, generation, process_id).0,
        ),
{
    broadcast use {
        group_idle,
        lemma_logging_supervision_publish_ready_run,
        lemma_logging_supervision_settle_run,
    };

}

pub(crate) broadcast proof fn lemma_logging_supervision_forced_run(
    k: kernel::Transcript,
    job: ipc::CapabilityHandle,
    attempts: u32,
)
    ensures
        idle(k, #[trigger] logging_supervision::forced_run(k, job, attempts).0),
{
    broadcast use {group_idle};

}

pub(crate) broadcast proof fn lemma_logging_supervision_wait_more_run(
    k: kernel::Transcript,
    patience: logging_supervision::Patience,
    job: Option<ipc::CapabilityHandle>,
)
    ensures
        idle(k, #[trigger] logging_supervision::wait_more_run(k, patience, job).0),
{
    broadcast use {group_idle, lemma_init_run_announce_run, lemma_logging_supervision_forced_run};

}

pub(crate) broadcast proof fn lemma_logging_supervision_hear_ready_run(
    k: kernel::Transcript,
    awaiting: logging_supervision::Awaiting,
    generation: logging_supervision::LoggingGeneration,
    process_id: syscall::ProcessId,
)
    ensures
        idle(
            k,
            #[trigger] logging_supervision::hear_ready_run(k, awaiting, generation, process_id).0,
        ),
{
    broadcast use {
        group_idle,
        lemma_ipc_try_receive_run,
        lemma_logging_supervision_settle_ready_run,
        lemma_logging_supervision_wait_more_run,
    };

}

pub(crate) broadcast proof fn lemma_logging_supervision_linger_again_run(
    k: kernel::Transcript,
    service: supervisor::Service,
)
    ensures
        idle(k, #[trigger] logging_supervision::linger_again_run(k, service).0),
{
    broadcast use {group_idle, lemma_init_run_linger_run};

}

pub(crate) broadcast proof fn lemma_logging_supervision_watch_child_run(
    k: kernel::Transcript,
    service: supervisor::Service,
    process_id: syscall::ProcessId,
)
    ensures
        idle(k, #[trigger] logging_supervision::watch_child_run(k, service, process_id).0),
{
    broadcast use {
        group_idle,
        lemma_logging_supervision_linger_again_run,
        lemma_syscall_try_wait_run,
    };

}

pub(crate) broadcast proof fn lemma_logging_supervision_look_run(
    k: kernel::Transcript,
    awaiting: logging_supervision::Awaiting,
    generation: logging_supervision::LoggingGeneration,
    process_id: syscall::ProcessId,
)
    ensures
        idle(k, #[trigger] logging_supervision::look_run(k, awaiting, generation, process_id).0),
{
    broadcast use {
        group_idle,
        lemma_logging_supervision_hear_ready_run,
        lemma_logging_supervision_watch_child_run,
        lemma_route_broker_pump_run,
    };

}

proof fn lemma_logging_supervision_await_run_from(
    k: kernel::Transcript,
    awaiting: logging_supervision::Awaiting,
    generation: logging_supervision::LoggingGeneration,
    process_id: syscall::ProcessId,
)
    ensures
        idle(k, logging_supervision::await_run(k, awaiting, generation, process_id).0),
    decreases k.unread(),
{
    if let Ok((_, logging_supervision::Settling::Again)) = logging_supervision::look_run(
        k,
        awaiting,
        generation,
        process_id,
    ).1 {
        logging_supervision::lemma_look_again_asks(k, awaiting, generation, process_id);
    }
    broadcast use {group_idle, lemma_logging_supervision_look_run};

let (looked, result) = logging_supervision::look_run(k, awaiting, generation, process_id);
match result {
Ok((next, logging_supervision::Settling::Again)) => {
lemma_logging_supervision_await_run_from(looked, next, generation, process_id);
},
_ => {},
}
}

pub(crate) broadcast proof fn lemma_logging_supervision_await_run(
    k: kernel::Transcript,
    awaiting: logging_supervision::Awaiting,
    generation: logging_supervision::LoggingGeneration,
    process_id: syscall::ProcessId,
)
    ensures
        idle(k, #[trigger] logging_supervision::await_run(k, awaiting, generation, process_id).0),
{
    lemma_logging_supervision_await_run_from(k, awaiting, generation, process_id);
}

pub(crate) broadcast proof fn lemma_logging_supervision_fail_launch_run<T>(
    k: kernel::Transcript,
    attempt: activation::ActivationAttempt,
)
    ensures
        idle(k, #[trigger] logging_supervision::fail_launch_run::<T>(k, attempt).0),
{
    broadcast use {group_idle, lemma_contained_service_fail_attempt_run};

}

pub(crate) broadcast proof fn lemma_logging_supervision_object_run(
    k: kernel::Transcript,
    attempt: activation::ActivationAttempt,
    handle: ipc::CapabilityHandle,
)
    ensures
        idle(k, #[trigger] logging_supervision::object_run(k, attempt, handle).0),
{
    broadcast use {group_idle, lemma_ipc_info_run, lemma_logging_supervision_fail_launch_run};

}

pub(crate) broadcast proof fn lemma_logging_supervision_objects_run(
    k: kernel::Transcript,
    attempt: activation::ActivationAttempt,
    producer: ipc::CapabilityHandle,
    observer: ipc::CapabilityHandle,
)
    ensures
        idle(k, #[trigger] logging_supervision::objects_run(k, attempt, producer, observer).0),
{
    broadcast use {
        group_idle,
        lemma_logging_supervision_fail_launch_run,
        lemma_logging_supervision_object_run,
    };

}

pub(crate) broadcast proof fn lemma_logging_supervision_release_run(
    k: kernel::Transcript,
    attempt: activation::ActivationAttempt,
    process_id: syscall::ProcessId,
    grants: Seq<init_run::BootstrapCapability>,
)
    ensures
        idle(k, #[trigger] logging_supervision::release_run(k, attempt, process_id, grants).0),
{
    broadcast use {
        group_idle,
        lemma_contained_service_release_run,
        lemma_init_run_grant_each_run,
        lemma_logging_supervision_fail_launch_run,
    };

}

pub(crate) broadcast proof fn lemma_logging_supervision_launch_prepared_run(
    k: kernel::Transcript,
    prepared: activation::ActivationAttempt,
    generation: identity::ProviderGeneration,
    command: Seq<u8>,
    early_log_reader: ipc::CapabilityHandle,
    patience: u32,
)
    ensures
        calm(
            k,
            #[trigger] logging_supervision::launch_prepared_run(
                k,
                prepared,
                generation,
                command,
                early_log_reader,
                patience,
            ).0,
        ),
{
    broadcast use {
        group_calm,
        lemma_contained_service_launch_run,
        lemma_logging_supervision_objects_run,
        lemma_logging_supervision_release_run,
    };

}

pub(crate) broadcast proof fn lemma_logging_supervision_endpoint_run(
    k: kernel::Transcript,
    attempt: activation::ActivationAttempt,
)
    ensures
        idle(k, #[trigger] logging_supervision::endpoint_run(k, attempt).0),
{
    broadcast use {group_idle, lemma_logging_supervision_fail_launch_run};

}

pub(crate) broadcast proof fn lemma_logging_supervision_observer_endpoint_run(
    k: kernel::Transcript,
    attempt: activation::ActivationAttempt,
)
    ensures
        idle(k, #[trigger] logging_supervision::observer_endpoint_run(k, attempt).0),
{
    broadcast use {group_idle, lemma_logging_supervision_endpoint_run};

}

pub(crate) broadcast proof fn lemma_logging_supervision_producer_endpoint_run(
    k: kernel::Transcript,
    attempt: activation::ActivationAttempt,
)
    ensures
        idle(k, #[trigger] logging_supervision::producer_endpoint_run(k, attempt).0),
{
    broadcast use {
        group_idle,
        lemma_logging_supervision_endpoint_run,
        lemma_logging_supervision_observer_endpoint_run,
    };

}

pub(crate) broadcast proof fn lemma_logging_supervision_endpoints_run(
    k: kernel::Transcript,
    attempt: activation::ActivationAttempt,
)
    ensures
        idle(k, #[trigger] logging_supervision::endpoints_run(k, attempt).0),
{
    broadcast use {
        group_idle,
        lemma_logging_supervision_endpoint_run,
        lemma_logging_supervision_producer_endpoint_run,
    };

}

pub(crate) broadcast proof fn lemma_logging_supervision_prepare_run(
    k: kernel::Transcript,
    generation: identity::ProviderGeneration,
)
    ensures
        idle(k, #[trigger] logging_supervision::prepare_run(k, generation).0),
{
    broadcast use {
        group_idle,
        lemma_activation_create_job_run,
        lemma_contained_service_prepare_run,
        lemma_logging_supervision_endpoints_run,
        lemma_logging_supervision_fail_launch_run,
    };

}

pub(crate) broadcast proof fn lemma_logging_supervision_launch_run(
    k: kernel::Transcript,
    launching: logging_supervision::Launching,
    early_log_reader: ipc::CapabilityHandle,
    lifecycle_test: bool,
)
    ensures
        calm(
            k,
            #[trigger] logging_supervision::launch_run(
                k,
                launching,
                early_log_reader,
                lifecycle_test,
            ).0,
        ),
{
    broadcast use {
        group_calm,
        lemma_logging_supervision_launch_prepared_run,
        lemma_logging_supervision_prepare_run,
    };

}

pub(crate) broadcast proof fn lemma_logging_supervision_close_run(
    k: kernel::Transcript,
    generation: logging_supervision::LoggingGeneration,
)
    ensures
        idle(k, #[trigger] logging_supervision::close_run(k, generation).0),
{
    broadcast use {group_idle, lemma_contained_service_close_endpoint_run};

}

pub(crate) broadcast proof fn lemma_logging_supervision_drain_job_run(
    k: kernel::Transcript,
    generation: logging_supervision::LoggingGeneration,
)
    ensures
        idle(k, #[trigger] logging_supervision::drain_job_run(k, generation).0),
{
    broadcast use {group_idle, lemma_contained_service_must_drain_run};

}

pub(crate) broadcast proof fn lemma_logging_supervision_retire_run(
    k: kernel::Transcript,
    generation: logging_supervision::LoggingGeneration,
)
    ensures
        idle(k, #[trigger] logging_supervision::retire_run(k, generation).0),
{
    broadcast use {
        group_idle,
        lemma_logging_supervision_close_run,
        lemma_logging_supervision_drain_job_run,
    };

}

pub(crate) broadcast proof fn lemma_logging_supervision_start_outcome_run(
    k: kernel::Transcript,
    starting: logging_supervision::Starting,
    generation: logging_supervision::LoggingGeneration,
    settled: logging_supervision::Settling,
)
    ensures
        idle(
            k,
            #[trigger] logging_supervision::start_outcome_run(k, starting, generation, settled).0,
        ),
{
    broadcast use {
        group_idle,
        lemma_init_run_announce_run,
        lemma_init_run_backoff_run,
        lemma_logging_supervision_retire_run,
    };

}

pub(crate) broadcast proof fn lemma_logging_supervision_start_attempt_run(
    k: kernel::Transcript,
    starting: logging_supervision::Starting,
    early_log_reader: ipc::CapabilityHandle,
)
    ensures
        calm(k, #[trigger] logging_supervision::start_attempt_run(k, starting, early_log_reader).0),
{
    broadcast use {
        group_calm,
        lemma_logging_supervision_await_run,
        lemma_logging_supervision_launch_run,
        lemma_logging_supervision_start_outcome_run,
    };

}

proof fn lemma_logging_supervision_start_run_from(
    k: kernel::Transcript,
    starting: logging_supervision::Starting,
    early_log_reader: ipc::CapabilityHandle,
)
    ensures
        calm(k, logging_supervision::start_run(k, starting, early_log_reader).0),
    decreases u64::MAX - starting.generations,
{
    broadcast use {group_calm, lemma_logging_supervision_start_attempt_run};

let (tried, result) = logging_supervision::start_attempt_run(k, starting, early_log_reader);
match result {
Err(halt) => {},
Ok((next, Some(generation))) => {},
Ok((next, None)) => {
if next.generations > starting.generations {
lemma_logging_supervision_start_run_from(tried, next, early_log_reader);
}
},
}
}

pub(crate) broadcast proof fn lemma_logging_supervision_start_run(
    k: kernel::Transcript,
    starting: logging_supervision::Starting,
    early_log_reader: ipc::CapabilityHandle,
)
    ensures
        calm(k, #[trigger] logging_supervision::start_run(k, starting, early_log_reader).0),
{
    lemma_logging_supervision_start_run_from(k, starting, early_log_reader);
}

pub(crate) broadcast proof fn lemma_logging_probes_revive_run(
    k: kernel::Transcript,
    collector: logging_probes::Collector,
    early_log_reader: ipc::CapabilityHandle,
    backoff_yields: u32,
    old_process: syscall::ProcessId,
    old: logging_supervision::LoggingGeneration,
)
    ensures
        calm(
            k,
            #[trigger] logging_probes::revive_run(
                k,
                collector,
                early_log_reader,
                backoff_yields,
                old_process,
                old,
            ).0,
        ),
{
    broadcast use {
        group_calm,
        lemma_init_run_announce_run,
        lemma_init_run_backoff_run,
        lemma_logging_probes_prove_run,
        lemma_logging_supervision_start_run,
    };

}

pub(crate) broadcast proof fn lemma_logging_probes_clear_run(
    k: kernel::Transcript,
    generation: logging_supervision::LoggingGeneration,
)
    ensures
        idle(k, #[trigger] logging_probes::clear_run(k, generation).0),
{
    broadcast use {
        group_idle,
        lemma_logging_supervision_close_run,
        lemma_logging_supervision_drain_job_run,
    };

}

pub(crate) broadcast proof fn lemma_logging_probes_ended_step_run(
    k: kernel::Transcript,
    service: supervisor::Service,
    broker: route_broker::Broker,
    process_id: syscall::ProcessId,
    remaining: nat,
)
    ensures
        idle(
            k,
            #[trigger] logging_probes::ended_step_run(k, service, broker, process_id, remaining).0,
        ),
{
    broadcast use {group_idle, lemma_logging_probes_keep_waiting_run, lemma_syscall_try_wait_run};

}

proof fn lemma_logging_probes_ended_run_from(
    k: kernel::Transcript,
    service: supervisor::Service,
    broker: route_broker::Broker,
    process_id: syscall::ProcessId,
    remaining: nat,
)
    ensures
        idle(k, logging_probes::ended_run(k, service, broker, process_id, remaining).0),
    decreases remaining,
{
    broadcast use {group_idle, lemma_logging_probes_ended_step_run};

let (looked, result) = logging_probes::ended_step_run(k, service, broker, process_id, remaining);
match result {
Err(halt) => {},
Ok((next, logging_probes::Seen::Done(yields))) => {},
Ok((next, logging_probes::Seen::Nothing)) => {
if remaining > 0 {
lemma_logging_probes_ended_run_from(looked, next, broker, process_id, (remaining - 1) as nat);
}
},
}
}

pub(crate) broadcast proof fn lemma_logging_probes_ended_run(
    k: kernel::Transcript,
    service: supervisor::Service,
    broker: route_broker::Broker,
    process_id: syscall::ProcessId,
    remaining: nat,
)
    ensures
        idle(k, #[trigger] logging_probes::ended_run(k, service, broker, process_id, remaining).0),
{
    lemma_logging_probes_ended_run_from(k, service, broker, process_id, remaining);
}

pub(crate) broadcast proof fn lemma_route_broker_withdraw_run(
    k: kernel::Transcript,
    routes: route_broker::Routes,
    generation: identity::ProviderGeneration,
)
    ensures
        idle(k, #[trigger] route_broker::withdraw_run(k, routes, generation).0),
{
    broadcast use {group_idle, lemma_ipc_close_run};

}

pub(crate) broadcast proof fn lemma_logging_probes_terminate_run(
    k: kernel::Transcript,
    service: supervisor::Service,
    broker: route_broker::Broker,
    generation: logging_supervision::LoggingGeneration,
    process_id: syscall::ProcessId,
)
    ensures
        idle(
            k,
            #[trigger] logging_probes::terminate_run(k, service, broker, generation, process_id).0,
        ),
{
    broadcast use {
        group_idle,
        lemma_logging_probes_clear_run,
        lemma_logging_probes_ended_run,
        lemma_logging_probes_signal_one_run,
        lemma_route_broker_withdraw_run,
    };

}

pub(crate) broadcast proof fn lemma_logging_probes_renewed_run(
    k: kernel::Transcript,
    collector: logging_probes::Collector,
    early_log_reader: ipc::CapabilityHandle,
    generation: logging_supervision::LoggingGeneration,
    process_id: syscall::ProcessId,
    stress: logging_probes::Stress,
)
    ensures
        calm(
            k,
            #[trigger] logging_probes::renewed_run(
                k,
                collector,
                early_log_reader,
                generation,
                process_id,
                stress,
            ).0,
        ),
{
    broadcast use {
        group_calm,
        lemma_init_run_announce_run,
        lemma_logging_probes_revive_run,
        lemma_logging_probes_terminate_run,
        lemma_nullfs_probes_close_both_run,
    };

}

pub(crate) broadcast proof fn lemma_logging_probes_stressed_run(
    k: kernel::Transcript,
    collector: logging_probes::Collector,
    early_log_reader: ipc::CapabilityHandle,
    generation: logging_supervision::LoggingGeneration,
    process_id: syscall::ProcessId,
    stress: logging_probes::Stress,
)
    ensures
        calm(
            k,
            #[trigger] logging_probes::stressed_run(
                k,
                collector,
                early_log_reader,
                generation,
                process_id,
                stress,
            ).0,
        ),
{
    broadcast use {
        group_calm,
        lemma_logging_probes_pause_run,
        lemma_logging_probes_pressure_run,
        lemma_logging_probes_quiet_run,
        lemma_logging_probes_renewed_run,
    };

}

pub(crate) broadcast proof fn lemma_logging_probes_collector_test_run(
    k: kernel::Transcript,
    collector: logging_probes::Collector,
    early_log_reader: ipc::CapabilityHandle,
    generation: logging_supervision::LoggingGeneration,
)
    ensures
        calm(
            k,
            #[trigger] logging_probes::collector_test_run(
                k,
                collector,
                early_log_reader,
                generation,
            ).0,
        ),
{
    broadcast use {
        group_calm,
        lemma_logging_probes_heard_run,
        lemma_logging_probes_stress_run,
        lemma_logging_probes_stressed_run,
    };

}

pub(crate) broadcast proof fn lemma_boot_probe_logging_run(
    k: kernel::Transcript,
    collector: logging_probes::Collector,
    early_log_reader: ipc::CapabilityHandle,
    generation: logging_supervision::LoggingGeneration,
    mode: boot_mode::InitBootMode,
)
    ensures
        calm(
            k,
            #[trigger] boot::probe_logging_run(k, collector, early_log_reader, generation, mode).0,
        ),
{
    broadcast use {
        group_calm,
        lemma_logging_probes_collector_test_run,
        lemma_logging_probes_logging_probe_run,
    };

}

pub(crate) broadcast proof fn lemma_logging_probes_logctl_run(
    k: kernel::Transcript,
    service: supervisor::Service,
    broker: route_broker::Broker,
)
    ensures
        calm(k, #[trigger] logging_probes::logctl_run(k, service, broker).0),
{
    broadcast use {
        group_calm,
        lemma_init_run_announce_run,
        lemma_logging_probes_tool_ended_run,
        lemma_probe_launch_run,
    };

}

pub(crate) broadcast proof fn lemma_boot_show_log_run(
    k: kernel::Transcript,
    collector: logging_probes::Collector,
    generation: logging_supervision::LoggingGeneration,
    early_log_reader: ipc::CapabilityHandle,
)
    ensures
        calm(k, #[trigger] boot::show_log_run(k, collector, generation, early_log_reader).0),
{
    broadcast use {group_calm, lemma_logging_probes_logctl_run};

}

pub(crate) broadcast proof fn lemma_service_route_bind_run(
    k: kernel::Transcript,
    receive: ipc::CapabilityHandle,
    granted_key: identity::RouteKey,
)
    ensures
        idle(k, #[trigger] service_route::bind_run(k, receive, granted_key).0),
{
    broadcast use {group_idle, lemma_ipc_info_run};

}

pub(crate) broadcast proof fn lemma_route_broker_ingresses_run(
    k: kernel::Transcript,
    producer: ipc::CapabilityHandle,
    observer: ipc::CapabilityHandle,
    producer_receive: ipc::CapabilityHandle,
    observer_receive: ipc::CapabilityHandle,
)
    ensures
        idle(
            k,
            #[trigger] route_broker::ingresses_run(
                k,
                producer,
                observer,
                producer_receive,
                observer_receive,
            ).0,
        ),
{
    broadcast use {group_idle, lemma_service_route_bind_run};

}

pub(crate) broadcast proof fn lemma_route_broker_receivers_run(
    k: kernel::Transcript,
    producer: ipc::CapabilityHandle,
    observer: ipc::CapabilityHandle,
)
    ensures
        idle(k, #[trigger] route_broker::receivers_run(k, producer, observer).0),
{
    broadcast use {group_idle, lemma_route_broker_ingresses_run};

}

pub(crate) broadcast proof fn lemma_route_broker_new_run(k: kernel::Transcript)
    ensures
        idle(k, #[trigger] route_broker::new_run(k).0),
{
    broadcast use {group_idle, lemma_route_broker_receivers_run};

}

pub(crate) broadcast proof fn lemma_boot_logging_run(
    k: kernel::Transcript,
    spec: supervisor::ServiceSpec,
    mode: boot_mode::InitBootMode,
)
    ensures
        calm(k, #[trigger] boot::logging_run(k, spec, mode).0),
{
    broadcast use {
        group_calm,
        lemma_boot_early_log_run,
        lemma_boot_probe_logging_run,
        lemma_boot_show_log_run,
        lemma_logging_supervision_start_run,
        lemma_route_broker_new_run,
    };

}

pub(crate) broadcast proof fn lemma_boot_crash_hook_run(
    k: kernel::Transcript,
    mode: boot_mode::InitBootMode,
)
    ensures
        idle(k, #[trigger] boot::crash_hook_run(k, mode).0),
{
    broadcast use {group_idle};

}

pub(crate) broadcast proof fn lemma_boot_nullfs_device_run(
    k: kernel::Transcript,
    mode: boot_mode::InitBootMode,
)
    ensures
        idle(k, #[trigger] boot::nullfs_device_run(k, mode).0),
{
    broadcast use {
        group_idle,
        lemma_boot_crash_hook_run,
        lemma_boot_shaped_run,
        lemma_contained_service_create_endpoints_run,
    };

}

pub(crate) broadcast proof fn lemma_definition_service_stall_run(k: kernel::Transcript)
    ensures
        idle(k, #[trigger] definition_service::stall_run(k).0),
{
    broadcast use {group_idle, lemma_syscall_yield_run};

}

pub(crate) broadcast proof fn lemma_syscall_read_run(
    k: kernel::Transcript,
    descriptor: u64,
    capacity: usize,
)
    ensures
        idle(k, #[trigger] syscall::read_run(k, descriptor, capacity).0),
{
    broadcast use {group_idle};

}

proof fn lemma_definition_service_at_end_run_from(
    k: kernel::Transcript,
    descriptor: u64,
    retries: nat,
)
    ensures
        idle(k, definition_service::at_end_run(k, descriptor, retries).0),
    decreases retries,
{
    broadcast use {group_idle, lemma_definition_service_stall_run, lemma_syscall_read_run};

let (asked, read) = syscall::read_run(k, descriptor, 1);
match read {
None => {},
Some(Ok(piece)) => {},
Some(Err(error)) => {
if error == ipc::Error::try_again() && retries > 0 {
let (rested, stalled) = definition_service::stall_run(asked);
match stalled {
Err(halt) => {},
Ok(Err(error)) => {},
Ok(Ok(_)) => {
lemma_definition_service_at_end_run_from(rested, descriptor, (retries - 1) as nat);
},
}
}
},
}
}

pub(crate) broadcast proof fn lemma_definition_service_at_end_run(
    k: kernel::Transcript,
    descriptor: u64,
    retries: nat,
)
    ensures
        idle(k, #[trigger] definition_service::at_end_run(k, descriptor, retries).0),
{
    lemma_definition_service_at_end_run_from(k, descriptor, retries);
}

proof fn lemma_file_read(
    k: Transcript,
    descriptor: u64,
    length: usize,
    before: Seq<u8>,
    retries: nat,
)
    ensures
        idle(
            k,
            definition_service::read_run(k, descriptor, length, before, retries).0,
        ),
    decreases length - before.len(), retries,
{
    broadcast use {group_idle, lemma_syscall_read_run, lemma_definition_service_stall_run};

    if before.len() < length {
        let (asked, read) = syscall::read_run(
            k,
            descriptor,
            (length - before.len()) as usize,
        );
        if let Some(Ok(piece)) = read {
            if piece.len() > 0 {
                lemma_file_read(
                    asked,
                    descriptor,
                    length,
                    before + piece,
                    definition_service::FILE_RETRIES as nat,
                );
            }
        }
        if retries > 0 {
            let (rested, stalled) = definition_service::stall_run(asked);
            lemma_file_read(rested, descriptor, length, before, (retries - 1) as nat);
        }
    }
}

broadcast proof fn lemma_definition_service_read_run(
    k: Transcript,
    descriptor: u64,
    length: usize,
    before: Seq<u8>,
    retries: nat,
)
    ensures
        idle(
            k,
            #[trigger] definition_service::read_run(
                k,
                descriptor,
                length,
                before,
                retries,
            ).0,
        ),
{
    lemma_file_read(k, descriptor, length, before, retries);
}

proof fn lemma_definition_service_stat_run_from(
    k: kernel::Transcript,
    descriptor: u64,
    retries: nat,
)
    ensures
        idle(k, definition_service::stat_run(k, descriptor, retries).0),
    decreases retries,
{
    broadcast use {group_idle, lemma_definition_service_stall_run};

let (asked, record) = platform::record_run(k, kernel::Op::FileStatus { descriptor }, seq![]);
match record {
None => {},
Some(Ok(words)) => {},
Some(Err(error)) => {
if error == platform::Errno::try_again() && retries > 0 {
let (rested, stalled) = definition_service::stall_run(asked);
match stalled {
Err(halt) => {},
Ok(Err(error)) => {},
Ok(Ok(_)) => {
lemma_definition_service_stat_run_from(rested, descriptor, (retries - 1) as nat);
},
}
}
},
}
}

pub(crate) broadcast proof fn lemma_definition_service_stat_run(
    k: kernel::Transcript,
    descriptor: u64,
    retries: nat,
)
    ensures
        idle(k, #[trigger] definition_service::stat_run(k, descriptor, retries).0),
{
    lemma_definition_service_stat_run_from(k, descriptor, retries);
}

pub(crate) broadcast proof fn lemma_definition_service_contents_run(
    k: kernel::Transcript,
    descriptor: u64,
)
    ensures
        idle(k, #[trigger] definition_service::contents_run(k, descriptor).0),
{
    broadcast use {
        group_idle,
        lemma_definition_service_at_end_run,
        lemma_definition_service_read_run,
        lemma_definition_service_stat_run,
    };

}

proof fn lemma_definition_service_open_run_from(k: kernel::Transcript, retries: nat)
    ensures
        idle(k, definition_service::open_run(k, retries).0),
    decreases retries,
{
    broadcast use {group_idle, lemma_definition_service_stall_run};

let (asked, opened) = syscall::value_bytes_run(
        k,
        kernel::Op::Open,
        service_cleanup::ascii("/services/definition-probe.service"@),
    );
match opened {
None => {},
Some(Ok(descriptor)) => {},
Some(Err(error)) => {
if error == ipc::Error::try_again() && retries > 0 {
let (rested, stalled) = definition_service::stall_run(asked);
match stalled {
Err(halt) => {},
Ok(Err(error)) => {},
Ok(Ok(_)) => {
lemma_definition_service_open_run_from(rested, (retries - 1) as nat);
},
}
}
},
}
}

pub(crate) broadcast proof fn lemma_definition_service_open_run(k: kernel::Transcript, retries: nat)
    ensures
        idle(k, #[trigger] definition_service::open_run(k, retries).0),
{
    lemma_definition_service_open_run_from(k, retries);
}

pub(crate) broadcast proof fn lemma_definition_service_load_run(k: kernel::Transcript)
    ensures
        idle(k, #[trigger] definition_service::load_run(k).0),
{
    broadcast use {
        group_idle,
        lemma_definition_service_contents_run,
        lemma_definition_service_open_run,
        lemma_init_run_announce_run,
    };

}

pub(crate) broadcast proof fn lemma_activation_close_talk_run(
    k: kernel::Transcript,
    attempt: activation::ActivationAttempt,
)
    ensures
        idle(k, #[trigger] activation::close_talk_run(k, attempt).0),
{
    broadcast use {
        group_idle,
        lemma_activation_close_bootstrap_run,
        lemma_activation_close_generation_run,
        lemma_activation_close_readiness_run,
    };

}

pub(crate) broadcast proof fn lemma_activation_abort_definition_run(
    k: kernel::Transcript,
    attempt: activation::ActivationAttempt,
)
    ensures
        idle(k, #[trigger] activation::abort_definition_run(k, attempt).0),
{
    reveal(activation::abort_definition_run);
    broadcast use {
        group_idle,
        lemma_activation_close_management_run,
        lemma_activation_close_talk_run,
        lemma_activation_end_processes_run,
        lemma_activation_free_barrier_run,
    };

}

pub(crate) broadcast proof fn lemma_definition_service_stop_run(
    k: kernel::Transcript,
    state: definition_service::DefinitionState,
    attempt: activation::ActivationAttempt,
    leader_reaped: bool,
    result: Result<definition_service::DefinitionStartOutcome, definition_service::DefinitionServiceError>,
)
    ensures
        idle(
            k,
            #[trigger] definition_service::stop_run(k, state, attempt, leader_reaped, result).0,
        ),
{
    broadcast use {group_idle, lemma_activation_abort_definition_run};

}

pub(crate) broadcast proof fn lemma_definition_service_broken_run(
    k: kernel::Transcript,
    state: definition_service::DefinitionState,
    attempt: activation::ActivationAttempt,
)
    ensures
        idle(k, #[trigger] definition_service::broken_run(k, state, attempt).0),
{
    broadcast use {group_idle, lemma_definition_service_stop_run, lemma_init_run_announce_run};

}

pub(crate) broadcast proof fn lemma_definition_service_ready_run(
    k: kernel::Transcript,
    state: definition_service::DefinitionState,
    attempt: activation::ActivationAttempt,
    generation: identity::ProviderGeneration,
)
    ensures
        idle(k, #[trigger] definition_service::ready_run(k, state, attempt, generation).0),
{
    broadcast use {group_idle, lemma_init_run_announce_run};

}

pub(crate) broadcast proof fn lemma_definition_service_hear_ready_run(
    k: kernel::Transcript,
    state: definition_service::DefinitionState,
    attempt: activation::ActivationAttempt,
    process_id: syscall::ProcessId,
    generation: identity::ProviderGeneration,
    endpoint: ipc::CapabilityHandle,
    message: Seq<u8>,
    patience: u32,
)
    ensures
        idle(
            k,
            #[trigger] definition_service::hear_ready_run(
                k,
                state,
                attempt,
                process_id,
                generation,
                endpoint,
                message,
                patience,
            ).0,
        ),
{
    broadcast use {
        group_idle,
        lemma_definition_service_broken_run,
        lemma_definition_service_ready_run,
        lemma_definition_service_stop_run,
        lemma_ipc_try_receive_run,
        lemma_procedure_quiet_received_run,
    };

}

pub(crate) broadcast proof fn lemma_definition_service_rest_run(
    k: kernel::Transcript,
    state: definition_service::DefinitionState,
    attempt: activation::ActivationAttempt,
)
    ensures
        idle(k, #[trigger] definition_service::rest_run(k, state, attempt).0),
{
    broadcast use {group_idle, lemma_definition_service_stop_run, lemma_syscall_yield_run};

}

pub(crate) broadcast proof fn lemma_definition_service_watch_run(
    k: kernel::Transcript,
    state: definition_service::DefinitionState,
    attempt: activation::ActivationAttempt,
    process_id: syscall::ProcessId,
)
    ensures
        idle(k, #[trigger] definition_service::watch_run(k, state, attempt, process_id).0),
{
    broadcast use {
        group_idle,
        lemma_definition_service_rest_run,
        lemma_definition_service_stop_run,
        lemma_syscall_try_wait_run,
    };

}

pub(crate) broadcast proof fn lemma_definition_service_look_run(
    k: kernel::Transcript,
    state: definition_service::DefinitionState,
    attempt: activation::ActivationAttempt,
    process_id: syscall::ProcessId,
    generation: identity::ProviderGeneration,
    endpoint: ipc::CapabilityHandle,
    message: Seq<u8>,
    patience: u32,
)
    ensures
        idle(
            k,
            #[trigger] definition_service::look_run(
                k,
                state,
                attempt,
                process_id,
                generation,
                endpoint,
                message,
                patience,
            ).0,
        ),
{
    broadcast use {
        group_idle,
        lemma_definition_service_hear_ready_run,
        lemma_definition_service_watch_run,
    };

}

proof fn lemma_definition_service_await_run_from(
    k: kernel::Transcript,
    state: definition_service::DefinitionState,
    attempt: activation::ActivationAttempt,
    process_id: syscall::ProcessId,
    generation: identity::ProviderGeneration,
    endpoint: ipc::CapabilityHandle,
    message: Seq<u8>,
    patience: u32,
)
    ensures
        idle(
            k,
            definition_service::await_run(
                k,
                state,
                attempt,
                process_id,
                generation,
                endpoint,
                message,
                patience,
            ).0,
        ),
    decreases patience,
{
    broadcast use {group_idle, lemma_definition_service_look_run};

let (looked, result) = definition_service::look_run(
        k,
        state,
        attempt,
        process_id,
        generation,
        endpoint,
        message,
        patience,
    );
match result {
Err(halt) => {},
Ok(Some(ended)) => {},
Ok(None) => {
if patience == 0 {

} else {
lemma_definition_service_await_run_from(
                looked,
                state,
                attempt,
                process_id,
                generation,
                endpoint,
                message,
                (patience - 1) as u32,
            );
}
},
}
}

pub(crate) broadcast proof fn lemma_definition_service_await_run(
    k: kernel::Transcript,
    state: definition_service::DefinitionState,
    attempt: activation::ActivationAttempt,
    process_id: syscall::ProcessId,
    generation: identity::ProviderGeneration,
    endpoint: ipc::CapabilityHandle,
    message: Seq<u8>,
    patience: u32,
)
    ensures
        idle(
            k,
            #[trigger] definition_service::await_run(
                k,
                state,
                attempt,
                process_id,
                generation,
                endpoint,
                message,
                patience,
            ).0,
        ),
{
    lemma_definition_service_await_run_from(
        k,
        state,
        attempt,
        process_id,
        generation,
        endpoint,
        message,
        patience,
    );
}

pub(crate) broadcast proof fn lemma_definition_service_fail_run<T>(
    k: kernel::Transcript,
    state: definition_service::DefinitionState,
    attempt: activation::ActivationAttempt,
)
    ensures
        idle(k, #[trigger] definition_service::fail_run::<T>(k, state, attempt).0),
{
    broadcast use {group_idle, lemma_definition_service_stop_run};

}

pub(crate) broadcast proof fn lemma_definition_service_bootstrap_part(
    k: kernel::Transcript,
    state: definition_service::DefinitionState,
    attempt: activation::ActivationAttempt,
)
    ensures
        idle(k, #[trigger] definition_service::bootstrap_part(k, state, attempt).0),
{
    broadcast use {
        group_idle,
        lemma_definition_service_fail_run,
        lemma_ipc_endpoint_create_pair_run,
    };

}

pub(crate) broadcast proof fn lemma_definition_service_generation_part(
    k: kernel::Transcript,
    state: definition_service::DefinitionState,
    attempt: activation::ActivationAttempt,
    generation: identity::ProviderGeneration,
)
    ensures
        idle(k, #[trigger] definition_service::generation_part(k, state, attempt, generation).0),
{
    broadcast use {
        group_idle,
        lemma_definition_service_fail_run,
        lemma_service_route_queue_generation_run,
    };

}

pub(crate) broadcast proof fn lemma_definition_service_job_part(
    k: kernel::Transcript,
    state: definition_service::DefinitionState,
)
    ensures
        idle(k, #[trigger] definition_service::job_part(k, state).0),
{
    broadcast use {group_idle, lemma_activation_create_job_run, lemma_definition_service_fail_run};

}

pub(crate) broadcast proof fn lemma_definition_service_readiness_part(
    k: kernel::Transcript,
    state: definition_service::DefinitionState,
    attempt: activation::ActivationAttempt,
    notifies: bool,
)
    ensures
        idle(k, #[trigger] definition_service::readiness_part(k, state, attempt, notifies).0),
{
    broadcast use {group_idle, lemma_definition_service_fail_run};

}

pub(crate) broadcast proof fn lemma_service_launch_definition_start_run(
    k: kernel::Transcript,
    sender: Option<ipc::CapabilityHandle>,
    generation_source: Option<ipc::CapabilityHandle>,
    readiness: Option<ipc::CapabilityHandle>,
    arguments: Seq<Seq<u8>>,
    process_id: syscall::ProcessId,
    generation: identity::ProviderGeneration,
    restart_count: u32,
)
    ensures
        idle(
            k,
            #[trigger] service_launch::definition_start_run(
                k,
                sender,
                generation_source,
                readiness,
                arguments,
                process_id,
                generation,
                restart_count,
            ).0,
        ),
{
    broadcast use {
        group_idle,
        lemma_managed_startup_send_capabilities_run,
        lemma_service_launch_describe_run,
    };

}

pub(crate) broadcast proof fn lemma_definition_service_tell_run(
    k: kernel::Transcript,
    definition: definition_service::Definition,
    restart_count: u32,
    attempt: activation::ActivationAttempt,
    process_id: syscall::ProcessId,
    generation: identity::ProviderGeneration,
)
    ensures
        idle(
            k,
            #[trigger] definition_service::tell_run(
                k,
                definition,
                restart_count,
                attempt,
                process_id,
                generation,
            ).0,
        ),
{
    broadcast use {group_idle, lemma_init_run_grant_run, lemma_service_launch_definition_start_run};

}

pub(crate) broadcast proof fn lemma_definition_service_release_part(
    k: kernel::Transcript,
    definition: definition_service::Definition,
    state: definition_service::DefinitionState,
    attempt: activation::ActivationAttempt,
    process_id: syscall::ProcessId,
    generation: identity::ProviderGeneration,
)
    ensures
        idle(
            k,
            #[trigger] definition_service::release_part(
                k,
                definition,
                state,
                attempt,
                process_id,
                generation,
            ).0,
        ),
{
    broadcast use {
        group_idle,
        lemma_activation_release_child_run,
        lemma_definition_service_fail_run,
        lemma_definition_service_tell_run,
    };

}

pub(crate) broadcast proof fn lemma_definition_service_spawn_part(
    k: kernel::Transcript,
    state: definition_service::DefinitionState,
    attempt: activation::ActivationAttempt,
    executable: Seq<u8>,
)
    ensures
        calm(k, #[trigger] definition_service::spawn_part(k, state, attempt, executable).0),
{
    broadcast use {
        group_calm,
        lemma_activation_assign_run,
        lemma_activation_spawn_child_run,
        lemma_definition_service_fail_run,
    };

}

pub(crate) broadcast proof fn lemma_definition_service_spawn_release_part(
    k: kernel::Transcript,
    definition: definition_service::Definition,
    state: definition_service::DefinitionState,
    attempt: activation::ActivationAttempt,
    generation: identity::ProviderGeneration,
)
    ensures
        calm(
            k,
            #[trigger] definition_service::spawn_release_part(
                k,
                definition,
                state,
                attempt,
                generation,
            ).0,
        ),
{
    broadcast use {
        group_calm,
        lemma_definition_service_release_part,
        lemma_definition_service_spawn_part,
    };

}

pub(crate) broadcast proof fn lemma_definition_service_launch_part(
    k: kernel::Transcript,
    definition: definition_service::Definition,
    state: definition_service::DefinitionState,
    generation: identity::ProviderGeneration,
)
    ensures
        calm(k, #[trigger] definition_service::launch_part(k, definition, state, generation).0),
{
    broadcast use {
        group_calm,
        lemma_definition_service_bootstrap_part,
        lemma_definition_service_generation_part,
        lemma_definition_service_job_part,
        lemma_definition_service_readiness_part,
        lemma_definition_service_spawn_release_part,
    };

}

pub(crate) broadcast proof fn lemma_definition_service_start_with_run(
    k: kernel::Transcript,
    definition: definition_service::Definition,
    state: definition_service::DefinitionState,
    generation: identity::ProviderGeneration,
)
    ensures
        calm(k, #[trigger] definition_service::start_with_run(k, definition, state, generation).0),
{
    broadcast use {
        group_calm,
        lemma_definition_service_await_run,
        lemma_definition_service_launch_part,
        lemma_definition_service_ready_run,
    };

}

pub(crate) broadcast proof fn lemma_definition_service_start_run(
    k: kernel::Transcript,
    definition: definition_service::Definition,
    defined: definition_service::Defined,
)
    ensures
        calm(k, #[trigger] definition_service::start_run(k, definition, defined).0),
{
    broadcast use {group_calm, lemma_definition_service_start_with_run};

}

pub(crate) broadcast proof fn lemma_definition_service_restart_run(
    k: kernel::Transcript,
    definition: definition_service::Definition,
    defined: definition_service::Defined,
)
    ensures
        calm(k, #[trigger] definition_service::restart_run(k, definition, defined).0),
{
    broadcast use {
        group_calm,
        lemma_definition_service_start_run,
        lemma_init_run_announce_run,
        lemma_init_run_backoff_run,
    };

}

pub(crate) broadcast proof fn lemma_definition_service_deferred_restart_run(
    k: kernel::Transcript,
    definition: definition_service::Definition,
    defined: definition_service::Defined,
    dependencies_ready: bool,
)
    ensures
        calm(
            k,
            #[trigger] definition_service::deferred_restart_run(
                k,
                definition,
                defined,
                dependencies_ready,
            ).0,
        ),
{
    broadcast use {group_calm, lemma_definition_service_restart_run, lemma_init_run_announce_run};

}

pub(crate) broadcast proof fn lemma_definition_service_clear_job_run(
    k: kernel::Transcript,
    state: definition_service::DefinitionState,
)
    ensures
        idle(k, #[trigger] definition_service::clear_job_run(k, state).0),
{
    broadcast use {group_idle, lemma_service_teardown_drain_run};

}

pub(crate) broadcast proof fn lemma_definition_service_clear_run(
    k: kernel::Transcript,
    state: definition_service::DefinitionState,
    leader_reaped: bool,
)
    ensures
        idle(k, #[trigger] definition_service::clear_run(k, state, leader_reaped).0),
{
    broadcast use {
        group_idle,
        lemma_definition_service_clear_job_run,
        lemma_service_teardown_close_capability_run,
    };

}

pub(crate) broadcast proof fn lemma_definition_service_poll_process_run(
    k: kernel::Transcript,
    definition: definition_service::Definition,
    state: definition_service::DefinitionState,
    process_id: syscall::ProcessId,
)
    ensures
        idle(
            k,
            #[trigger] definition_service::poll_process_run(k, definition, state, process_id).0,
        ),
{
    broadcast use {
        group_idle,
        lemma_definition_service_clear_run,
        lemma_init_run_announce_run,
        lemma_syscall_try_wait_run,
    };

}

pub(crate) broadcast proof fn lemma_definition_service_poll_state_run(
    k: kernel::Transcript,
    definition: definition_service::Definition,
    state: definition_service::DefinitionState,
)
    ensures
        idle(k, #[trigger] definition_service::poll_state_run(k, definition, state).0),
{
    broadcast use {
        group_idle,
        lemma_definition_service_clear_run,
        lemma_definition_service_poll_process_run,
    };

}

pub(crate) broadcast proof fn lemma_definition_service_retry_cleanup_run(
    k: kernel::Transcript,
    state: definition_service::DefinitionState,
)
    ensures
        idle(k, #[trigger] definition_service::retry_cleanup_run(k, state).0),
{
    broadcast use {group_idle, lemma_activation_abort_definition_run};

}

/// The call that makes a filesystem known at an endpoint.
pub open spec fn registration(provider: FilesystemProvider, endpoint: u64, generation: u64) -> Op {
    Op::RegisterFilesystem { provider: provider.raw(), endpoint, generation }
}

/// Whether a call was made after an earlier point, and the kernel agreed to it.
pub open spec fn agreed_since(before: Transcript, after: Transcript, op: Op) -> bool {
    exists|i: int|
        before.asked.len() <= i < after.asked.len() && i < after.replies.len() && (
        #[trigger] after.asked[i]).op == op && platform::decoded(after.replies[i].result) is Ok
}

/// A filesystem was registered, here and nowhere else: nothing else was registered, and no
/// filesystem other than NullFS was taken away.
#[verifier::opaque]
pub open spec fn settles(
    before: Transcript,
    after: Transcript,
    provider: FilesystemProvider,
    endpoint: u64,
    generation: u64,
) -> bool {
    &&& avoids(
        before,
        after,
        |op: Op|
            (registers(op) && op != registration(provider, endpoint, generation)) || takes_away(op),
    )
    &&& agreed_since(before, after, registration(provider, endpoint, generation))
    &&& generation <= u32::MAX
}

pub(crate) broadcast proof fn lemma_settles_after(
    first: Transcript,
    second: Transcript,
    third: Transcript,
    provider: FilesystemProvider,
    endpoint: u64,
    generation: u64,
)
    requires
        #[trigger] fading(first, second),
        #[trigger] settles(second, third, provider, endpoint, generation),
    ensures
        settles(first, third, provider, endpoint, generation),
{
    reveal(fading);
    reveal(settles);
    assert forall|i: int| 0 <= i < first.asked.len() implies third.asked[i]
        == #[trigger] first.asked[i] by {
        assert(second.asked[i] == first.asked[i]);
    }
    assert forall|i: int| first.asked.len() <= i < second.asked.len() implies (
    #[trigger] third.asked[i]) == second.asked[i] by {
        assert(second.asked[i] == second.asked[i]);
    }
}

pub(crate) broadcast proof fn lemma_settles_before(
    first: Transcript,
    second: Transcript,
    third: Transcript,
    provider: FilesystemProvider,
    endpoint: u64,
    generation: u64,
)
    requires
        #[trigger] settles(first, second, provider, endpoint, generation),
        #[trigger] fading(second, third),
    ensures
        settles(first, third, provider, endpoint, generation),
{
    reveal(fading);
    reveal(settles);
    assert forall|i: int| 0 <= i < first.asked.len() implies third.asked[i]
        == #[trigger] first.asked[i] by {
        assert(second.asked[i] == first.asked[i]);
    }
    assert forall|i: int| first.asked.len() <= i < second.asked.len() implies (
    #[trigger] third.asked[i]) == second.asked[i] by {
        assert(second.asked[i] == second.asked[i]);
    }
    let op = registration(provider, endpoint, generation);
    let i = choose|i: int|
        first.asked.len() <= i < second.asked.len() && i < second.replies.len() && (
        #[trigger] second.asked[i]).op == op && platform::decoded(second.replies[i].result) is Ok;
    assert(third.asked[i].op == op);
}

proof fn lemma_settles_at_once(
    k: Transcript,
    provider: FilesystemProvider,
    endpoint: u64,
    generation: u32,
)
    requires
        platform::register_run(k, provider, endpoint, generation).1 matches Some(Ok(_)),
    ensures
        settles(
            k,
            platform::register_run(k, provider, endpoint, generation).0,
            provider,
            endpoint,
            generation as u64,
        ),
{
    reveal(settles);
    let after = platform::register_run(k, provider, endpoint, generation).0;
    assert(after.asked[k.asked.len() as int].op == registration(
        provider,
        endpoint,
        generation as u64,
    ));
}

pub(crate) broadcast group group_settles {
    group_fading,
    lemma_settles_after,
    lemma_settles_before,
}

proof fn lemma_tries_settle(k: Transcript, generation: u32, endpoint: u64, tries: nat)
    ensures
        filesystem_registry::register_nullfs_tries(k, generation, endpoint, tries).1 is Ok
            ==> settles(
            k,
            filesystem_registry::register_nullfs_tries(k, generation, endpoint, tries).0,
            FilesystemProvider::Nullfs,
            endpoint,
            generation as u64,
        ),
    decreases tries,
{
    if tries > 0 {
        let (asked, result) = platform::register_run(
            k,
            FilesystemProvider::Nullfs,
            endpoint,
            generation,
        );
        if let Some(Ok(_)) = result {
            lemma_settles_at_once(k, FilesystemProvider::Nullfs, endpoint, generation);
        }
        let (rested, yielded) = init_run::rest_run(asked, Text::NullfsServiceBootstrapFailed);
        lemma_tries_settle(rested, generation, endpoint, (tries - 1) as nat);
        if filesystem_registry::register_nullfs_tries(k, generation, endpoint, tries).1 is Ok
            && result matches Some(Err(_)) {
            reveal(settles);
            let op = registration(FilesystemProvider::Nullfs, endpoint, generation as u64);
            let after = filesystem_registry::register_nullfs_tries(
                k,
                generation,
                endpoint,
                tries,
            ).0;
            assert(rested.asked.len() == k.asked.len() + 2);
            assert forall|i: int| k.asked.len() <= i < rested.asked.len() implies (
            #[trigger] after.asked[i]) == rested.asked[i] by {
                assert(rested.asked[i] == rested.asked[i]);
            }
            assert forall|i: int| 0 <= i < k.asked.len() implies after.asked[i]
                == #[trigger] k.asked[i] by {
                assert(rested.asked[i] == k.asked[i]);
            }
        }
    }
}

pub(crate) broadcast proof fn lemma_registered_nullfs_settles(
    k: Transcript,
    generation: ProviderGeneration,
    endpoint: u64,
)
    ensures
        (#[trigger] filesystem_registry::register_nullfs_run(k, generation, endpoint)).1 is Ok ==> {
            &&& settles(
                k,
                filesystem_registry::register_nullfs_run(k, generation, endpoint).0,
                FilesystemProvider::Nullfs,
                endpoint,
                generation.raw,
            )
            &&& generation.raw <= u32::MAX
        },
{
    if let Some(number) = filesystem_registry::kernel_generation(generation) {
        lemma_tries_settle(
            k,
            number,
            endpoint,
            filesystem_registry::REGISTER_ATTEMPTS as nat,
        );
    }
}

pub(crate) broadcast proof fn lemma_registered_tmpfs_settles(
    k: Transcript,
    generation: ProviderGeneration,
    endpoint: u64,
)
    ensures
        (#[trigger] filesystem_registry::register_tmpfs_run(k, generation, endpoint)).1 is Ok
            ==> settles(
            k,
            filesystem_registry::register_tmpfs_run(k, generation, endpoint).0,
            FilesystemProvider::Tmpfs,
            endpoint,
            generation.raw,
        ),
{
    broadcast use {group_settles, lemma_platform_connect_run};

    if filesystem_registry::register_tmpfs_run(k, generation, endpoint).1 is Ok {
        let (connected, mount) = platform::connect_run(k, endpoint);
        let mount = mount->Some_0->Ok_0;
        let (parted, _) = platform::unit_run(
            connected,
            Op::DisconnectMount { mount: mount.number },
            seq![],
        );
        lemma_settles_at_once(
            parted,
            FilesystemProvider::Tmpfs,
            endpoint,
            filesystem_registry::kernel_generation(generation)->Some_0,
        );
    }
}

pub(crate) broadcast proof fn lemma_registered_vfs_settles(
    k: Transcript,
    generation: ProviderGeneration,
    endpoint: u64,
)
    ensures
        (#[trigger] filesystem_registry::register_vfs_run(k, generation, endpoint)).1 is Ok
            ==> settles(
            k,
            filesystem_registry::register_vfs_run(k, generation, endpoint).0,
            FilesystemProvider::Vfs,
            endpoint,
            generation.raw,
        ),
{
    if filesystem_registry::register_vfs_run(k, generation, endpoint).1 is Ok {
        lemma_settles_at_once(
            k,
            FilesystemProvider::Vfs,
            endpoint,
            filesystem_registry::kernel_generation(generation)->Some_0,
        );
    }
}

pub(crate) broadcast proof fn lemma_nullfs_probes_replace_run_settles(
    k: kernel::Transcript,
    nullfs: nullfs_probes::Nullfs,
    old_generation: identity::ProviderGeneration,
    grants: Seq<init_run::BootstrapCapability>,
    text: init_text::Text,
)
    ensures
        (#[trigger] nullfs_probes::replace_run(k, nullfs, old_generation, grants, text)).1 matches Ok(outcome) ==> settles(
            k,
            nullfs_probes::replace_run(k, nullfs, old_generation, grants, text).0,
            FilesystemProvider::Nullfs,
            outcome.0.resources.request_endpoint,
            outcome.1.raw,
        ),
{
    broadcast use {
        group_settles,
        lemma_contained_service_start_run,
        lemma_registered_nullfs_settles,
    };

}

pub(crate) broadcast proof fn lemma_nullfs_probes_recover_run_settles(
    k: kernel::Transcript,
    nullfs: nullfs_probes::Nullfs,
    old_generation: identity::ProviderGeneration,
    old_object: u64,
    backoff_yields: u32,
    grants: Seq<init_run::BootstrapCapability>,
)
    ensures
        (#[trigger] nullfs_probes::recover_run(k, nullfs, old_generation, old_object, backoff_yields, grants)).1 matches Ok(outcome) ==> settles(
            k,
            nullfs_probes::recover_run(
                k,
                nullfs,
                old_generation,
                old_object,
                backoff_yields,
                grants,
            ).0,
            FilesystemProvider::Nullfs,
            outcome.0.resources.request_endpoint,
            outcome.1.raw,
        ),
{
    broadcast use {
        group_settles,
        lemma_init_run_backoff_run,
        lemma_nullfs_probes_renew_run,
        lemma_nullfs_probes_replace_run_settles,
    };

}

pub(crate) broadcast proof fn lemma_nullfs_probes_settle_crash_run_settles(
    k: kernel::Transcript,
    nullfs: nullfs_probes::Nullfs,
    old_generation: identity::ProviderGeneration,
    old_object: u64,
    backoff_yields: u32,
    launched: (ipc::CapabilityHandle, ipc::CapabilityHandle, syscall::ProcessId),
    grants: Seq<init_run::BootstrapCapability>,
)
    ensures
        (#[trigger] nullfs_probes::settle_crash_run(k, nullfs, old_generation, old_object, backoff_yields, launched, grants)).1 matches Ok(outcome) ==> settles(
            k,
            nullfs_probes::settle_crash_run(
                k,
                nullfs,
                old_generation,
                old_object,
                backoff_yields,
                launched,
                grants,
            ).0,
            FilesystemProvider::Nullfs,
            outcome.0.resources.request_endpoint,
            outcome.1.raw,
        ),
{
    broadcast use {
        group_settles,
        lemma_nullfs_probes_after_crash_run,
        lemma_nullfs_probes_finish_crash_run,
        lemma_nullfs_probes_recover_run_settles,
    };

}

pub(crate) broadcast proof fn lemma_nullfs_probes_crash_and_recover_run_settles(
    k: kernel::Transcript,
    nullfs: nullfs_probes::Nullfs,
    old_generation: identity::ProviderGeneration,
    old_process: syscall::ProcessId,
    old_object: u64,
    launched: (ipc::CapabilityHandle, ipc::CapabilityHandle, syscall::ProcessId),
    grants: Seq<init_run::BootstrapCapability>,
    hook: ipc::CapabilityHandle,
)
    ensures
        (#[trigger] nullfs_probes::crash_and_recover_run(k, nullfs, old_generation, old_process, old_object, launched, grants, hook)).1 matches Ok(outcome) ==> settles(
            k,
            nullfs_probes::crash_and_recover_run(
                k,
                nullfs,
                old_generation,
                old_process,
                old_object,
                launched,
                grants,
                hook,
            ).0,
            FilesystemProvider::Nullfs,
            outcome.0.resources.request_endpoint,
            outcome.1.raw,
        ),
{
    broadcast use {
        group_settles,
        lemma_contained_service_must_drain_run,
        lemma_nullfs_probes_crash_run,
        lemma_nullfs_probes_settle_crash_run_settles,
    };

}

pub(crate) broadcast proof fn lemma_nullfs_probes_crash_recovery_run_settles(
    k: kernel::Transcript,
    nullfs: nullfs_probes::Nullfs,
    old_generation: identity::ProviderGeneration,
    grants: Seq<init_run::BootstrapCapability>,
    hook: ipc::CapabilityHandle,
)
    ensures
        (#[trigger] nullfs_probes::crash_recovery_run(k, nullfs, old_generation, grants, hook)).1 matches Ok(outcome) ==> settles(
            k,
            nullfs_probes::crash_recovery_run(k, nullfs, old_generation, grants, hook).0,
            FilesystemProvider::Nullfs,
            outcome.0.resources.request_endpoint,
            outcome.1.raw,
        ),
{
    broadcast use {
        group_settles,
        lemma_nullfs_probes_launch_pair_run,
        lemma_nullfs_probes_object_run,
        lemma_probe_message_within_run,
        lemma_nullfs_probes_crash_and_recover_run_settles,
    };

}

pub(crate) broadcast proof fn lemma_nullfs_restart_probe_replaced_run_settles(
    k: kernel::Transcript,
    tested: nullfs_restart_probe::Tested,
    old_generation: identity::ProviderGeneration,
    old_object: u64,
    block: init_run::BootstrapCapability,
)
    ensures
        (#[trigger] nullfs_restart_probe::replaced_run(k, tested, old_generation, old_object, block)).1 matches Ok(outcome) ==> settles(
            k,
            nullfs_restart_probe::replaced_run(k, tested, old_generation, old_object, block).0,
            FilesystemProvider::Nullfs,
            outcome.0.resources.request_endpoint,
            outcome.1.raw,
        ),
{
    broadcast use {
        group_settles,
        lemma_nullfs_probes_renew_run,
        lemma_nullfs_probes_replace_run_settles,
    };

}

pub(crate) broadcast proof fn lemma_nullfs_restart_probe_ordered_start_run_settles(
    k: kernel::Transcript,
    tested: nullfs_restart_probe::Tested,
    generations: service_registry::Generations,
    vfs_endpoint: ipc::CapabilityHandle,
    block: init_run::BootstrapCapability,
    launched: (ipc::CapabilityHandle, ipc::CapabilityHandle, syscall::ProcessId),
    old_object: u64,
    restart_count: u32,
    tool: syscall::ProcessId,
)
    ensures
        (#[trigger] nullfs_restart_probe::ordered_start_run(k, tested, generations, vfs_endpoint, block, launched, old_object, restart_count, tool)).1 matches Ok(outcome) ==> settles(
            k,
            nullfs_restart_probe::ordered_start_run(
                k,
                tested,
                generations,
                vfs_endpoint,
                block,
                launched,
                old_object,
                restart_count,
                tool,
            ).0,
            FilesystemProvider::Nullfs,
            outcome.0.resources.request_endpoint,
            outcome.1.raw,
        ),
{
    broadcast use {
        group_settles,
        lemma_init_run_announce_run,
        lemma_nullfs_restart_probe_drained_run,
        lemma_nullfs_restart_probe_ordered_end_run,
        lemma_nullfs_restart_probe_ordered_settled_run,
        lemma_probe_probe_run,
        lemma_nullfs_restart_probe_replaced_run_settles,
    };

}

pub(crate) broadcast proof fn lemma_nullfs_restart_probe_ordered_exit_run_settles(
    k: kernel::Transcript,
    tested: nullfs_restart_probe::Tested,
    generations: service_registry::Generations,
    vfs_endpoint: ipc::CapabilityHandle,
    block: init_run::BootstrapCapability,
    launched: (ipc::CapabilityHandle, ipc::CapabilityHandle, syscall::ProcessId),
    old_object: u64,
)
    ensures
        (#[trigger] nullfs_restart_probe::ordered_exit_run(k, tested, generations, vfs_endpoint, block, launched, old_object)).1 matches Ok(outcome) ==> settles(
            k,
            nullfs_restart_probe::ordered_exit_run(
                k,
                tested,
                generations,
                vfs_endpoint,
                block,
                launched,
                old_object,
            ).0,
            FilesystemProvider::Nullfs,
            outcome.0.resources.request_endpoint,
            outcome.1.raw,
        ),
{
    broadcast use {
        group_settles,
        lemma_nullfs_restart_probe_ask_run,
        lemma_nullfs_restart_probe_exited_run,
        lemma_nullfs_restart_probe_ordered_start_run_settles,
    };

}

pub(crate) broadcast proof fn lemma_nullfs_restart_probe_ordered_run_settles(
    k: kernel::Transcript,
    tested: nullfs_restart_probe::Tested,
    generations: service_registry::Generations,
    vfs_endpoint: ipc::CapabilityHandle,
    block: init_run::BootstrapCapability,
)
    ensures
        (#[trigger] nullfs_restart_probe::ordered_run(k, tested, generations, vfs_endpoint, block)).1 matches Ok(outcome) ==> settles(
            k,
            nullfs_restart_probe::ordered_run(k, tested, generations, vfs_endpoint, block).0,
            FilesystemProvider::Nullfs,
            outcome.0.resources.request_endpoint,
            outcome.1.raw,
        ),
{
    broadcast use {
        group_settles,
        lemma_nullfs_probes_launch_pair_run,
        lemma_nullfs_probes_object_run,
        lemma_probe_message_run,
        lemma_nullfs_restart_probe_ordered_exit_run_settles,
    };

}

pub(crate) broadcast proof fn lemma_nullfs_restart_probe_forced_start_run_settles(
    k: kernel::Transcript,
    tested: nullfs_restart_probe::Tested,
    generations: service_registry::Generations,
    block: init_run::BootstrapCapability,
    tool: syscall::ProcessId,
)
    ensures
        (#[trigger] nullfs_restart_probe::forced_start_run(k, tested, generations, block, tool)).1 matches Ok(outcome) ==> settles(
            k,
            nullfs_restart_probe::forced_start_run(k, tested, generations, block, tool).0,
            FilesystemProvider::Nullfs,
            outcome.0.resources.request_endpoint,
            outcome.1.raw,
        ),
{
    broadcast use {
        group_settles,
        lemma_nullfs_probes_object_run,
        lemma_nullfs_restart_probe_completed_run,
        lemma_nullfs_restart_probe_forced_end_run,
        lemma_nullfs_restart_probe_replaced_run_settles,
    };

}

pub(crate) broadcast proof fn lemma_nullfs_restart_probe_forced_exit_run_settles(
    k: kernel::Transcript,
    tested: nullfs_restart_probe::Tested,
    generations: service_registry::Generations,
    block: init_run::BootstrapCapability,
    tool: syscall::ProcessId,
)
    ensures
        (#[trigger] nullfs_restart_probe::forced_exit_run(k, tested, generations, block, tool)).1 matches Ok(outcome) ==> settles(
            k,
            nullfs_restart_probe::forced_exit_run(k, tested, generations, block, tool).0,
            FilesystemProvider::Nullfs,
            outcome.0.resources.request_endpoint,
            outcome.1.raw,
        ),
{
    broadcast use {
        group_settles,
        lemma_nullfs_restart_probe_drained_run,
        lemma_nullfs_restart_probe_exited_run,
        lemma_nullfs_restart_probe_forced_start_run_settles,
    };

}

pub(crate) broadcast proof fn lemma_nullfs_restart_probe_forced_run_settles(
    k: kernel::Transcript,
    tested: nullfs_restart_probe::Tested,
    generations: service_registry::Generations,
    block: init_run::BootstrapCapability,
)
    ensures
        (#[trigger] nullfs_restart_probe::forced_run(k, tested, generations, block)).1 matches Ok(outcome) ==> settles(
            k,
            nullfs_restart_probe::forced_run(k, tested, generations, block).0,
            FilesystemProvider::Nullfs,
            outcome.0.resources.request_endpoint,
            outcome.1.raw,
        ),
{
    broadcast use {
        group_settles,
        lemma_nullfs_restart_probe_ask_run,
        lemma_nullfs_restart_probe_stop_run,
        lemma_nullfs_restart_probe_forced_exit_run_settles,
    };

}

pub(crate) broadcast proof fn lemma_boot_nullfs_run_settles(
    k: kernel::Transcript,
    spec: supervisor::ServiceSpec,
    mode: boot_mode::InitBootMode,
)
    ensures
        (#[trigger] boot::nullfs_run(k, spec, mode)).1 matches Ok(outcome) ==> settles(
            k,
            boot::nullfs_run(k, spec, mode).0,
            FilesystemProvider::Nullfs,
            outcome.1.filesystem.resources.request_endpoint,
            outcome.1.filesystem.generation.raw,
        ),
{
    broadcast use {
        group_settles,
        lemma_boot_filesystem_run,
        lemma_boot_nullfs_device_run,
        lemma_probe_probe_run,
        lemma_registered_nullfs_settles,
    };

}

pub(crate) broadcast proof fn lemma_boot_tmpfs_run_settles(
    k: kernel::Transcript,
    spec: supervisor::ServiceSpec,
)
    ensures
        (#[trigger] boot::tmpfs_run(k, spec)).1 matches Ok(outcome) ==> settles(
            k,
            boot::tmpfs_run(k, spec).0,
            FilesystemProvider::Tmpfs,
            outcome.filesystem.resources.request_endpoint,
            outcome.filesystem.generation.raw,
        ),
{
    broadcast use {
        group_settles,
        lemma_boot_filesystem_run,
        lemma_contained_service_create_endpoints_run,
        lemma_probe_probe_run,
        lemma_registered_tmpfs_settles,
    };

}

pub(crate) broadcast proof fn lemma_boot_vfs_run_settles(
    k: kernel::Transcript,
    spec: supervisor::ServiceSpec,
)
    ensures
        (#[trigger] boot::vfs_run(k, spec)).1 matches Ok(outcome) ==> settles(
            k,
            boot::vfs_run(k, spec).0,
            FilesystemProvider::Vfs,
            outcome.filesystem.resources.request_endpoint,
            outcome.filesystem.generation.raw,
        ),
{
    broadcast use {
        group_settles,
        lemma_boot_filesystem_run,
        lemma_contained_service_create_endpoints_run,
        lemma_registered_vfs_settles,
    };

}

/// This generation of a filesystem was not registered.
#[verifier::opaque]
pub open spec fn spares(
    before: Transcript,
    after: Transcript,
    provider: FilesystemProvider,
    generation: u64,
) -> bool {
    avoids(
        before,
        after,
        |op: Op|
            op matches Op::RegisterFilesystem { provider: known, generation: number, .. } && known
                == provider.raw() && number == generation,
    )
}

pub(crate) proof fn lemma_fading_spares(
    before: Transcript,
    after: Transcript,
    provider: FilesystemProvider,
    generation: u64,
)
    requires
        fading(before, after),
    ensures
        spares(before, after, provider, generation),
{
    reveal(fading);
    reveal(spares);
}

pub(crate) proof fn lemma_mild_spares(
    before: Transcript,
    after: Transcript,
    provider: FilesystemProvider,
    generation: u64,
)
    requires
        mild(before, after),
        provider != FilesystemProvider::Nullfs,
    ensures
        spares(before, after, provider, generation),
{
    reveal(mild);
    reveal(spares);
}

pub(crate) proof fn lemma_settling_spares_others(
    before: Transcript,
    after: Transcript,
    settled: FilesystemProvider,
    endpoint: u64,
    number: u64,
    provider: FilesystemProvider,
    generation: u64,
)
    requires
        settles(before, after, settled, endpoint, number),
        settled != provider || number != generation,
    ensures
        spares(before, after, provider, generation),
{
    reveal(settles);
    reveal(spares);
}

pub(crate) proof fn lemma_settled_generation_is_counted(
    before: Transcript,
    after: Transcript,
    provider: FilesystemProvider,
    endpoint: u64,
    generation: u64,
)
    requires
        settles(before, after, provider, endpoint, generation),
    ensures
        generation <= u32::MAX,
{
    reveal(settles);
}

pub(crate) proof fn lemma_spares_goes_on(
    first: Transcript,
    second: Transcript,
    third: Transcript,
    provider: FilesystemProvider,
    generation: u64,
)
    requires
        spares(first, second, provider, generation),
        spares(second, third, provider, generation),
    ensures
        spares(first, third, provider, generation),
{
    reveal(spares);
    assert forall|i: int| 0 <= i < first.asked.len() implies third.asked[i]
        == #[trigger] first.asked[i] by {
        assert(second.asked[i] == first.asked[i]);
    }
    assert forall|i: int| first.asked.len() <= i < second.asked.len() implies (
    #[trigger] third.asked[i]) == second.asked[i] by {
        assert(second.asked[i] == second.asked[i]);
    }
}

/// Whether this generation of a filesystem is known at this endpoint and at no other: the kernel
/// agreed to that, and no registration since an earlier point says otherwise.
pub open spec fn found(
    before: Transcript,
    after: Transcript,
    provider: FilesystemProvider,
    endpoint: u64,
    generation: u64,
) -> bool {
    &&& after.follows(before)
    &&& agreed_since(before, after, registration(provider, endpoint, generation))
    &&& forall|other: u64|
        other != endpoint ==> !after.asked_since(
            before,
            #[trigger] registration(provider, other, generation),
        )
}

pub(crate) proof fn lemma_settled_is_found(
    first: Transcript,
    second: Transcript,
    third: Transcript,
    fourth: Transcript,
    provider: FilesystemProvider,
    endpoint: u64,
    generation: u64,
)
    requires
        spares(first, second, provider, generation),
        settles(second, third, provider, endpoint, generation),
        spares(third, fourth, provider, generation),
    ensures
        found(first, fourth, provider, endpoint, generation),
{
    reveal(spares);
    reveal(settles);
    let op = registration(provider, endpoint, generation);
    assert forall|i: int| 0 <= i < first.asked.len() implies fourth.asked[i]
        == #[trigger] first.asked[i] by {
        assert(second.asked[i] == first.asked[i]);
        assert(third.asked[i] == second.asked[i]);
    }
    assert forall|i: int| first.asked.len() <= i < second.asked.len() implies (
    #[trigger] fourth.asked[i]) == second.asked[i] by {
        assert(third.asked[i] == second.asked[i]);
    }
    assert forall|i: int| second.asked.len() <= i < third.asked.len() implies (
    #[trigger] fourth.asked[i]) == third.asked[i] by {
        assert(third.asked[i] == third.asked[i]);
    }
    let i = choose|i: int|
        second.asked.len() <= i < third.asked.len() && i < third.replies.len() && (
        #[trigger] third.asked[i]).op == op && platform::decoded(third.replies[i].result) is Ok;
    assert(fourth.asked[i].op == op);
}

pub(crate) proof fn lemma_found_goes_on(
    first: Transcript,
    second: Transcript,
    third: Transcript,
    provider: FilesystemProvider,
    endpoint: u64,
    generation: u64,
)
    requires
        found(first, second, provider, endpoint, generation),
        fading(second, third),
    ensures
        found(first, third, provider, endpoint, generation),
{
    reveal(fading);
    let op = registration(provider, endpoint, generation);
    assert forall|i: int| 0 <= i < first.asked.len() implies third.asked[i]
        == #[trigger] first.asked[i] by {
        assert(second.asked[i] == first.asked[i]);
    }
    let i = choose|i: int|
        first.asked.len() <= i < second.asked.len() && i < second.replies.len() && (
        #[trigger] second.asked[i]).op == op && platform::decoded(second.replies[i].result) is Ok;
    assert(third.asked[i] == second.asked[i]);
    assert forall|other: u64| other != endpoint implies !third.asked_since(
        first,
        #[trigger] registration(provider, other, generation),
    ) by {
        let wrong = registration(provider, other, generation);
        if third.asked_since(first, wrong) {
            let j = choose|j: int|
                first.asked.len() <= j < third.asked.len() && (#[trigger] third.asked[j]).op
                    == wrong;
            if j < second.asked.len() {
                assert(third.asked[j] == second.asked[j]);
                assert(second.asked_since(first, wrong));
            }
        }
    }
}

/// No filesystem other than NullFS was taken away.
#[verifier::opaque]
pub open spec fn keeps(before: Transcript, after: Transcript) -> bool {
    avoids(before, after, |op: Op| takes_away(op))
}

pub(crate) broadcast proof fn lemma_keeps_goes_on(
    first: Transcript,
    second: Transcript,
    third: Transcript,
)
    requires
        #[trigger] keeps(first, second),
        #[trigger] keeps(second, third),
    ensures
        keeps(first, third),
{
    reveal(keeps);
    assert forall|i: int| 0 <= i < first.asked.len() implies third.asked[i]
        == #[trigger] first.asked[i] by {
        assert(second.asked[i] == first.asked[i]);
    }
    assert forall|i: int| first.asked.len() <= i < second.asked.len() implies (
    #[trigger] third.asked[i]) == second.asked[i] by {
        assert(second.asked[i] == second.asked[i]);
    }
}

pub(crate) broadcast proof fn lemma_mild_keeps(before: Transcript, after: Transcript)
    requires
        #[trigger] mild(before, after),
    ensures
        keeps(before, after),
{
    reveal(mild);
    reveal(keeps);
}

pub(crate) broadcast group group_keeps {
    lemma_keeps_goes_on,
    lemma_mild_keeps,
}

pub(crate) proof fn lemma_settling_keeps(
    before: Transcript,
    after: Transcript,
    provider: FilesystemProvider,
    endpoint: u64,
    generation: u64,
)
    requires
        settles(before, after, provider, endpoint, generation),
    ensures
        keeps(before, after),
{
    reveal(settles);
    reveal(keeps);
}

/// Something that was done by one call.
pub ghost enum Deed {
    /// The kernel agreed to this.
    Called { op: Op },
    /// The kernel answered this.
    Answered { op: Op, result: Result<u64, ipc::Error> },
    /// A process was started with this command.
    Spawned { command: Seq<u8>, process_id: u64 },
    /// A message came in from a process, without a capability.
    Heard { endpoint: u64, process_id: u64, message: Seq<u8> },
    /// A message went out, without a capability.
    Sent { endpoint: u64, message: Seq<u8> },
}

/// Whether the call at this point of the conversation did something.
pub open spec fn done_at(k: Transcript, i: int, deed: Deed) -> bool {
    &&& 0 <= i < k.asked.len()
    &&& i < k.replies.len()
    &&& match deed {
        Deed::Called { op } => k.asked[i].op == op && ipc::decoded(k.replies[i].result) is Ok,
        Deed::Answered { op, result } => {
            &&& k.asked[i].op == op
            &&& ipc::decoded(k.replies[i].result) == result
        },
        Deed::Spawned { command, process_id } => {
            &&& k.asked[i].op is Spawn
            &&& k.asked[i].bytes == command
            &&& ipc::decoded(k.replies[i].result) == Ok::<u64, ipc::Error>(process_id)
        },
        Deed::Heard { endpoint, process_id, message } => {
            &&& k.asked[i].op matches Op::TryReceive { endpoint: asked, .. } && asked == endpoint
            &&& ipc::decoded(k.replies[i].result) is Ok
            &&& k.replies[i].bytes == message
            &&& k.replies[i].words[0] == process_id
            &&& k.replies[i].words[2] == 0
        },
        Deed::Sent { endpoint, message } => {
            &&& k.asked[i].op == Op::Send { endpoint, handle: 0, rights: 0 }
            &&& k.asked[i].bytes == message
            &&& ipc::decoded(k.replies[i].result) is Ok
        },
    }
}

/// Something was done after an earlier point.
#[verifier::opaque]
pub open spec fn did(before: Transcript, after: Transcript, deed: Deed) -> bool {
    &&& after.follows(before)
    &&& exists|i: int| before.asked.len() <= i && #[trigger] done_at(after, i, deed)
}

pub(crate) broadcast proof fn lemma_did_later(
    first: Transcript,
    second: Transcript,
    third: Transcript,
    deed: Deed,
)
    requires
        #[trigger] mild(first, second),
        #[trigger] did(second, third, deed),
    ensures
        did(first, third, deed),
{
    reveal(mild);
    reveal(did);
    assert forall|i: int| 0 <= i < first.asked.len() implies third.asked[i]
        == #[trigger] first.asked[i] by {
        assert(second.asked[i] == first.asked[i]);
    }
}

pub(crate) broadcast proof fn lemma_did_before(
    first: Transcript,
    second: Transcript,
    third: Transcript,
    deed: Deed,
)
    requires
        #[trigger] did(first, second, deed),
        #[trigger] mild(second, third),
    ensures
        did(first, third, deed),
{
    reveal(mild);
    reveal(did);
    assert forall|i: int| 0 <= i < first.asked.len() implies third.asked[i]
        == #[trigger] first.asked[i] by {
        assert(second.asked[i] == first.asked[i]);
    }
    let i = choose|i: int| first.asked.len() <= i && #[trigger] done_at(second, i, deed);
    assert(third.asked[i] == second.asked[i]);
    assert(done_at(third, i, deed));
}

pub(crate) broadcast group group_did {
    group_mild,
    lemma_did_later,
    lemma_did_before,
}

/// A call that the kernel agreed to was made.
pub(crate) proof fn lemma_called(k: Transcript, op: Op, bytes: Seq<u8>, attached: Seq<Attachment>)
    requires
        k.reply() is Some,
        ipc::decoded(k.reply()->Some_0.result) is Ok,
    ensures
        did(k, k.ask_with(op, bytes, attached), Deed::Called { op }),
{
    reveal(did);
    assert(done_at(k.ask_with(op, bytes, attached), k.asked.len() as int, Deed::Called { op }));
}

/// A call that was answered was made.
pub(crate) proof fn lemma_answered(k: Transcript, op: Op, bytes: Seq<u8>, attached: Seq<Attachment>)
    requires
        k.reply() is Some,
    ensures
        did(
            k,
            k.ask_with(op, bytes, attached),
            Deed::Answered { op, result: ipc::decoded(k.reply()->Some_0.result) },
        ),
{
    reveal(did);
    assert(done_at(
        k.ask_with(op, bytes, attached),
        k.asked.len() as int,
        Deed::Answered { op, result: ipc::decoded(k.reply()->Some_0.result) },
    ));
}

pub(crate) proof fn lemma_spawned(k: Transcript, foreground: bool, barrier: u64, command: Seq<u8>)
    requires
        k.reply() is Some,
        ipc::decoded(k.reply()->Some_0.result) is Ok,
    ensures
        did(
            k,
            k.ask(Op::Spawn { foreground, barrier }, command),
            Deed::Spawned {
                command,
                process_id: ipc::decoded(k.reply()->Some_0.result)->Ok_0,
            },
        ),
{
    reveal(did);
    assert(done_at(
        k.ask(Op::Spawn { foreground, barrier }, command),
        k.asked.len() as int,
        Deed::Spawned { command, process_id: ipc::decoded(k.reply()->Some_0.result)->Ok_0 },
    ));
}

pub(crate) proof fn lemma_heard(k: Transcript, endpoint: u64, capacity: usize)
    requires
        ipc::try_receive_run(k, endpoint, capacity).1 matches Some(Ok(delivery))
            && delivery.message.capability is None,
    ensures
        ipc::try_receive_run(k, endpoint, capacity).1 matches Some(Ok(delivery)) && did(
            k,
            ipc::try_receive_run(k, endpoint, capacity).0,
            Deed::Heard {
                endpoint,
                process_id: delivery.message.sender_process_id,
                message: delivery.payload,
            },
        ),
{
    reveal(did);
    let (after, received) = ipc::try_receive_run(k, endpoint, capacity);
    let delivery = received->Some_0->Ok_0;
    assert(done_at(
        after,
        k.asked.len() as int,
        Deed::Heard {
            endpoint,
            process_id: delivery.message.sender_process_id,
            message: delivery.payload,
        },
    ));
}

/// A message that the kernel took went out.
pub(crate) proof fn lemma_sent(k: Transcript, endpoint: u64, message: Seq<u8>)
    requires
        ipc::send_run(k, endpoint, message, None).1 matches Some(Ok(_)),
    ensures
        did(k, ipc::send_run(k, endpoint, message, None).0, Deed::Sent { endpoint, message }),
{
    reveal(did);
    assert(done_at(
        ipc::send_run(k, endpoint, message, None).0,
        k.asked.len() as int,
        Deed::Sent { endpoint, message },
    ));
}

/// Every handle of a list was granted to a process.
pub open spec fn granted_all(
    before: Transcript,
    after: Transcript,
    process_id: u64,
    grants: Seq<init_run::BootstrapCapability>,
) -> bool {
    forall|i: int|
        0 <= i < grants.len() ==> did(
            before,
            after,
            #[trigger] granting(process_id, grants[i]),
        )
}

/// That a process gets a handle under a number, with these rights.
pub open spec fn granting(process_id: u64, grant: init_run::BootstrapCapability) -> Deed {
    Deed::Called {
        op: Op::GrantChild {
            process_id,
            handle: grant.source_handle,
            rights: grant.rights.raw,
            target: grant.target_handle,
        },
    }
}

pub(crate) proof fn lemma_grants_are_made(
    k: Transcript,
    process_id: u64,
    grants: Seq<init_run::BootstrapCapability>,
    from: int,
)
    requires
        init_run::grant_each_run(k, process_id, grants, from).1 == Ok::<bool, init_run::Halt>(true),
        0 <= from,
    ensures
        forall|i: int|
            from <= i < grants.len() ==> did(
                k,
                init_run::grant_each_run(k, process_id, grants, from).0,
                #[trigger] granting(process_id, grants[i]),
            ),
    decreases grants.len() - from,
{
    broadcast use {group_did, lemma_init_run_grant_each_run, lemma_init_run_grant_run};

    if from < grants.len() {
        let grant = grants[from];
        let (asked, result) = init_run::grant_run(
            k,
            process_id,
            grant.source_handle,
            grant.rights,
            grant.target_handle,
        );
        lemma_called(k, granting(process_id, grant)->Called_op, seq![], seq![]);
        lemma_grants_are_made(asked, process_id, grants, from + 1);
    }
}

} // verus!
