//! Capability-bearing process contexts and typed service bindings.
//!
//! A [`ProcessContext`] holds the capabilities supplied to one runtime role. A capability is
//! selected by its role, checked against the kind of its object, and tightened to the exact
//! rights that its consumer asks for. A [`ServiceBinding`] adds a protocol and a side to an
//! endpoint without turning a protocol's name into authority.

use crate::abi::{ALL_RIGHTS, MAX_IPC_MESSAGE_HANDLES};
use crate::handle;
use crate::handle::{AnyObject, BorrowedHandle, Endpoint, KnownObjectType, ObjectType, OwnedHandle};
use crate::ipc;
use crate::ipc::{ObjectKind, Rights};
use crate::kernel;
use crate::kernel::{Kernel, Op};
pub use crate::protocol::{
    validate_message_shape, validate_protocol, ConformanceError, ProtocolDescriptor,
    ServiceProtocol,
};
use crate::protocol;
use crate::sealed::Sealed;
use crate::slots::empty_slots;
pub use crate::startup_record::{
    CapabilityRole, StartupError, StartupMessage, StartupResource, StartupRuntimeRole,
    STARTUP_VERSION,
};
use crate::startup_record;
use core::marker::PhantomData;
use vstd::prelude::*;

verus! {

/// The role of a process, as a type.
pub trait RuntimeRole: Sealed {
    /// The name of the role, for contracts.
    spec fn name_of() -> Seq<char>;

    /// The role on the wire, for contracts.
    spec fn startup_role_of() -> StartupRuntimeRole;

    fn name() -> (name: &'static str)
        ensures
            name@ == Self::name_of(),
    ;

    fn startup_role() -> (role: StartupRuntimeRole)
        ensures
            role == Self::startup_role_of(),
    ;
}

/// An application.
#[derive(Debug)]
pub enum ApplicationProcess {
    Marker,
}

/// A system service.
#[derive(Debug)]
pub enum ServiceProcess {
    Marker,
}

/// A restricted driver.
#[derive(Debug)]
pub enum DriverProcess {
    Marker,
}

/// An administrative or recovery tool.
#[derive(Debug)]
pub enum ToolProcess {
    Marker,
}

impl Sealed for ApplicationProcess {

}

impl Sealed for ServiceProcess {

}

impl Sealed for DriverProcess {

}

impl Sealed for ToolProcess {

}

impl RuntimeRole for ApplicationProcess {
    open spec fn name_of() -> Seq<char> {
        "application"@
    }

    open spec fn startup_role_of() -> StartupRuntimeRole {
        StartupRuntimeRole::Application
    }

    fn name() -> &'static str {
        "application"
    }

    fn startup_role() -> StartupRuntimeRole {
        StartupRuntimeRole::Application
    }
}

impl RuntimeRole for ServiceProcess {
    open spec fn name_of() -> Seq<char> {
        "service"@
    }

    open spec fn startup_role_of() -> StartupRuntimeRole {
        StartupRuntimeRole::Service
    }

    fn name() -> &'static str {
        "service"
    }

    fn startup_role() -> StartupRuntimeRole {
        StartupRuntimeRole::Service
    }
}

impl RuntimeRole for DriverProcess {
    open spec fn name_of() -> Seq<char> {
        "driver"@
    }

    open spec fn startup_role_of() -> StartupRuntimeRole {
        StartupRuntimeRole::Driver
    }

    fn name() -> &'static str {
        "driver"
    }

    fn startup_role() -> StartupRuntimeRole {
        StartupRuntimeRole::Driver
    }
}

impl RuntimeRole for ToolProcess {
    open spec fn name_of() -> Seq<char> {
        "tool"@
    }

    open spec fn startup_role_of() -> StartupRuntimeRole {
        StartupRuntimeRole::Tool
    }

    fn name() -> &'static str {
        "tool"
    }

    fn startup_role() -> StartupRuntimeRole {
        StartupRuntimeRole::Tool
    }
}

/// What a receiver accepts for one role.
#[derive(Debug, Clone, Copy, PartialEq, Eq, Structural)]
pub struct StartupCapabilityPolicy {
    pub role: CapabilityRole,
    pub kind: ObjectKind,
    pub minimum_rights: Rights,
    pub maximum_rights: Rights,
    pub required: bool,
}

/// Slots of handles as the contracts see them: the number of each handle that is there.
pub open spec fn handle_slots(handles: Seq<Option<OwnedHandle<AnyObject>>>) -> Seq<
    Option<Option<u64>>,
> {
    Seq::new(
        handles.len(),
        |i: int|
            match handles[i] {
                Some(handle) => Some(handle@),
                None => None,
            },
    )
}

/// A start that was rejected, with every handle that is still there.
#[derive(Debug)]
pub struct StartupContextError<const N: usize> {
    error: StartupError,
    handles: [Option<OwnedHandle<AnyObject>>; N],
}

impl<const N: usize> StartupContextError<N> {
    pub closed spec fn error_of(self) -> StartupError {
        self.error
    }

    pub closed spec fn handles_of(self) -> [Option<OwnedHandle<AnyObject>>; N] {
        self.handles
    }

    fn new(handles: [Option<OwnedHandle<AnyObject>>; N], error: StartupError) -> (failure: Self)
        ensures
            failure.error_of() == error,
            failure.handles_of() == handles,
    {
        Self { error, handles }
    }

    pub fn error(&self) -> (error: StartupError)
        ensures
            error == self.error_of(),
    {
        self.error
    }

    pub fn into_handles(self) -> (handles: [Option<OwnedHandle<AnyObject>>; N])
        ensures
            handles == self.handles_of(),
    {
        self.handles
    }

    pub fn into_parts(self) -> (parts: ([Option<OwnedHandle<AnyObject>>; N], StartupError))
        ensures
            parts == (self.handles_of(), self.error_of()),
    {
        (self.handles, self.error)
    }
}

/// A capability that waits to be claimed.
#[derive(Debug)]
pub struct ContextCapability {
    role: CapabilityRole,
    handle: OwnedHandle<AnyObject>,
}

impl View for ContextCapability {
    type V = (CapabilityRole, Option<u64>);

    closed spec fn view(&self) -> (CapabilityRole, Option<u64>) {
        (self.role, self.handle@)
    }
}

impl ContextCapability {
    pub fn new<T: ObjectType>(role: CapabilityRole, handle: OwnedHandle<T>) -> (capability: Self)
        ensures
            capability@ == (role, handle@),
    {
        Self { role, handle: handle.erase() }
    }

    pub fn role(&self) -> (role: CapabilityRole)
        ensures
            role == self@.0,
    {
        self.role
    }

    pub fn handle(&self) -> (handle: &OwnedHandle<AnyObject>)
        ensures
            handle@ == self@.1,
    {
        &self.handle
    }

    pub fn into_handle(self) -> (handle: OwnedHandle<AnyObject>)
        ensures
            handle@ == self@.1,
    {
        self.handle
    }
}

/// Why a capability could not be claimed.
#[derive(Debug, Clone, Copy, PartialEq, Eq, Structural)]
pub enum ContextError {
    DuplicateRole(CapabilityRole),
    MissingRole(CapabilityRole),
    WrongObjectKind(CapabilityRole),
    InsufficientRights(CapabilityRole),
    Kernel(CapabilityRole, ipc::Error),
    InvalidProtocol(ConformanceError),
}

/// A slot of a context as the contracts see it: a role and the number of its handle.
pub type ContextSlot = Option<(CapabilityRole, Option<u64>)>;

/// Slots of capabilities as the contracts see them.
pub open spec fn context_slots(capabilities: Seq<Option<ContextCapability>>) -> Seq<ContextSlot> {
    Seq::new(
        capabilities.len(),
        |i: int|
            match capabilities[i] {
                Some(capability) => Some(capability@),
                None => None,
            },
    )
}

/// The first slot at or after `from` that holds a role.
pub open spec fn slot_of(slots: Seq<ContextSlot>, role: CapabilityRole, from: int) -> Option<int>
    decreases slots.len() - from,
{
    if from >= slots.len() {
        None
    } else if slots[from] is Some && slots[from]->Some_0.0 == role {
        Some(from)
    } else {
        slot_of(slots, role, from + 1)
    }
}

/// Whether a role is held before slot `end`.
pub open spec fn held_before(slots: Seq<ContextSlot>, role: CapabilityRole, end: int) -> bool {
    exists|i: int|
        0 <= i < end && (#[trigger] slots[i]) is Some && slots[i]->Some_0.0 == role
}

/// The first role, at or after slot `from`, that an earlier slot holds too.
pub open spec fn ambiguous_role(slots: Seq<ContextSlot>, from: int) -> Option<CapabilityRole>
    decreases slots.len() - from,
{
    if from >= slots.len() {
        None
    } else if slots[from] is Some && held_before(slots, slots[from]->Some_0.0, from) {
        Some(slots[from]->Some_0.0)
    } else {
        ambiguous_role(slots, from + 1)
    }
}

/// The rights that an object of a kind can have at all.
#[verifier::allow_in_spec]
pub fn rights_for_kind(kind: ObjectKind) -> Rights
    returns
        (match kind {
            ObjectKind::Endpoint => Rights::endpoint(),
            ObjectKind::Notification => Rights::notification(),
            ObjectKind::SharedMemory => Rights::shared_memory(),
            ObjectKind::KernelEarlyLogReader => Rights::kernel_early_log_reader(),
            ObjectKind::Job => Rights::job(),
            ObjectKind::WaitSet => Rights::wait_set(),
            ObjectKind::EventPort => Rights::event_port(),
            ObjectKind::Timer => Rights::timer(),
            ObjectKind::Event => Rights::event(),
        }),
{
    match kind {
        ObjectKind::Endpoint => Rights::endpoint(),
        ObjectKind::Notification => Rights::notification(),
        ObjectKind::SharedMemory => Rights::shared_memory(),
        ObjectKind::KernelEarlyLogReader => Rights::kernel_early_log_reader(),
        ObjectKind::Job => Rights::job(),
        ObjectKind::WaitSet => Rights::wait_set(),
        ObjectKind::EventPort => Rights::event_port(),
        ObjectKind::Timer => Rights::timer(),
        ObjectKind::Event => Rights::event(),
    }
}

/// Whether a policy names a role before entry `end`.
pub open spec fn policy_before(
    policy: Seq<StartupCapabilityPolicy>,
    role: CapabilityRole,
    end: int,
) -> bool {
    exists|i: int| 0 <= i < end && (#[trigger] policy[i]).role == role
}

/// Whether an entry contradicts itself or an earlier one.
pub open spec fn entry_invalid(policy: Seq<StartupCapabilityPolicy>, i: int) -> bool {
    ||| policy_before(policy, policy[i].role, i)
    ||| !policy[i].maximum_rights.contains(policy[i].minimum_rights)
    ||| !rights_for_kind(policy[i].kind).contains(policy[i].maximum_rights)
}

/// The role of the first invalid entry at or after `from`.
pub open spec fn first_invalid(policy: Seq<StartupCapabilityPolicy>, from: int) -> Option<
    CapabilityRole,
>
    decreases policy.len() - from,
{
    if from >= policy.len() {
        None
    } else if entry_invalid(policy, from) {
        Some(policy[from].role)
    } else {
        first_invalid(policy, from + 1)
    }
}

/// The role for which a policy is invalid.
pub open spec fn policy_fault(policy: Seq<StartupCapabilityPolicy>) -> Option<CapabilityRole> {
    if policy.len() > MAX_IPC_MESSAGE_HANDLES {
        Some(policy[0].role)
    } else {
        first_invalid(policy, 0)
    }
}

fn validate_startup_policy(policy: &[StartupCapabilityPolicy]) -> (result: Result<
    (),
    StartupError,
>)
    ensures
        result == match policy_fault(policy@) {
            Some(role) => Err(StartupError::InvalidPolicy(role)),
            None => Ok(()),
        },
{
    if policy.len() > MAX_IPC_MESSAGE_HANDLES {
        return Err(StartupError::InvalidPolicy(policy[0].role));
    }
    let mut index: usize = 0;
    while index < policy.len()
        invariant
            index <= policy@.len() <= MAX_IPC_MESSAGE_HANDLES,
            policy_fault(policy@) == first_invalid(policy@, index as int),
        decreases policy@.len() - index,
    {
        let candidate = policy[index];
        let mut repeated = false;
        let mut before: usize = 0;
        while before < index
            invariant
                before <= index < policy@.len(),
                repeated == policy_before(policy@, candidate.role, before as int),
            decreases index - before,
        {
            if policy[before].role == candidate.role {
                assert(policy@[before as int].role == candidate.role);
                repeated = true;
            }
            before += 1;
        }
        if repeated || !candidate.maximum_rights.contains(candidate.minimum_rights)
            || !rights_for_kind(candidate.kind).contains(candidate.maximum_rights) {
            return Err(StartupError::InvalidPolicy(candidate.role));
        }
        index += 1;
    }
    Ok(())
}

/// The first policy entry for a role at or after `from`.
pub open spec fn policy_for(
    policy: Seq<StartupCapabilityPolicy>,
    role: CapabilityRole,
    from: int,
) -> Option<StartupCapabilityPolicy>
    decreases policy.len() - from,
{
    if from >= policy.len() {
        None
    } else if policy[from].role == role {
        Some(policy[from])
    } else {
        policy_for(policy, role, from + 1)
    }
}

fn find_policy(policy: &[StartupCapabilityPolicy], role: CapabilityRole) -> (entry: Option<
    StartupCapabilityPolicy,
>)
    ensures
        entry == policy_for(policy@, role, 0),
{
    let mut index: usize = 0;
    while index < policy.len()
        invariant
            index <= policy@.len(),
            policy_for(policy@, role, 0) == policy_for(policy@, role, index as int),
        decreases policy@.len() - index,
    {
        if policy[index].role == role {
            return Some(policy[index]);
        }
        index += 1;
    }
    None
}

/// Whether a role is among the resources.
pub open spec fn supplied(resources: Seq<StartupResource>, role: CapabilityRole) -> bool {
    startup_record::role_before(resources, role, resources.len() as int)
}

/// The first required role at or after entry `from` that no resource supplies.
pub open spec fn missing_role(
    policy: Seq<StartupCapabilityPolicy>,
    resources: Seq<StartupResource>,
    from: int,
) -> Option<CapabilityRole>
    decreases policy.len() - from,
{
    if from >= policy.len() {
        None
    } else if policy[from].required && !supplied(resources, policy[from].role) {
        Some(policy[from].role)
    } else {
        missing_role(policy, resources, from + 1)
    }
}

/// What the capabilities of a start are tightened to: nothing for those that no policy entry
/// knows. The first `tightened.len()` have been looked at.
pub open spec fn inspect_run(
    k: kernel::Transcript,
    resources: Seq<StartupResource>,
    handles: Seq<Option<Option<u64>>>,
    policy: Seq<StartupCapabilityPolicy>,
    tightened: Seq<Option<Rights>>,
) -> (kernel::Transcript, Option<Result<Seq<Option<Rights>>, StartupError>>)
    decreases resources.len() - tightened.len(),
{
    let i = tightened.len() as int;
    if i >= resources.len() {
        (k, Some(Ok(tightened)))
    } else {
        let role = resources[i].role;
        match policy_for(policy, role, 0) {
            None => if resources[i].required {
                (k, Some(Err(StartupError::UnknownRequiredRole(role))))
            } else {
                inspect_run(k, resources, handles, policy, tightened.push(None))
            },
            Some(expected) => {
                let (asked, info) = ipc::info_run(k, handles[i]->Some_0->Some_0);
                match info {
                    None => (asked, None),
                    Some(Err(error)) => (asked, Some(Err(StartupError::Kernel(role, error)))),
                    Some(Ok(info)) => if info.kind != expected.kind {
                        (asked, Some(Err(StartupError::WrongObjectKind(role))))
                    } else if !info.rights.contains(expected.minimum_rights) {
                        (asked, Some(Err(StartupError::InsufficientRights(role))))
                    } else {
                        inspect_run(
                            asked,
                            resources,
                            handles,
                            policy,
                            tightened.push(
                                Rights::from_bits(info.rights.raw & expected.maximum_rights.raw),
                            ),
                        )
                    },
                }
            },
        }
    }
}

/// Replacing handles by tightened ones from slot `i` on.
pub open spec fn tighten_run(
    k: kernel::Transcript,
    resources: Seq<StartupResource>,
    tightened: Seq<Option<Rights>>,
    handles: Seq<Option<Option<u64>>>,
    i: int,
) -> (kernel::Transcript, Seq<Option<Option<u64>>>, Option<Result<(), StartupError>>)
    decreases resources.len() - i,
{
    if i >= resources.len() {
        (k, handles, Some(Ok(())))
    } else {
        match tightened[i] {
            None => tighten_run(k, resources, tightened, handles, i + 1),
            Some(rights) => {
                let role = resources[i].role;
                let raw = handles[i]->Some_0->Some_0;
                let (asked, info) = ipc::info_run(k, raw);
                match info {
                    None => (asked, handles, None),
                    Some(Err(error)) => (
                        asked,
                        handles,
                        Some(Err(StartupError::Kernel(role, error))),
                    ),
                    Some(Ok(info)) => if info.rights == rights {
                        tighten_run(asked, resources, tightened, handles, i + 1)
                    } else {
                        let (replaced, value) = ipc::value_run(
                            asked,
                            Op::Replace { handle: raw, rights: rights.raw },
                        );
                        match value {
                            None => (replaced, handles, None),
                            Some(Err(error)) => (
                                replaced,
                                handles,
                                Some(Err(StartupError::Kernel(role, error))),
                            ),
                            Some(Ok(new)) => if new == 0 {
                                (
                                    replaced,
                                    handles.update(i, Some(None)),
                                    Some(Err(StartupError::Kernel(role, ipc::Error::io()))),
                                )
                            } else {
                                tighten_run(
                                    replaced,
                                    resources,
                                    tightened,
                                    handles.update(i, Some(Some(new))),
                                    i + 1,
                                )
                            },
                        }
                    },
                }
            },
        }
    }
}

/// Filling the slots of a context: a capability without a policy entry is closed.
pub open spec fn settle_run(
    k: kernel::Transcript,
    resources: Seq<StartupResource>,
    tightened: Seq<Option<Rights>>,
    handles: Seq<Option<Option<u64>>>,
    settled: Seq<ContextSlot>,
) -> (kernel::Transcript, Option<Seq<ContextSlot>>)
    decreases resources.len() - settled.len(),
{
    let i = settled.len() as int;
    if i >= resources.len() {
        (k, Some(settled))
    } else if tightened[i] is None {
        let (closed, done) = handle::discard_run(k, handles[i]->Some_0);
        match done {
            None => (closed, None),
            Some(_) => settle_run(closed, resources, tightened, handles, settled.push(None)),
        }
    } else {
        settle_run(
            k,
            resources,
            tightened,
            handles,
            settled.push(Some((resources[i].role, handles[i]->Some_0))),
        )
    }
}

/// What comes of a process start.
pub ghost enum Adoption {
    Context(Seq<ContextSlot>),
    Rejected(StartupError, Seq<Option<Option<u64>>>),
}

/// The slots of a context of `capacity` slots whose first ones are settled.
pub open spec fn padded(settled: Seq<ContextSlot>, capacity: nat) -> Seq<ContextSlot> {
    Seq::new(
        capacity,
        |i: int|
            if i < settled.len() {
                settled[i]
            } else {
                None
            },
    )
}

/// Adopting the capabilities of a process start, for a process of a role.
pub open spec fn from_startup_run(
    k: kernel::Transcript,
    input: Seq<u8>,
    handles: Seq<Option<Option<u64>>>,
    policy: Seq<StartupCapabilityPolicy>,
    role: StartupRuntimeRole,
) -> (kernel::Transcript, Option<Adoption>) {
    match startup_record::parse_startup(input, handles.len() as int) {
        Err(error) => (k, Some(Adoption::Rejected(error, handles))),
        Ok(plan) => if plan.runtime_role != role {
            (k, Some(Adoption::Rejected(StartupError::RuntimeRoleMismatch, handles)))
        } else if !startup_record::packed(handles, plan.resources.len() as int) {
            (k, Some(Adoption::Rejected(StartupError::MalformedMessage, handles)))
        } else {
            match policy_fault(policy) {
                Some(fault) => (
                    k,
                    Some(Adoption::Rejected(StartupError::InvalidPolicy(fault), handles)),
                ),
                None => {
                    let (inspected, outcome) = inspect_run(
                        k,
                        plan.resources,
                        handles,
                        policy,
                        seq![],
                    );
                    match outcome {
                        None => (inspected, None),
                        Some(Err(error)) => (inspected, Some(Adoption::Rejected(error, handles))),
                        Some(Ok(tightened)) => admit_run(
                            inspected,
                            plan.resources,
                            handles,
                            policy,
                            tightened,
                        ),
                    }
                },
            }
        },
    }
}

/// The rest of adopting, once every capability has been looked at.
pub open spec fn admit_run(
    k: kernel::Transcript,
    resources: Seq<StartupResource>,
    handles: Seq<Option<Option<u64>>>,
    policy: Seq<StartupCapabilityPolicy>,
    tightened: Seq<Option<Rights>>,
) -> (kernel::Transcript, Option<Adoption>) {
    match missing_role(policy, resources, 0) {
        Some(missing) => (
            k,
            Some(Adoption::Rejected(StartupError::MissingRequiredRole(missing), handles)),
        ),
        None => {
            let (replaced, after, outcome) = tighten_run(k, resources, tightened, handles, 0);
            match outcome {
                None => (replaced, None),
                Some(Err(error)) => (replaced, Some(Adoption::Rejected(error, after))),
                Some(Ok(_)) => {
                    let (settled, slots) = settle_run(
                        replaced,
                        resources,
                        tightened,
                        after,
                        seq![],
                    );
                    match slots {
                        None => (settled, None),
                        Some(slots) => (
                            settled,
                            Some(Adoption::Context(padded(slots, handles.len()))),
                        ),
                    }
                },
            }
        },
    }
}

/// Whether the first `count` slots hold live handles.
pub open spec fn live(handles: Seq<Option<Option<u64>>>, count: int) -> bool {
    forall|i: int|
        0 <= i < count ==> (#[trigger] handles[i]) is Some && handles[i]->Some_0 is Some
}

/// Whether every handle that is there is live.
pub open spec fn all_live(handles: Seq<Option<Option<u64>>>) -> bool {
    forall|i: int|
        0 <= i < handles.len() && (#[trigger] handles[i]) is Some ==> handles[i]->Some_0 is Some
}

/// What inspected rights are to the contracts.
pub open spec fn rights_view(result: Option<Result<Vec<Option<Rights>>, StartupError>>) -> Option<
    Result<Seq<Option<Rights>>, StartupError>,
> {
    match result {
        None => None,
        Some(Ok(rights)) => Some(Ok(rights@)),
        Some(Err(error)) => Some(Err(error)),
    }
}

fn inspect<const N: usize>(
    k: &mut Kernel,
    resources: &[Option<StartupResource>],
    handles: &[Option<OwnedHandle<AnyObject>>; N],
    policy: &[StartupCapabilityPolicy],
    Ghost(plan): Ghost<Seq<StartupResource>>,
) -> (result: Option<Result<Vec<Option<Rights>>, StartupError>>)
    requires
        resources@ == plan.map_values(|resource: StartupResource| Some(resource)),
        plan.len() <= N,
        live(handle_slots(handles@), plan.len() as int),
    ensures
        (final(k)@, rights_view(result)) == inspect_run(
            old(k)@,
            plan,
            handle_slots(handles@),
            policy@,
            seq![],
        ),
        result matches Some(Ok(rights)) ==> rights@.len() == plan.len(),
{
    let mut tightened: Vec<Option<Rights>> = Vec::new();
    assert(tightened@ =~= seq![]);
    let mut index: usize = 0;
    while index < resources.len()
        invariant
            resources@ == plan.map_values(|resource: StartupResource| Some(resource)),
            plan.len() <= N,
            live(handle_slots(handles@), plan.len() as int),
            index == tightened@.len(),
            index <= plan.len(),
            inspect_run(old(k)@, plan, handle_slots(handles@), policy@, seq![]) == inspect_run(
                k@,
                plan,
                handle_slots(handles@),
                policy@,
                tightened@,
            ),
        decreases plan.len() - index,
    {
        assert(resources@[index as int] == Some(plan[index as int]));
        assert(handle_slots(handles@)[index as int] is Some);
        if let Some(resource) = resources[index] {
            match find_policy(policy, resource.role) {
                None => {
                    if resource.required {
                        return Some(Err(StartupError::UnknownRequiredRole(resource.role)));
                    }
                    tightened.push(None);
                },
                Some(expected) => {
                    if let Some(handle) = &handles[index] {
                        let info = match handle.info(k)? {
                            Ok(info) => info,
                            Err(error) => {
                                return Some(Err(StartupError::Kernel(resource.role, error)));
                            },
                        };
                        if info.kind != expected.kind {
                            return Some(Err(StartupError::WrongObjectKind(resource.role)));
                        }
                        if !info.rights.contains(expected.minimum_rights) {
                            return Some(Err(StartupError::InsufficientRights(resource.role)));
                        }
                        tightened.push(
                            Rights::from_bits(info.rights.bits() & expected.maximum_rights.bits()),
                        );
                    }
                },
            }
        }
        index += 1;
    }
    Some(Ok(tightened))
}

fn find_missing(
    policy: &[StartupCapabilityPolicy],
    resources: &[Option<StartupResource>],
    Ghost(plan): Ghost<Seq<StartupResource>>,
) -> (missing: Option<CapabilityRole>)
    requires
        resources@ == plan.map_values(|resource: StartupResource| Some(resource)),
    ensures
        missing == missing_role(policy@, plan, 0),
{
    let mut index: usize = 0;
    while index < policy.len()
        invariant
            index <= policy@.len(),
            resources@ == plan.map_values(|resource: StartupResource| Some(resource)),
            missing_role(policy@, plan, 0) == missing_role(policy@, plan, index as int),
        decreases policy@.len() - index,
    {
        let expected = policy[index];
        if expected.required {
            let mut found = false;
            let mut position: usize = 0;
            while position < resources.len()
                invariant
                    position <= resources@.len(),
                    resources@ == plan.map_values(|resource: StartupResource| Some(resource)),
                    found == startup_record::role_before(plan, expected.role, position as int),
                decreases resources@.len() - position,
            {
                assert(resources@[position as int] == Some(plan[position as int]));
                if let Some(resource) = resources[position] {
                    if resource.role == expected.role {
                        assert(plan[position as int].role == expected.role);
                        found = true;
                    }
                }
                position += 1;
            }
            if !found {
                return Some(expected.role);
            }
        }
        index += 1;
    }
    None
}

fn tighten<const N: usize>(
    k: &mut Kernel,
    resources: &[Option<StartupResource>],
    tightened: &[Option<Rights>],
    handles: &mut [Option<OwnedHandle<AnyObject>>; N],
    Ghost(plan): Ghost<Seq<StartupResource>>,
) -> (result: Option<Result<(), StartupError>>)
    requires
        resources@ == plan.map_values(|resource: StartupResource| Some(resource)),
        plan.len() <= N,
        tightened@.len() == plan.len(),
        live(handle_slots(old(handles)@), plan.len() as int),
    ensures
        ({
            let (replaced, after, outcome) = tighten_run(
                old(k)@,
                plan,
                tightened@,
                handle_slots(old(handles)@),
                0,
            );
            &&& final(k)@ == replaced
            &&& result == outcome
            &&& result is Some ==> handle_slots(final(handles)@) == after
            &&& result matches Some(Ok(_)) ==> live(
                handle_slots(final(handles)@),
                plan.len() as int,
            )
        }),
{
    let ghost before = handle_slots(handles@);
    let mut index: usize = 0;
    while index < resources.len()
        invariant
            resources@ == plan.map_values(|resource: StartupResource| Some(resource)),
            plan.len() <= N,
            tightened@.len() == plan.len(),
            index <= plan.len(),
            live(handle_slots(handles@), plan.len() as int),
            before == handle_slots(old(handles)@),
            tighten_run(old(k)@, plan, tightened@, before, 0) == tighten_run(
                k@,
                plan,
                tightened@,
                handle_slots(handles@),
                index as int,
            ),
        decreases plan.len() - index,
    {
        let ghost slots = handle_slots(handles@);
        assert(resources@[index as int] == Some(plan[index as int]));
        assert(slots[index as int] is Some && slots[index as int]->Some_0 is Some);
        if let Some(resource) = resources[index] {
            if let Some(rights) = tightened[index] {
                if let Some(mut handle) = handles[index].take() {
                    match handle.info(k)? {
                        Err(error) => {
                            handles[index] = Some(handle);
                            assert(handle_slots(handles@) =~= slots);
                            return Some(Err(StartupError::Kernel(resource.role, error)));
                        },
                        Ok(info) => {
                            if info.rights != rights {
                                match handle.replace_rights(k, rights)? {
                                    Err(error) => {
                                        let ghost left = handle@;
                                        handles[index] = Some(handle);
                                        assert(handle_slots(handles@) =~= slots.update(
                                            index as int,
                                            Some(left),
                                        ));
                                        assert(left == slots[index as int]->Some_0 ==>
                                            handle_slots(handles@) =~= slots);
                                        return Some(
                                            Err(StartupError::Kernel(resource.role, error)),
                                        );
                                    },
                                    Ok(()) => {},
                                }
                            }
                            let ghost left = handle@;
                            handles[index] = Some(handle);
                            assert(handle_slots(handles@) =~= slots.update(
                                index as int,
                                Some(left),
                            ));
                            assert(left == slots[index as int]->Some_0 ==> handle_slots(handles@)
                                =~= slots);
                        },
                    }
                }
            }
        }
        index += 1;
    }
    Some(Ok(()))
}

/// Where each capability of a start ended up.
pub open spec fn slots_view<const N: usize>(result: Option<[Option<ContextCapability>; N]>) -> Option<
    Seq<ContextSlot>,
> {
    match result {
        None => None,
        Some(slots) => Some(context_slots(slots@)),
    }
}

fn settle<const N: usize>(
    k: &mut Kernel,
    resources: &[Option<StartupResource>],
    tightened: &[Option<Rights>],
    supplied: [Option<OwnedHandle<AnyObject>>; N],
    Ghost(plan): Ghost<Seq<StartupResource>>,
) -> (result: Option<[Option<ContextCapability>; N]>)
    requires
        resources@ == plan.map_values(|resource: StartupResource| Some(resource)),
        plan.len() <= N,
        tightened@.len() == plan.len(),
        live(handle_slots(supplied@), plan.len() as int),
    ensures
        ({
            let (settled, slots) = settle_run(
                old(k)@,
                plan,
                tightened@,
                handle_slots(supplied@),
                seq![],
            );
            &&& final(k)@ == settled
            &&& slots_view(result) == match slots {
                None => None,
                Some(slots) => Some(padded(slots, N as nat)),
            }
        }),
{
    let mut handles = supplied;
    let ghost before = handle_slots(handles@);
    let mut capabilities: [Option<ContextCapability>; N] = empty_slots();
    let mut index: usize = 0;
    let ghost mut settled: Seq<ContextSlot> = seq![];
    assert(context_slots(capabilities@) =~= padded(settled, N as nat));
    while index < resources.len()
        invariant
            resources@ == plan.map_values(|resource: StartupResource| Some(resource)),
            plan.len() <= N,
            tightened@.len() == plan.len(),
            index <= plan.len(),
            settled.len() == index,
            live(before, plan.len() as int),
            before.len() == N,
            before == handle_slots(supplied@),
            forall|i: int| index <= i < N ==> handle_slots(handles@)[i] == #[trigger] before[i],
            context_slots(capabilities@) == padded(settled, N as nat),
            settle_run(old(k)@, plan, tightened@, before, seq![]) == settle_run(
                k@,
                plan,
                tightened@,
                before,
                settled,
            ),
        decreases plan.len() - index,
    {
        assert(resources@[index as int] == Some(plan[index as int]));
        assert(before[index as int] is Some && before[index as int]->Some_0 is Some);
        if let Some(resource) = resources[index] {
            let ghost slots = handle_slots(handles@);
            let ghost taken = context_slots(capabilities@);
            if let Some(handle) = handles[index].take() {
                if tightened[index].is_none() {
                    handle.discard(k)?;
                    proof {
                        assert(padded(settled.push(None), N as nat) =~= padded(settled, N as nat));
                        settled = settled.push(None);
                    }
                } else {
                    let ghost left = handle@;
                    capabilities[index] = Some(ContextCapability::new(resource.role, handle));
                    proof {
                        let slot: ContextSlot = Some((resource.role, left));
                        assert(context_slots(capabilities@) =~= taken.update(index as int, slot));
                        assert(padded(settled.push(slot), N as nat) =~= padded(
                            settled,
                            N as nat,
                        ).update(index as int, slot));
                        settled = settled.push(slot);
                    }
                }
                assert forall|i: int| index + 1 <= i < N implies handle_slots(handles@)[i]
                    == #[trigger] before[i] by {
                    assert(slots[i] == before[i]);
                }
            }
        }
        index += 1;
    }
    Some(capabilities)
}

/// The capabilities of one process, by role.
#[derive(Debug)]
pub struct ProcessContext<R: RuntimeRole, const N: usize> {
    capabilities: [Option<ContextCapability>; N],
    role: PhantomData<R>,
}

impl<R: RuntimeRole, const N: usize> View for ProcessContext<R, N> {
    type V = Seq<ContextSlot>;

    closed spec fn view(&self) -> Seq<ContextSlot> {
        context_slots(self.capabilities@)
    }
}

/// Whether a start came out as it should.
pub open spec fn adoption_of<R: RuntimeRole, const N: usize>(
    result: Option<Result<ProcessContext<R, N>, StartupContextError<N>>>,
    outcome: Option<Adoption>,
) -> bool {
    match (result, outcome) {
        (None, None) => true,
        (Some(Ok(context)), Some(Adoption::Context(slots))) => context@ == slots,
        (Some(Err(failure)), Some(Adoption::Rejected(error, handles))) => failure.error_of()
            == error && handle_slots(failure.handles_of()@) == handles,
        _ => false,
    }
}

/// Claiming a capability: the slots afterwards and the handle claimed.
pub open spec fn take_run(
    k: kernel::Transcript,
    slots: Seq<ContextSlot>,
    role: CapabilityRole,
    kind: ObjectKind,
    required: Rights,
) -> (kernel::Transcript, Seq<ContextSlot>, Option<Result<u64, ContextError>>) {
    match slot_of(slots, role, 0) {
        None => (k, slots, Some(Err(ContextError::MissingRole(role)))),
        Some(index) => {
            let raw = slots[index]->Some_0.1->Some_0;
            let (cast, info) = ipc::info_run(k, raw);
            match info {
                None => (cast, slots, None),
                Some(Err(error)) => (
                    cast,
                    slots,
                    Some(
                        Err(
                            if error == ipc::Error::invalid_argument() {
                                ContextError::WrongObjectKind(role)
                            } else {
                                ContextError::Kernel(role, error)
                            },
                        ),
                    ),
                ),
                Some(Ok(info)) => if info.kind != kind {
                    (cast, slots, Some(Err(ContextError::WrongObjectKind(role))))
                } else {
                    claim_run(cast, slots, index, raw, role, required)
                },
            }
        },
    }
}

/// Tightening the capability that is being claimed.
pub open spec fn claim_run(
    k: kernel::Transcript,
    slots: Seq<ContextSlot>,
    index: int,
    raw: u64,
    role: CapabilityRole,
    required: Rights,
) -> (kernel::Transcript, Seq<ContextSlot>, Option<Result<u64, ContextError>>) {
    let (asked, info) = ipc::info_run(k, raw);
    match info {
        None => (asked, slots, None),
        Some(Err(error)) => (asked, slots, Some(Err(ContextError::Kernel(role, error)))),
        Some(Ok(info)) => if !info.rights.contains(required) {
            (asked, slots, Some(Err(ContextError::InsufficientRights(role))))
        } else if info.rights == required {
            (asked, slots.update(index, None), Some(Ok(raw)))
        } else {
            let (replaced, value) = ipc::value_run(
                asked,
                Op::Replace { handle: raw, rights: required.raw },
            );
            match value {
                None => (replaced, slots, None),
                Some(Err(error)) => (
                    replaced,
                    slots,
                    Some(Err(ContextError::Kernel(role, error))),
                ),
                Some(Ok(new)) => if new == 0 {
                    (
                        replaced,
                        slots.update(index, Some((role, None))),
                        Some(Err(ContextError::Kernel(role, ipc::Error::io()))),
                    )
                } else {
                    (replaced, slots.update(index, None), Some(Ok(new)))
                },
            }
        },
    }
}

/// Whether a claim came out as it should.
pub open spec fn claimed<T: ObjectType>(
    result: Option<Result<OwnedHandle<T>, ContextError>>,
    outcome: Option<Result<u64, ContextError>>,
) -> bool {
    match (result, outcome) {
        (None, None) => true,
        (Some(Ok(handle)), Some(Ok(raw))) => handle@ == Some(raw),
        (Some(Err(error)), Some(Err(expected))) => error == expected,
        _ => false,
    }
}

impl<R: RuntimeRole, const N: usize> ProcessContext<R, N> {
    /// A context of the given capabilities. No role may occur twice.
    pub fn new(capabilities: [Option<ContextCapability>; N]) -> (result: Result<
        Self,
        ([Option<ContextCapability>; N], ContextError),
    >)
        ensures
            match ambiguous_role(context_slots(capabilities@), 0) {
                None => result matches Ok(context) && context@ == context_slots(capabilities@),
                Some(role) => result matches Err((rejected, error)) && rejected == capabilities
                    && error == ContextError::DuplicateRole(role),
            },
    {
        let ghost slots = context_slots(capabilities@);
        let mut index: usize = 0;
        while index < N
            invariant
                index <= N,
                slots == context_slots(capabilities@),
                ambiguous_role(slots, 0) == ambiguous_role(slots, index as int),
            decreases N - index,
        {
            if let Some(candidate) = &capabilities[index] {
                let role = candidate.role();
                let mut found = false;
                let mut before: usize = 0;
                while before < index
                    invariant
                        before <= index < N,
                        slots == context_slots(capabilities@),
                        found == held_before(slots, role, before as int),
                    decreases index - before,
                {
                    if let Some(current) = &capabilities[before] {
                        if current.role() == role {
                            assert(slots[before as int] is Some);
                            found = true;
                        }
                    }
                    before += 1;
                }
                if found {
                    return Err((capabilities, ContextError::DuplicateRole(role)));
                }
            }
            index += 1;
        }
        Ok(Self { capabilities, role: PhantomData })
    }

    /// Adopts the capabilities attached to one start record.
    ///
    /// The receiver's policy says which objects and rights are accepted, not the sender. A
    /// capability that is optional and unknown is closed. A known one is reduced to the rights
    /// that both the delivery and the policy's ceiling have.
    pub fn from_startup(
        k: &mut Kernel,
        bytes: &[u8],
        handles: [Option<OwnedHandle<AnyObject>>; N],
        policy: &[StartupCapabilityPolicy],
    ) -> (result: Option<Result<Self, StartupContextError<N>>>)
        requires
            all_live(handle_slots(handles@)),
        ensures
            final(k)@ == from_startup_run(
                old(k)@,
                bytes@,
                handle_slots(handles@),
                policy@,
                R::startup_role_of(),
            ).0,
            adoption_of(
                result,
                from_startup_run(
                    old(k)@,
                    bytes@,
                    handle_slots(handles@),
                    policy@,
                    R::startup_role_of(),
                ).1,
            ),
    {
        let message = match StartupMessage::<N>::decode(bytes) {
            Ok(message) => message,
            Err(error) => {
                return Some(Err(StartupContextError::new(handles, error)));
            },
        };
        let ghost slots = handle_slots(handles@);
        let ghost plan = message@.resources;
        if message.runtime_role() != R::startup_role() {
            return Some(
                Err(StartupContextError::new(handles, StartupError::RuntimeRoleMismatch)),
            );
        }
        let count: usize = message.resource_count();
        let mut index: usize = 0;
        let mut is_packed = true;
        while index < N
            invariant
                index <= N,
                slots == handle_slots(handles@),
                is_packed == forall|i: int|
                    0 <= i < index ==> ((#[trigger] slots[i]) is Some <==> i < count),
            decreases N - index,
        {
            if handles[index].is_some() != (index < count) {
                assert(!(slots[index as int] is Some <==> index < count));
                is_packed = false;
            }
            index += 1;
        }
        assert(is_packed == startup_record::packed(slots, count as int));
        if !is_packed {
            return Some(Err(StartupContextError::new(handles, StartupError::MalformedMessage)));
        }
        assert(live(slots, plan.len() as int)) by {
            assert forall|i: int| 0 <= i < plan.len() implies (#[trigger] slots[i]) is Some
                && slots[i]->Some_0 is Some by {
                assert(i < N);
            }
        }
        if let Err(error) = validate_startup_policy(policy) {
            return Some(Err(StartupContextError::new(handles, error)));
        }
        let resources = message.resources();
        let tightened = match inspect(k, resources, &handles, policy, Ghost(plan))? {
            Ok(tightened) => tightened,
            Err(error) => {
                return Some(Err(StartupContextError::new(handles, error)));
            },
        };
        if let Some(role) = find_missing(policy, resources, Ghost(plan)) {
            return Some(
                Err(StartupContextError::new(handles, StartupError::MissingRequiredRole(role))),
            );
        }
        let mut handles = handles;
        if let Err(error) = tighten(
            k,
            resources,
            tightened.as_slice(),
            &mut handles,
            Ghost(plan),
        )? {
            return Some(Err(StartupContextError::new(handles, error)));
        }
        let capabilities = settle(k, resources, tightened.as_slice(), handles, Ghost(plan))?;
        Some(Ok(Self { capabilities, role: PhantomData }))
    }

    pub fn runtime_role(&self) -> (name: &'static str)
        ensures
            name@ == R::name_of(),
    {
        R::name()
    }

    pub fn len(&self) -> (count: usize)
        ensures
            count == startup_record::filled(self@),
    {
        let mut count: usize = 0;
        let mut index: usize = 0;
        while index < N
            invariant
                index <= N,
                count <= index,
                count == startup_record::filled(self@.take(index as int)),
            decreases N - index,
        {
            assert(self@.take(index + 1).drop_last() =~= self@.take(index as int));
            if self.capabilities[index].is_some() {
                count += 1;
            }
            index += 1;
        }
        assert(self@.take(index as int) =~= self@);
        count
    }

    pub fn is_empty(&self) -> (empty: bool)
        ensures
            empty == (startup_record::filled(self@) == 0),
    {
        self.len() == 0
    }

    fn position(&self, role: CapabilityRole) -> (index: Option<usize>)
        ensures
            match index {
                Some(index) => index < N && slot_of(self@, role, 0) == Some(index as int)
                    && self@[index as int] is Some && self@[index as int]->Some_0.0 == role,
                None => slot_of(self@, role, 0) is None,
            },
    {
        let mut index: usize = 0;
        while index < N
            invariant
                index <= N,
                slot_of(self@, role, 0) == slot_of(self@, role, index as int),
            decreases N - index,
        {
            if let Some(capability) = &self.capabilities[index] {
                if capability.role() == role {
                    return Some(index);
                }
            }
            index += 1;
        }
        None
    }

    pub fn contains(&self, role: CapabilityRole) -> (found: bool)
        ensures
            found == (slot_of(self@, role, 0) is Some),
    {
        self.position(role).is_some()
    }

    /// Claims a capability: checks the kind of its object and tightens it to `required_rights`.
    /// A capability that cannot be claimed stays in the context. If the kernel has replaced its
    /// handle without naming the new one, its role stays, and there is no handle left to use.
    pub fn take<T: KnownObjectType>(
        &mut self,
        k: &mut Kernel,
        role: CapabilityRole,
        required_rights: Rights,
    ) -> (result: Option<Result<OwnedHandle<T>, ContextError>>)
        requires
            slot_of(old(self)@, role, 0) matches Some(index) ==> old(self)@[index]->Some_0.1
                is Some,
        ensures
            ({
                let (asked, slots, outcome) = take_run(
                    old(k)@,
                    old(self)@,
                    role,
                    T::kind_of(),
                    required_rights,
                );
                &&& final(k)@ == asked
                &&& claimed(result, outcome)
                &&& result is Some ==> final(self)@ == slots
            }),
    {
        let ghost slots = self@;
        let index: usize = match self.position(role) {
            Some(index) => index,
            None => {
                return Some(Err(ContextError::MissingRole(role)));
            },
        };
        let capability = match self.capabilities[index].take() {
            Some(capability) => capability,
            None => {
                return None;
            },
        };
        let mut handle = match capability.into_handle().try_cast::<T>(k)? {
            Ok(handle) => handle,
            Err((error, handle)) => {
                self.capabilities[index] = Some(ContextCapability::new(role, handle));
                assert(self@ =~= slots);
                return Some(
                    Err(
                        if error == ipc::Error::invalid_argument() {
                            ContextError::WrongObjectKind(role)
                        } else {
                            ContextError::Kernel(role, error)
                        },
                    ),
                );
            },
        };
        let rights = match handle.info(k)? {
            Ok(info) => info.rights,
            Err(error) => {
                self.capabilities[index] = Some(ContextCapability::new(role, handle));
                assert(self@ =~= slots);
                return Some(Err(ContextError::Kernel(role, error)));
            },
        };
        if !rights.contains(required_rights) {
            self.capabilities[index] = Some(ContextCapability::new(role, handle));
            assert(self@ =~= slots);
            return Some(Err(ContextError::InsufficientRights(role)));
        }
        if rights != required_rights {
            if let Err(error) = handle.replace_rights(k, required_rights)? {
                let ghost left = handle@;
                self.capabilities[index] = Some(ContextCapability::new(role, handle));
                assert(self@ =~= slots.update(index as int, Some((role, left))));
                assert(left == slots[index as int]->Some_0.1 ==> self@ =~= slots);
                return Some(Err(ContextError::Kernel(role, error)));
            }
        }
        assert(self@ =~= slots.update(index as int, None));
        Some(Ok(handle))
    }

    pub fn into_capabilities(self) -> (capabilities: [Option<ContextCapability>; N])
        ensures
            context_slots(capabilities@) == self@,
    {
        self.capabilities
    }
}

impl<R: RuntimeRole, const N: usize> Default for ProcessContext<R, N> {
    fn default() -> (context: Self)
        ensures
            context@ == Seq::new(N as nat, |i: int| None::<(CapabilityRole, Option<u64>)>),
    {
        let context = Self { capabilities: empty_slots(), role: PhantomData };
        assert(context@ =~= Seq::new(N as nat, |i: int| None::<(CapabilityRole, Option<u64>)>));
        context
    }
}

/// The client side of a typed endpoint.
#[derive(Debug)]
pub enum Client {
    Marker,
}

/// The server side of a typed endpoint.
#[derive(Debug)]
pub enum Server {
    Marker,
}

impl Sealed for Client {

}

impl Sealed for Server {

}

/// The side of a typed endpoint, as a type.
pub trait BindingSide: Sealed {
    /// Which side this is.
    spec fn is_client() -> bool;

    fn required_rights<P: ServiceProtocol>() -> (rights: Rights)
        ensures
            rights == if Self::is_client() {
                P::CLIENT_RIGHTS
            } else {
                P::SERVER_RIGHTS
            },
    ;
}

impl BindingSide for Client {
    open spec fn is_client() -> bool {
        true
    }

    fn required_rights<P: ServiceProtocol>() -> Rights {
        P::CLIENT_RIGHTS
    }
}

impl BindingSide for Server {
    open spec fn is_client() -> bool {
        false
    }

    fn required_rights<P: ServiceProtocol>() -> Rights {
        P::SERVER_RIGHTS
    }
}

/// The rights that a protocol declares for a side.
pub open spec fn needs<P: ServiceProtocol, S: BindingSide>() -> Rights {
    if S::is_client() {
        P::CLIENT_RIGHTS
    } else {
        P::SERVER_RIGHTS
    }
}

/// An endpoint that could not be bound. It is handed back.
#[derive(Debug)]
pub struct BindError {
    error: BindErrorKind,
    endpoint: OwnedHandle<Endpoint>,
}

/// Why an endpoint could not be bound.
#[derive(Debug, Clone, Copy, PartialEq, Eq, Structural)]
pub enum BindErrorKind {
    InvalidProtocol(ConformanceError),
    InsufficientRights,
    Kernel(ipc::Error),
}

impl BindError {
    pub closed spec fn error_of(self) -> BindErrorKind {
        self.error
    }

    pub closed spec fn endpoint_of(self) -> OwnedHandle<Endpoint> {
        self.endpoint
    }

    fn new(error: BindErrorKind, endpoint: OwnedHandle<Endpoint>) -> (failure: Self)
        ensures
            failure.error_of() == error,
            failure.endpoint_of() == endpoint,
    {
        Self { error, endpoint }
    }

    pub fn error(&self) -> (error: BindErrorKind)
        ensures
            error == self.error_of(),
    {
        self.error
    }

    pub fn into_endpoint(self) -> (endpoint: OwnedHandle<Endpoint>)
        ensures
            endpoint == self.endpoint_of(),
    {
        self.endpoint
    }
}

/// Tightening an endpoint to the rights that its side needs: what becomes of the handle, and the
/// verdict.
pub open spec fn bind_run(
    k: kernel::Transcript,
    endpoint: u64,
    declared: Result<(), ConformanceError>,
    required: Rights,
) -> (kernel::Transcript, Option<(Option<u64>, Result<(), BindErrorKind>)>) {
    match declared {
        Err(error) => (k, Some((Some(endpoint), Err(BindErrorKind::InvalidProtocol(error))))),
        Ok(_) => {
            let (asked, info) = ipc::info_run(k, endpoint);
            match info {
                None => (asked, None),
                Some(Err(error)) => (
                    asked,
                    Some((Some(endpoint), Err(BindErrorKind::Kernel(error)))),
                ),
                Some(Ok(info)) => if !info.rights.contains(required) {
                    (asked, Some((Some(endpoint), Err(BindErrorKind::InsufficientRights))))
                } else if info.rights == required {
                    (asked, Some((Some(endpoint), Ok(()))))
                } else {
                    let (replaced, value) = ipc::value_run(
                        asked,
                        Op::Replace { handle: endpoint, rights: required.raw },
                    );
                    match value {
                        None => (replaced, None),
                        Some(Err(error)) => (
                            replaced,
                            Some((Some(endpoint), Err(BindErrorKind::Kernel(error)))),
                        ),
                        Some(Ok(new)) => if new == 0 {
                            (
                                replaced,
                                Some((None, Err(BindErrorKind::Kernel(ipc::Error::io())))),
                            )
                        } else {
                            (replaced, Some((Some(new), Ok(()))))
                        },
                    }
                },
            }
        },
    }
}

/// Tightens an endpoint to exactly `required`, given the verdict on the protocol's declaration.
/// An endpoint that cannot be bound is handed back.
pub fn bind_endpoint(
    k: &mut Kernel,
    endpoint: OwnedHandle<Endpoint>,
    declared: Result<(), ConformanceError>,
    required: Rights,
) -> (result: Option<Result<OwnedHandle<Endpoint>, BindError>>)
    requires
        endpoint@ is Some,
    ensures
        ({
            let (asked, outcome) = bind_run(old(k)@, endpoint@->Some_0, declared, required);
            &&& final(k)@ == asked
            &&& match (result, outcome) {
                (None, None) => true,
                (Some(Ok(bound)), Some((handle, verdict))) => verdict == Ok::<(), BindErrorKind>(())
                    && bound@ == handle && handle is Some,
                (Some(Err(failure)), Some((handle, verdict))) => verdict == Err::<(), _>(
                    failure.error_of(),
                ) && failure.endpoint_of()@ == handle,
                _ => false,
            }
        }),
{
    if let Err(error) = declared {
        return Some(Err(BindError::new(BindErrorKind::InvalidProtocol(error), endpoint)));
    }
    let mut endpoint = endpoint;
    let rights = match endpoint.info(k)? {
        Ok(info) => info.rights,
        Err(error) => {
            return Some(Err(BindError::new(BindErrorKind::Kernel(error), endpoint)));
        },
    };
    if !rights.contains(required) {
        return Some(Err(BindError::new(BindErrorKind::InsufficientRights, endpoint)));
    }
    if rights != required {
        if let Err(error) = endpoint.replace_rights(k, required)? {
            return Some(Err(BindError::new(BindErrorKind::Kernel(error), endpoint)));
        }
    }
    Some(Ok(endpoint))
}

/// An endpoint that belongs to one protocol and one side of it.
#[derive(Debug)]
pub struct ServiceBinding<P: ServiceProtocol, S: BindingSide> {
    endpoint: OwnedHandle<Endpoint>,
    protocol: PhantomData<(P, S)>,
}

impl<P: ServiceProtocol, S: BindingSide> View for ServiceBinding<P, S> {
    type V = Option<u64>;

    closed spec fn view(&self) -> Option<u64> {
        self.endpoint@
    }
}

impl<P: ServiceProtocol, S: BindingSide> ServiceBinding<P, S> {
    /// Claims the endpoint of a role from a context and binds it. What the protocol declares
    /// decides whether the claim is made, and for which rights.
    pub fn from_context<R: RuntimeRole, const N: usize>(
        k: &mut Kernel,
        context: &mut ProcessContext<R, N>,
        role: CapabilityRole,
    ) -> (result: Option<Result<Self, ContextError>>)
        requires
            slot_of(old(context)@, role, 0) matches Some(index) ==> old(
                context,
            )@[index]->Some_0.1 is Some,
        ensures
            context_binding(
                old(k)@,
                final(k)@,
                old(context)@,
                final(context)@,
                role,
                protocol::declared::<P>(),
                needs::<P, S>(),
                binding_view(result),
            ),
    {
        if let Err(error) = validate_protocol::<P>() {
            return Some(Err(ContextError::InvalidProtocol(error)));
        }
        let endpoint = match context.take::<Endpoint>(k, role, S::required_rights::<P>())? {
            Ok(endpoint) => endpoint,
            Err(error) => {
                return Some(Err(error));
            },
        };
        Some(Ok(Self { endpoint, protocol: PhantomData }))
    }

    /// Binds an endpoint. What the protocol declares decides whether it can be bound, and for
    /// which rights.
    pub fn bind(k: &mut Kernel, endpoint: OwnedHandle<Endpoint>) -> (result: Option<
        Result<Self, BindError>,
    >)
        requires
            endpoint@ is Some,
        ensures
            ({
                let (asked, outcome) = bind_run(
                    old(k)@,
                    endpoint@->Some_0,
                    protocol::declared::<P>(),
                    needs::<P, S>(),
                );
                &&& final(k)@ == asked
                &&& match (result, outcome) {
                    (None, None) => true,
                    (Some(Ok(binding)), Some((handle, verdict))) => verdict == Ok::<
                        (),
                        BindErrorKind,
                    >(()) && binding@ == handle && handle is Some,
                    (Some(Err(failure)), Some((handle, verdict))) => verdict == Err::<(), _>(
                        failure.error_of(),
                    ) && failure.endpoint_of()@ == handle,
                    _ => false,
                }
            }),
    {
        let declared = validate_protocol::<P>();
        let required = S::required_rights::<P>();
        match bind_endpoint(k, endpoint, declared, required)? {
            Ok(endpoint) => Some(Ok(Self { endpoint, protocol: PhantomData })),
            Err(error) => Some(Err(error)),
        }
    }

    pub fn descriptor(&self) -> (descriptor: ProtocolDescriptor)
        ensures
            descriptor == P::contract(),
    {
        P::descriptor()
    }

    pub fn endpoint(&self) -> (endpoint: BorrowedHandle<'_, Endpoint>)
        requires
            self@ is Some,
        ensures
            self@ == Some(endpoint@),
    {
        self.endpoint.borrow()
    }

    pub fn into_endpoint(self) -> (endpoint: OwnedHandle<Endpoint>)
        ensures
            endpoint@ == self@,
    {
        self.endpoint
    }
}

/// What a binding is to the contracts.
pub open spec fn binding_view<P: ServiceProtocol, S: BindingSide>(
    result: Option<Result<ServiceBinding<P, S>, ContextError>>,
) -> Option<Result<Option<u64>, ContextError>> {
    match result {
        None => None,
        Some(Ok(binding)) => Some(Ok(binding@)),
        Some(Err(error)) => Some(Err(error)),
    }
}

/// What binding from a context does, for a verdict on the declaration and the rights it asks for.
pub open spec fn context_binding(
    k: kernel::Transcript,
    after: kernel::Transcript,
    before: Seq<ContextSlot>,
    slots: Seq<ContextSlot>,
    role: CapabilityRole,
    declared: Result<(), ConformanceError>,
    required: Rights,
    result: Option<Result<Option<u64>, ContextError>>,
) -> bool {
    match declared {
        Err(error) => {
            &&& after == k
            &&& slots == before
            &&& result == Some(Err::<Option<u64>, _>(ContextError::InvalidProtocol(error)))
        },
        Ok(_) => {
            let (asked, left, outcome) = take_run(
                k,
                before,
                role,
                ObjectKind::Endpoint,
                required,
            );
            &&& after == asked
            &&& match (result, outcome) {
                (None, None) => true,
                (Some(Ok(endpoint)), Some(Ok(raw))) => endpoint == Some(raw) && slots == left,
                (Some(Err(error)), Some(Err(expected))) => error == expected && slots == left,
                _ => false,
            }
        },
    }
}

/// A claim that fails leaves the context as it was, unless the kernel took the handle away
/// without naming its replacement; a claim that succeeds takes exactly one capability out.
pub proof fn lemma_failed_claim_keeps_the_context(
    k: kernel::Transcript,
    slots: Seq<ContextSlot>,
    role: CapabilityRole,
    kind: ObjectKind,
    required: Rights,
)
    ensures
        ({
            let (_, after, outcome) = take_run(k, slots, role, kind, required);
            match outcome {
                None => after == slots,
                Some(Ok(_)) => slot_of(slots, role, 0) matches Some(index) && after
                    == slots.update(index, None),
                Some(Err(error)) => after == slots || {
                    &&& error == ContextError::Kernel(role, ipc::Error::io())
                    &&& slot_of(slots, role, 0) matches Some(index) && after == slots.update(
                        index,
                        Some((role, None)),
                    )
                },
            }
        }),
{
}

proof fn lemma_policy_for(
    policy: Seq<StartupCapabilityPolicy>,
    role: CapabilityRole,
    from: int,
)
    requires
        0 <= from,
    ensures
        policy_for(policy, role, from) matches Some(entry) ==> entry.role == role
            && policy.contains(entry),
    decreases policy.len() - from,
{
    if from < policy.len() && policy[from].role != role {
        lemma_policy_for(policy, role, from + 1);
    }
}

/// What inspecting promises of the entries that it lets through.
proof fn lemma_inspected(
    k: kernel::Transcript,
    resources: Seq<StartupResource>,
    handles: Seq<Option<Option<u64>>>,
    policy: Seq<StartupCapabilityPolicy>,
    tightened: Seq<Option<Rights>>,
)
    requires
        tightened.len() <= resources.len(),
        forall|i: int|
            0 <= i < tightened.len() && (#[trigger] tightened[i]) is Some ==> policy_for(
                policy,
                resources[i].role,
                0,
            ) is Some,
    ensures
        inspect_run(k, resources, handles, policy, tightened).1 matches Some(Ok(rights)) ==> {
            &&& rights.len() == resources.len()
            &&& forall|i: int|
                0 <= i < rights.len() && (#[trigger] rights[i]) is Some ==> policy_for(
                    policy,
                    resources[i].role,
                    0,
                ) is Some
        },
    decreases resources.len() - tightened.len(),
{
    let i = tightened.len() as int;
    if i < resources.len() {
        match policy_for(policy, resources[i].role, 0) {
            None => {
                lemma_inspected(k, resources, handles, policy, tightened.push(None));
            },
            Some(expected) => {
                let (asked, info) = ipc::info_run(k, handles[i]->Some_0->Some_0);
                if let Some(Ok(info)) = info {
                    let rights = Rights::from_bits(info.rights.raw & expected.maximum_rights.raw);
                    lemma_inspected(asked, resources, handles, policy, tightened.push(rights));
                }
            },
        }
    }
}

proof fn lemma_settled(
    k: kernel::Transcript,
    resources: Seq<StartupResource>,
    tightened: Seq<Option<Rights>>,
    handles: Seq<Option<Option<u64>>>,
    settled: Seq<ContextSlot>,
)
    requires
        settled.len() <= resources.len(),
        tightened.len() == resources.len(),
        forall|i: int|
            0 <= i < settled.len() && (#[trigger] settled[i]) is Some ==> tightened[i] is Some
                && settled[i]->Some_0.0 == resources[i].role,
    ensures
        settle_run(k, resources, tightened, handles, settled).1 matches Some(slots) ==> {
            &&& slots.len() == resources.len()
            &&& forall|i: int|
                0 <= i < slots.len() && (#[trigger] slots[i]) is Some ==> tightened[i] is Some
                    && slots[i]->Some_0.0 == resources[i].role
        },
    decreases resources.len() - settled.len(),
{
    let i = settled.len() as int;
    if i < resources.len() {
        if tightened[i] is None {
            let (closed, _) = handle::discard_run(k, handles[i]->Some_0);
            lemma_settled(closed, resources, tightened, handles, settled.push(None));
        } else {
            lemma_settled(
                k,
                resources,
                tightened,
                handles,
                settled.push(Some((resources[i].role, handles[i]->Some_0))),
            );
        }
    }
}

/// The receiver's policy decides what enters a context: every capability of an adopted start has
/// a role that the policy names.
pub proof fn lemma_adopted_roles_are_in_the_policy(
    k: kernel::Transcript,
    input: Seq<u8>,
    handles: Seq<Option<Option<u64>>>,
    policy: Seq<StartupCapabilityPolicy>,
    role: StartupRuntimeRole,
    slot: int,
)
    requires
        from_startup_run(k, input, handles, policy, role).1 matches Some(Adoption::Context(slots))
            && 0 <= slot < slots.len() && slots[slot] is Some,
    ensures
        from_startup_run(k, input, handles, policy, role).1 matches Some(Adoption::Context(slots))
            && exists|entry: StartupCapabilityPolicy| #[trigger]
            policy.contains(entry) && entry.role == slots[slot]->Some_0.0,
{
    let plan = startup_record::parse_startup(input, handles.len() as int)->Ok_0;
    let resources = plan.resources;
    let (inspected, outcome) = inspect_run(k, resources, handles, policy, seq![]);
    lemma_inspected(k, resources, handles, policy, seq![]);
    let tightened = outcome->Some_0->Ok_0;
    let (replaced, after, _) = tighten_run(inspected, resources, tightened, handles, 0);
    lemma_settled(replaced, resources, tightened, after, seq![]);
    let settled = settle_run(replaced, resources, tightened, after, seq![]).1->Some_0;
    assert(padded(settled, handles.len())[slot] is Some);
    assert(slot < settled.len());
    assert(settled[slot] is Some);
    lemma_policy_for(policy, resources[slot].role, 0);
}

/// A start that is rejected before any capability was tightened hands every handle back as it
/// came.
pub proof fn lemma_rejected_start_hands_handles_back(
    k: kernel::Transcript,
    input: Seq<u8>,
    handles: Seq<Option<Option<u64>>>,
    policy: Seq<StartupCapabilityPolicy>,
    role: StartupRuntimeRole,
)
    ensures
        from_startup_run(k, input, handles, policy, role).1 matches Some(
            Adoption::Rejected(error, rejected),
        ) ==> (error is Kernel || rejected == handles),
{
    if let Ok(plan) = startup_record::parse_startup(input, handles.len() as int) {
        let (inspected, outcome) = inspect_run(k, plan.resources, handles, policy, seq![]);
        if let Some(Ok(tightened)) = outcome {
            lemma_tighten_fails_in_the_kernel(inspected, plan.resources, tightened, handles, 0);
        }
    }
}

proof fn lemma_tighten_fails_in_the_kernel(
    k: kernel::Transcript,
    resources: Seq<StartupResource>,
    tightened: Seq<Option<Rights>>,
    handles: Seq<Option<Option<u64>>>,
    i: int,
)
    ensures
        tighten_run(k, resources, tightened, handles, i).2 matches Some(Err(error)) ==> error
            is Kernel,
    decreases resources.len() - i,
{
    if i < resources.len() {
        match tightened[i] {
            None => lemma_tighten_fails_in_the_kernel(k, resources, tightened, handles, i + 1),
            Some(rights) => {
                let raw = handles[i]->Some_0->Some_0;
                let (asked, info) = ipc::info_run(k, raw);
                lemma_tighten_fails_in_the_kernel(asked, resources, tightened, handles, i + 1);
                let (replaced, value) = ipc::value_run(
                    asked,
                    Op::Replace { handle: raw, rights: rights.raw },
                );
                if let Some(Ok(new)) = value {
                    lemma_tighten_fails_in_the_kernel(
                        replaced,
                        resources,
                        tightened,
                        handles.update(i, Some(Some(new))),
                        i + 1,
                    );
                }
            },
        }
    }
}

/// Whether the kernel described a handle at a point.
pub open spec fn described_at(
    k: kernel::Transcript,
    i: int,
    handle: u64,
    info: ipc::CapabilityInfo,
) -> bool {
    &&& 0 <= i < k.asked.len()
    &&& i < k.replies.len()
    &&& k.asked[i].op == Op::Info { handle }
    &&& ipc::described(k.replies[i]) == Ok::<_, ipc::Error>(info)
}

/// Whether the kernel said after a point what a handle is.
pub open spec fn described_since(
    before: kernel::Transcript,
    after: kernel::Transcript,
    handle: u64,
    info: ipc::CapabilityInfo,
) -> bool {
    exists|i: int| before.asked.len() <= i && #[trigger] described_at(after, i, handle, info)
}

/// Whether a handle has exactly these rights, and is another one or what became of it: the
/// kernel said that it has them, or gave a handle with them in its place.
pub open spec fn is_tight(
    before: kernel::Transcript,
    after: kernel::Transcript,
    raw: u64,
    handle: u64,
    rights: Rights,
) -> bool {
    ||| handle == raw && exists|info: ipc::CapabilityInfo|
        #[trigger] described_since(before, after, raw, info) && info.rights == rights
    ||| handle != 0 && ipc::given(
        before,
        after,
        Op::Replace { handle: raw, rights: rights.raw },
        handle,
    )
}

/// Whether a received handle is what a policy entry asks for, and these rights are all that it
/// may keep: what it came with, as far as the entry lets it have that.
pub open spec fn fits(
    before: kernel::Transcript,
    after: kernel::Transcript,
    raw: u64,
    entry: StartupCapabilityPolicy,
    rights: Rights,
) -> bool {
    exists|info: ipc::CapabilityInfo|
        {
            &&& #[trigger] described_since(before, after, raw, info)
            &&& info.kind == entry.kind
            &&& info.rights.contains(entry.minimum_rights)
            &&& rights.raw == info.rights.raw & entry.maximum_rights.raw
        }
}

proof fn lemma_described_stays(
    first: kernel::Transcript,
    second: kernel::Transcript,
    third: kernel::Transcript,
    fourth: kernel::Transcript,
    handle: u64,
    info: ipc::CapabilityInfo,
)
    requires
        second.follows(first),
        fourth.follows(third),
        described_since(second, third, handle, info),
    ensures
        described_since(first, fourth, handle, info),
{
    let i = choose|i: int| second.asked.len() <= i && #[trigger] described_at(
        third,
        i,
        handle,
        info,
    );
    assert(fourth.asked[i] == third.asked[i]);
    assert(described_at(fourth, i, handle, info));
}

proof fn lemma_tight_stays(
    first: kernel::Transcript,
    second: kernel::Transcript,
    third: kernel::Transcript,
    fourth: kernel::Transcript,
    raw: u64,
    handle: u64,
    rights: Rights,
)
    requires
        second.follows(first),
        fourth.follows(third),
        is_tight(second, third, raw, handle, rights),
    ensures
        is_tight(first, fourth, raw, handle, rights),
{
    let op = Op::Replace { handle: raw, rights: rights.raw };
    if handle != 0 && ipc::given(second, third, op, handle) {
        let i = choose|i: int| second.asked.len() <= i && #[trigger] ipc::answered(
            third,
            i,
            op,
            handle,
        );
        assert(fourth.asked[i] == third.asked[i]);
        assert(ipc::answered(fourth, i, op, handle));
    } else {
        let info = choose|info: ipc::CapabilityInfo|
            #[trigger] described_since(second, third, raw, info) && info.rights == rights;
        lemma_described_stays(first, second, third, fourth, raw, info);
    }
}

proof fn lemma_fits_stays(
    first: kernel::Transcript,
    second: kernel::Transcript,
    third: kernel::Transcript,
    fourth: kernel::Transcript,
    raw: u64,
    entry: StartupCapabilityPolicy,
    rights: Rights,
)
    requires
        second.follows(first),
        fourth.follows(third),
        fits(second, third, raw, entry, rights),
    ensures
        fits(first, fourth, raw, entry, rights),
{
    let info = choose|info: ipc::CapabilityInfo|
        {
            &&& #[trigger] described_since(second, third, raw, info)
            &&& info.kind == entry.kind
            &&& info.rights.contains(entry.minimum_rights)
            &&& rights.raw == info.rights.raw & entry.maximum_rights.raw
        };
    lemma_described_stays(first, second, third, fourth, raw, info);
}

proof fn lemma_follows_on(
    first: kernel::Transcript,
    second: kernel::Transcript,
    third: kernel::Transcript,
)
    requires
        second.follows(first),
        third.follows(second),
    ensures
        third.follows(first),
{
    assert forall|i: int| 0 <= i < first.asked.len() implies third.asked[i]
        == #[trigger] first.asked[i] by {
        assert(second.asked[i] == first.asked[i]);
    }
}

proof fn lemma_inspected_capabilities_fit(
    start: kernel::Transcript,
    k: kernel::Transcript,
    resources: Seq<StartupResource>,
    handles: Seq<Option<Option<u64>>>,
    policy: Seq<StartupCapabilityPolicy>,
    tightened: Seq<Option<Rights>>,
)
    requires
        k.follows(start),
        tightened.len() <= resources.len(),
        inspect_run(k, resources, handles, policy, tightened).1 matches Some(Ok(_)),
        forall|j: int|
            0 <= j < tightened.len() ==> ((#[trigger] tightened[j]) matches Some(rights) ==> {
                policy_for(policy, resources[j].role, 0) matches Some(entry) && fits(
                    start,
                    k,
                    handles[j]->Some_0->Some_0,
                    entry,
                    rights,
                )
            }),
    ensures
        ({
            let (after, outcome) = inspect_run(k, resources, handles, policy, tightened);
            let kept = outcome->Some_0->Ok_0;
            &&& after.follows(start)
            &&& kept.len() == resources.len()
            &&& forall|j: int|
                0 <= j < kept.len() ==> ((#[trigger] kept[j]) matches Some(rights) ==> {
                    policy_for(policy, resources[j].role, 0) matches Some(entry) && fits(
                        start,
                        after,
                        handles[j]->Some_0->Some_0,
                        entry,
                        rights,
                    )
                })
        }),
    decreases resources.len() - tightened.len(),
{
    let i = tightened.len() as int;
    if i < resources.len() {
        match policy_for(policy, resources[i].role, 0) {
            None => {
                lemma_inspected_capabilities_fit(
                    start,
                    k,
                    resources,
                    handles,
                    policy,
                    tightened.push(None),
                );
            },
            Some(entry) => {
                let raw = handles[i]->Some_0->Some_0;
                let (asked, said) = ipc::info_run(k, raw);
                let info = said->Some_0->Ok_0;
                let rights = Rights::from_bits(info.rights.raw & entry.maximum_rights.raw);
                assert(described_at(asked, k.asked.len() as int, raw, info));
                assert(described_since(start, asked, raw, info));
                assert(asked.follows(k));
                lemma_follows_on(start, k, asked);
                let more = tightened.push(rights);
                assert forall|j: int| 0 <= j < more.len() implies ((
                #[trigger] more[j]) matches Some(rights) ==> {
                    policy_for(policy, resources[j].role, 0) matches Some(entry) && fits(
                        start,
                        asked,
                        handles[j]->Some_0->Some_0,
                        entry,
                        rights,
                    )
                }) by {
                    if j < tightened.len() {
                        assert(more[j] == tightened[j]);
                        if let Some(rights) = tightened[j] {
                            lemma_fits_stays(
                                start,
                                start,
                                k,
                                asked,
                                handles[j]->Some_0->Some_0,
                                policy_for(policy, resources[j].role, 0)->Some_0,
                                rights,
                            );
                        }
                    }
                }
                lemma_inspected_capabilities_fit(start, asked, resources, handles, policy, more);
            },
        }
    }
}

proof fn lemma_tightened_handles_are_tight(
    k: kernel::Transcript,
    resources: Seq<StartupResource>,
    tightened: Seq<Option<Rights>>,
    handles: Seq<Option<Option<u64>>>,
    i: int,
)
    requires
        0 <= i <= resources.len() <= handles.len(),
        tighten_run(k, resources, tightened, handles, i).2 matches Some(Ok(_)),
        forall|j: int| 0 <= j < resources.len() ==> (#[trigger] handles[j]) matches Some(Some(_)),
    ensures
        ({
            let (end, after, _) = tighten_run(k, resources, tightened, handles, i);
            &&& end.follows(k)
            &&& after.len() == handles.len()
            &&& forall|j: int| 0 <= j < i ==> #[trigger] after[j] == handles[j]
            &&& forall|j: int|
                i <= j < resources.len() ==> ((#[trigger] after[j]) matches Some(Some(handle))
                    && match tightened[j] {
                    None => handle == handles[j]->Some_0->Some_0,
                    Some(rights) => is_tight(
                        k,
                        end,
                        handles[j]->Some_0->Some_0,
                        handle,
                        rights,
                    ),
                })
        }),
    decreases resources.len() - i,
{
    if i < resources.len() {
        let (end, after, _) = tighten_run(k, resources, tightened, handles, i);
        match tightened[i] {
            None => lemma_tightened_handles_are_tight(k, resources, tightened, handles, i + 1),
            Some(rights) => {
                let raw = handles[i]->Some_0->Some_0;
                let (asked, said) = ipc::info_run(k, raw);
                let info = said->Some_0->Ok_0;
                let (last, kept) = if info.rights == rights {
                    (asked, handles)
                } else {
                    let (replaced, value) = ipc::value_run(
                        asked,
                        Op::Replace { handle: raw, rights: rights.raw },
                    );
                    (replaced, handles.update(i, Some(Some(value->Some_0->Ok_0))))
                };
                assert(last.follows(k));
                lemma_tightened_handles_are_tight(last, resources, tightened, kept, i + 1);
                lemma_follows_on(k, last, end);
                let handle = kept[i]->Some_0->Some_0;
                assert(after[i] == kept[i]);
                if info.rights == rights {
                    assert(described_at(last, k.asked.len() as int, raw, info));
                    assert(described_since(k, last, raw, info));
                } else {
                    assert(ipc::answered(
                        last,
                        asked.asked.len() as int,
                        Op::Replace { handle: raw, rights: rights.raw },
                        handle,
                    ));
                }
                assert(is_tight(k, last, raw, handle, rights));
                lemma_tight_stays(k, k, last, end, raw, handle, rights);
                assert forall|j: int| i < j < resources.len() implies ((
                #[trigger] after[j]) matches Some(Some(handle)) && match tightened[j] {
                    None => handle == handles[j]->Some_0->Some_0,
                    Some(rights) => is_tight(k, end, handles[j]->Some_0->Some_0, handle, rights),
                }) by {
                    assert(kept[j] == handles[j]);
                    if let Some(rights) = tightened[j] {
                        lemma_tight_stays(
                            k,
                            last,
                            end,
                            end,
                            handles[j]->Some_0->Some_0,
                            after[j]->Some_0->Some_0,
                            rights,
                        );
                    }
                }
            },
        }
    }
}

proof fn lemma_settled_handles(
    k: kernel::Transcript,
    resources: Seq<StartupResource>,
    tightened: Seq<Option<Rights>>,
    handles: Seq<Option<Option<u64>>>,
    settled: Seq<ContextSlot>,
)
    requires
        settled.len() <= resources.len(),
        settle_run(k, resources, tightened, handles, settled).1 is Some,
    ensures
        ({
            let (after, slots) = settle_run(k, resources, tightened, handles, settled);
            &&& after.follows(k)
            &&& slots->Some_0.len() == resources.len()
            &&& forall|j: int|
                0 <= j < settled.len() ==> #[trigger] slots->Some_0[j] == settled[j]
            &&& forall|j: int|
                settled.len() <= j < resources.len() ==> match tightened[j] {
                    Some(_) => #[trigger] slots->Some_0[j] == Some(
                        (resources[j].role, handles[j]->Some_0),
                    ),
                    None => slots->Some_0[j] is None && (handles[j]->Some_0 matches Some(handle)
                        ==> after.asked_since(k, kernel::closing(handle))),
                }
        }),
    decreases resources.len() - settled.len(),
{
    let i = settled.len() as int;
    if i < resources.len() {
        let (after, slots) = settle_run(k, resources, tightened, handles, settled);
        if tightened[i] is None {
            let closed = handle::discard_run(k, handles[i]->Some_0).0;
            assert(closed.follows(k));
            lemma_settled_handles(closed, resources, tightened, handles, settled.push(None));
            lemma_follows_on(k, closed, after);
            assert(slots->Some_0[i] == settled.push(None)[i]);
            if let Some(handle) = handles[i]->Some_0 {
                assert(closed.asked[k.asked.len() as int].op == kernel::closing(handle));
                assert(after.asked[k.asked.len() as int] == closed.asked[k.asked.len() as int]);
            }
            assert forall|j: int| 0 <= j < settled.len() implies #[trigger] slots->Some_0[j]
                == settled[j] by {
                assert(settled.push(None)[j] == settled[j]);
            }
            assert forall|j: int| settled.len() <= j < resources.len() implies match tightened[j] {
                Some(_) => #[trigger] slots->Some_0[j] == Some(
                    (resources[j].role, handles[j]->Some_0),
                ),
                None => slots->Some_0[j] is None && (handles[j]->Some_0 matches Some(handle)
                    ==> after.asked_since(k, kernel::closing(handle))),
            } by {
                if j > i && tightened[j] is None {
                    if let Some(handle) = handles[j]->Some_0 {
                        assert(slots->Some_0[j] is None);
                        assert(after.asked_since(closed, kernel::closing(handle)));
                    }
                }
            }
        } else {
            let more = settled.push(Some((resources[i].role, handles[i]->Some_0)));
            lemma_settled_handles(k, resources, tightened, handles, more);
            assert(slots->Some_0[i] == more[i]);
            assert forall|j: int| 0 <= j < settled.len() implies #[trigger] slots->Some_0[j]
                == settled[j] by {
                assert(more[j] == settled[j]);
            }
        }
    }
}

/// A capability that enters a context is of the kind that the policy asks for, came with the
/// rights that it asks for at least, and keeps no more than the policy lets it have. One that the
/// policy does not know is closed.
#[verifier::spinoff_prover]
#[verifier::rlimit(30)]
pub proof fn lemma_adopted_capabilities_fit_the_policy(
    k: kernel::Transcript,
    input: Seq<u8>,
    handles: Seq<Option<Option<u64>>>,
    policy: Seq<StartupCapabilityPolicy>,
    role: StartupRuntimeRole,
    slot: int,
)
    requires
        all_live(handles),
        0 <= slot < handles.len(),
    ensures
        ({
            let (after, adopted) = from_startup_run(k, input, handles, policy, role);
            adopted matches Some(Adoption::Context(slots)) ==> {
                &&& slots.len() == handles.len()
                &&& slots[slot] matches Some((held, kept)) ==> {
                    &&& kept is Some
                    &&& policy_for(policy, held, 0) matches Some(entry) && exists|rights: Rights|
                        #[trigger] fits(k, after, handles[slot]->Some_0->Some_0, entry, rights)
                            && is_tight(
                            k,
                            after,
                            handles[slot]->Some_0->Some_0,
                            kept->Some_0,
                            rights,
                        )
                }
                &&& slots[slot] is None ==> (handles[slot] matches Some(Some(handle)) ==> {
                    after.asked_since(k, kernel::closing(handle))
                })
            }
        }),
{
    let (after, adopted) = from_startup_run(k, input, handles, policy, role);
    if let Some(Adoption::Context(slots)) = adopted {
        let plan = startup_record::parse_startup(input, handles.len() as int)->Ok_0;
        let resources = plan.resources;
        let (inspected, outcome) = inspect_run(k, resources, handles, policy, seq![]);
        lemma_inspected_capabilities_fit(k, k, resources, handles, policy, seq![]);
        let tightened = outcome->Some_0->Ok_0;
        let (replaced, tight, _) = tighten_run(inspected, resources, tightened, handles, 0);
        assert(startup_record::packed(handles, resources.len() as int));
        assert forall|j: int| 0 <= j < resources.len() implies (
        #[trigger] handles[j]) matches Some(Some(_)) by {}
        lemma_tightened_handles_are_tight(inspected, resources, tightened, handles, 0);
        lemma_settled_handles(replaced, resources, tightened, tight, seq![]);
        let settled = settle_run(replaced, resources, tightened, tight, seq![]).1->Some_0;
        lemma_follows_on(k, inspected, replaced);
        lemma_follows_on(k, replaced, after);
        lemma_follows_on(inspected, replaced, after);
        if slot < resources.len() {
            assert(slots[slot] == settled[slot]);
            let raw = handles[slot]->Some_0->Some_0;
            match tightened[slot] {
                Some(rights) => {
                    let entry = policy_for(policy, resources[slot].role, 0)->Some_0;
                    lemma_fits_stays(k, k, inspected, after, raw, entry, rights);
                    lemma_tight_stays(
                        k,
                        inspected,
                        replaced,
                        after,
                        raw,
                        tight[slot]->Some_0->Some_0,
                        rights,
                    );
                },
                None => {
                    assert(tight[slot] == Some(Some(raw)));
                    assert(after.asked_since(replaced, kernel::closing(raw)));
                },
            }
        }
    }
}

/// A claimed capability has the rights that were asked for and no others, whatever it came with.
pub proof fn lemma_claimed_capability_has_its_rights(
    k: kernel::Transcript,
    slots: Seq<ContextSlot>,
    role: CapabilityRole,
    kind: ObjectKind,
    required: Rights,
)
    ensures
        ({
            let (after, left, claimed) = take_run(k, slots, role, kind, required);
            claimed matches Some(Ok(handle)) ==> {
                &&& slot_of(slots, role, 0) matches Some(index) && {
                    let raw = slots[index]->Some_0.1->Some_0;
                    &&& is_tight(k, after, raw, handle, required)
                    &&& exists|info: ipc::CapabilityInfo|
                        #[trigger] described_since(k, after, raw, info) && info.kind == kind
                }
            }
        }),
{
    let (after, left, claimed) = take_run(k, slots, role, kind, required);
    if let Some(Ok(handle)) = claimed {
        let index = slot_of(slots, role, 0)->Some_0;
        let raw = slots[index]->Some_0.1->Some_0;
        let (cast, first) = ipc::info_run(k, raw);
        assert(described_at(after, k.asked.len() as int, raw, first->Some_0->Ok_0));
        assert(described_since(k, after, raw, first->Some_0->Ok_0));
        let (asked, second) = ipc::info_run(cast, raw);
        assert(described_at(after, cast.asked.len() as int, raw, second->Some_0->Ok_0));
        assert(described_since(k, after, raw, second->Some_0->Ok_0));
        if second->Some_0->Ok_0.rights != required {
            assert(ipc::answered(
                after,
                asked.asked.len() as int,
                Op::Replace { handle: raw, rights: required.raw },
                handle,
            ));
        }
    }
}

/// A bound endpoint has the rights that its side of the protocol needs and no others. One that
/// could not be bound is handed back, unless the kernel lost it.
pub proof fn lemma_bound_endpoint_has_its_rights(
    k: kernel::Transcript,
    endpoint: u64,
    declared: Result<(), ConformanceError>,
    required: Rights,
)
    ensures
        ({
            let (after, bound) = bind_run(k, endpoint, declared, required);
            bound matches Some((kept, verdict)) ==> match verdict {
                Ok(_) => declared is Ok && kept is Some && is_tight(
                    k,
                    after,
                    endpoint,
                    kept->Some_0,
                    required,
                ),
                Err(_) => kept == Some(endpoint) || (kept is None && ipc::given(
                    k,
                    after,
                    Op::Replace { handle: endpoint, rights: required.raw },
                    0,
                )),
            }
        }),
{
    let (after, bound) = bind_run(k, endpoint, declared, required);
    let (asked, said) = ipc::info_run(k, endpoint);
    if declared is Ok && bound is Some && said->Some_0 is Ok {
        let info = said->Some_0->Ok_0;
        assert(described_at(after, k.asked.len() as int, endpoint, info));
        assert(described_since(k, after, endpoint, info));
        if info.rights != required && info.rights.contains(required) {
            let value = ipc::value_run(
                asked,
                Op::Replace { handle: endpoint, rights: required.raw },
            ).1;
            if let Some(Ok(new)) = value {
                assert(ipc::answered(
                    after,
                    asked.asked.len() as int,
                    Op::Replace { handle: endpoint, rights: required.raw },
                    new,
                ));
            }
        }
    }
}

proof fn lemma_known_capabilities_are_kept(
    k: kernel::Transcript,
    resources: Seq<StartupResource>,
    handles: Seq<Option<Option<u64>>>,
    policy: Seq<StartupCapabilityPolicy>,
    tightened: Seq<Option<Rights>>,
)
    requires
        tightened.len() <= resources.len(),
        inspect_run(k, resources, handles, policy, tightened).1 matches Some(Ok(_)),
        forall|j: int|
            0 <= j < tightened.len() && policy_for(policy, resources[j].role, 0) is Some ==> (
            #[trigger] tightened[j]) is Some,
    ensures
        ({
            let kept = inspect_run(k, resources, handles, policy, tightened).1->Some_0->Ok_0;
            forall|j: int|
                0 <= j < resources.len() && policy_for(policy, resources[j].role, 0) is Some ==> (
                #[trigger] kept[j]) is Some
        }),
    decreases resources.len() - tightened.len(),
{
    let i = tightened.len() as int;
    if i < resources.len() {
        match policy_for(policy, resources[i].role, 0) {
            None => {
                lemma_known_capabilities_are_kept(
                    k,
                    resources,
                    handles,
                    policy,
                    tightened.push(None),
                );
            },
            Some(entry) => {
                let (asked, said) = ipc::info_run(k, handles[i]->Some_0->Some_0);
                let had: u64 = said->Some_0->Ok_0.rights.raw;
                let most: u64 = entry.maximum_rights.raw;
                let all: u64 = ALL_RIGHTS;
                assert(had & !all == 0 ==> (had & most) & !all == 0) by (bit_vector);
                lemma_known_capabilities_are_kept(
                    asked,
                    resources,
                    handles,
                    policy,
                    tightened.push(Rights::from_bits(had & most)),
                );
            },
        }
    }
}

proof fn lemma_named_role_has_an_entry(
    policy: Seq<StartupCapabilityPolicy>,
    role: CapabilityRole,
    from: int,
    j: int,
)
    requires
        0 <= from <= j < policy.len(),
        policy[j].role == role,
    ensures
        policy_for(policy, role, from) is Some,
    decreases j - from,
{
    if policy[from].role != role {
        lemma_named_role_has_an_entry(policy, role, from + 1, j);
    }
}

proof fn lemma_no_required_role_is_missing(
    policy: Seq<StartupCapabilityPolicy>,
    resources: Seq<StartupResource>,
    from: int,
    j: int,
)
    requires
        0 <= from <= j < policy.len(),
        missing_role(policy, resources, from) is None,
        policy[j].required,
    ensures
        supplied(resources, policy[j].role),
    decreases j - from,
{
    if from < j {
        lemma_no_required_role_is_missing(policy, resources, from + 1, j);
    }
}

/// A start that is adopted has every capability that the policy requires.
pub proof fn lemma_adopted_start_is_complete(
    k: kernel::Transcript,
    input: Seq<u8>,
    handles: Seq<Option<Option<u64>>>,
    policy: Seq<StartupCapabilityPolicy>,
    role: StartupRuntimeRole,
)
    ensures
        from_startup_run(k, input, handles, policy, role).1 matches Some(Adoption::Context(slots))
            ==> forall|j: int|
            0 <= j < policy.len() && (#[trigger] policy[j]).required ==> exists|i: int|
                0 <= i < slots.len() && ((#[trigger] slots[i]) matches Some((held, _)) && held
                    == policy[j].role),
{
    if let Some(Adoption::Context(slots)) = from_startup_run(k, input, handles, policy, role).1 {
        let plan = startup_record::parse_startup(input, handles.len() as int)->Ok_0;
        let resources = plan.resources;
        let (inspected, outcome) = inspect_run(k, resources, handles, policy, seq![]);
        lemma_inspected(k, resources, handles, policy, seq![]);
        lemma_known_capabilities_are_kept(k, resources, handles, policy, seq![]);
        let tightened = outcome->Some_0->Ok_0;
        let (replaced, tight, _) = tighten_run(inspected, resources, tightened, handles, 0);
        lemma_settled_handles(replaced, resources, tightened, tight, seq![]);
        let settled = settle_run(replaced, resources, tightened, tight, seq![]).1->Some_0;
        assert forall|j: int|
            0 <= j < policy.len() && (#[trigger] policy[j]).required implies exists|i: int|
            0 <= i < slots.len() && ((#[trigger] slots[i]) matches Some((held, _)) && held
                == policy[j].role) by {
            lemma_no_required_role_is_missing(policy, resources, 0, j);
            let i = choose|i: int|
                0 <= i < resources.len() && (#[trigger] resources[i]).role == policy[j].role;
            lemma_named_role_has_an_entry(policy, resources[i].role, 0, j);
            assert(tightened[i] is Some);
            assert(slots[i] == settled[i]);
        }
    }
}

} // verus!
