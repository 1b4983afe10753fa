//! A service that is described by a file: how the file is read, what it may say, and how the
//! service is started, watched and started again.

use crate::abi::{FILE_KIND_FILE, MAX_IPC_MESSAGE_BYTES};
use crate::activation;
use crate::activation::ActivationAttempt;
use crate::bytes::equal;
use crate::contained_service;
use crate::identity;
use crate::identity::{ProviderGeneration, ProviderGenerationSequence, ServiceId};
use crate::init_run;
use crate::init_run::{announce, backoff, grant, hear, Halt, Run};
use crate::init_text::Text;
use crate::ipc;
use crate::ipc::{CapabilityHandle, Rights};
use crate::kernel;
use crate::kernel::{Kernel, Op};
use crate::platform;
use crate::platform::Errno;
use crate::procedure;
use crate::procedure::close_received;
use crate::process_start::PROCESS_START_BOOTSTRAP_HANDLE;
use crate::service_cleanup;
use crate::service_cleanup::{Phase, Service};
use crate::service_launch;
use crate::service_launch::send_definition_process_start;
use crate::service_route;
use crate::service_route::queue_service_generation;
use crate::service_teardown;
use crate::service_teardown::{close_cleanup_capability, terminate_and_drain_service_job};
use crate::startup_sections;
use crate::syscall;
use crate::syscall::{try_wait_child, yield_now, ChildStatus, ProcessId};
use crate::trace;
use crate::trace::Deed;
use vstd::prelude::*;

verus! {

/// The largest definition.
pub const MAX_DEFINITION_BYTES: usize = 4_096;

/// How often a busy file is tried again.
pub const FILE_RETRIES: u32 = 64;

pub const DEFINITION_SERVICE_READINESS_GRACE_YIELDS: u32 = 2_048;

pub const DEFINITION_RESTART_LIMIT: u32 = 3;

pub const DEFINITION_RESTART_BACKOFF_YIELDS: u32 = 32;

pub fn definition_path() -> (path: &'static [u8])
    ensures
        path@ == service_cleanup::ascii("/services/definition-probe.service"@),
{
    "/services/definition-probe.service".as_bytes()
}

pub fn definition_service_name() -> (name: &'static [u8])
    ensures
        name@ == service_cleanup::ascii("definition-probe"@),
{
    "definition-probe".as_bytes()
}

pub fn definition_executable_path() -> (path: &'static [u8])
    ensures
        path@ == service_cleanup::ascii("/definition-service-probe"@),
{
    "/definition-service-probe".as_bytes()
}

pub fn definition_managed_argument() -> (argument: &'static [u8])
    ensures
        argument@ == service_cleanup::ascii("--managed"@),
{
    "--managed".as_bytes()
}

pub fn definition_ready_message() -> (message: &'static [u8])
    ensures
        message@ == service_cleanup::ascii("service-ready: definition-probe"@),
{
    "service-ready: definition-probe".as_bytes()
}

/// `9b1f4c2e-7a3d-4e58-8c61-2f0d9e7b5a14`.
#[verifier::allow_in_spec]
pub fn definition_service_id() -> ServiceId
    returns
        (ServiceId { first: 0x584e_3d7a_2e4c_1f9b, second: 0x145a_7b9e_0d2f_618c }),
{
    ServiceId { first: 0x584e_3d7a_2e4c_1f9b, second: 0x145a_7b9e_0d2f_618c }
}

/// When a service counts as ready.
#[derive(Clone, Debug)]
pub enum Readiness {
    /// As soon as it runs.
    Immediate,
    /// Once it has sent this message.
    Notify(Vec<u8>),
}

/// When a service that ended is started again.
#[derive(Clone, Copy, Debug, PartialEq, Eq, Structural)]
pub enum RestartPolicy {
    Never,
    OnFailure,
    Always,
}

/// What a file says about a service.
#[derive(Clone, Debug)]
pub struct ServiceDefinition {
    pub service_id: [u8; 16],
    pub name: Vec<u8>,
    pub executable: Vec<u8>,
    pub arguments: Vec<Vec<u8>>,
    pub readiness: Readiness,
    pub restart_policy: RestartPolicy,
    pub restart_limit: u32,
    pub restart_backoff_yields: u32,
}

/// A definition as the contracts see it.
#[verifier::ext_equal]
pub ghost struct Definition {
    pub service_id: Seq<u8>,
    pub name: Seq<u8>,
    pub executable: Seq<u8>,
    pub arguments: Seq<Seq<u8>>,
    pub ready_message: Option<Seq<u8>>,
    pub restart_policy: RestartPolicy,
    pub restart_limit: u32,
    pub restart_backoff_yields: u32,
}

impl View for ServiceDefinition {
    type V = Definition;

    open spec fn view(&self) -> Definition {
        Definition {
            service_id: self.service_id@,
            name: self.name@,
            executable: self.executable@,
            arguments: Seq::new(self.arguments@.len(), |i: int| self.arguments@[i]@),
            ready_message: match self.readiness {
                Readiness::Immediate => None,
                Readiness::Notify(message) => Some(message@),
            },
            restart_policy: self.restart_policy,
            restart_limit: self.restart_limit,
            restart_backoff_yields: self.restart_backoff_yields,
        }
    }
}

/// Why a service was not started from its definition.
#[derive(Clone, Copy, Debug, PartialEq, Eq, Structural)]
pub enum DefinitionServiceError {
    Io,
    InvalidDefinition,
    Policy,
    Activation,
    Cleanup,
}

/// What starting a service came to.
#[derive(Clone, Copy, Debug, PartialEq, Eq, Structural)]
pub enum DefinitionStartOutcome {
    Ready,
    Exited { successful: bool },
}

/// Yielding while a file is busy.
pub open spec fn stall_run(k: kernel::Transcript) -> Run<Result<(), DefinitionServiceError>> {
    init_run::bind(
        init_run::hear_run(syscall::yield_run(k)),
        |k: kernel::Transcript, yielded: Result<(), ipc::Error>|
            init_run::end(
                k,
                match yielded {
                    Ok(_) => Ok(()),
                    Err(_) => Err(DefinitionServiceError::Io),
                },
            ),
    )
}

fn stall(k: &mut Kernel) -> (result: Result<Result<(), DefinitionServiceError>, Halt>)
    ensures
        (final(k)@, result) == stall_run(old(k)@),
{
    match hear(yield_now(k))? {
        Ok(_) => Ok(Ok(())),
        Err(_) => Ok(Err(DefinitionServiceError::Io)),
    }
}

/// Opening the file, again and again while it is busy.
pub open spec fn open_run(k: kernel::Transcript, retries: nat) -> Run<
    Result<u64, DefinitionServiceError>,
>
    decreases retries,
{
    let (asked, opened) = syscall::value_bytes_run(
        k,
        Op::Open,
        service_cleanup::ascii("/services/definition-probe.service"@),
    );
    match opened {
        None => (asked, Err(Halt::Waiting)),
        Some(Ok(descriptor)) => init_run::end(asked, Ok(descriptor)),
        Some(Err(error)) => if error == ipc::Error::try_again() && retries > 0 {
            let (rested, stalled) = stall_run(asked);
            match stalled {
                Err(halt) => (rested, Err(halt)),
                Ok(Err(error)) => init_run::end(rested, Err(error)),
                Ok(Ok(_)) => open_run(rested, (retries - 1) as nat),
            }
        } else {
            init_run::end(asked, Err(DefinitionServiceError::Io))
        },
    }
}

fn open_definition(k: &mut Kernel) -> (result: Result<Result<u64, DefinitionServiceError>, Halt>)
    ensures
        (final(k)@, result) == open_run(old(k)@, FILE_RETRIES as nat),
{
    let mut retries: u32 = FILE_RETRIES;
    loop
        invariant
            open_run(old(k)@, FILE_RETRIES as nat) == open_run(k@, retries as nat),
        decreases retries,
    {
        match hear(syscall::open(k, definition_path()))? {
            Ok(descriptor) => {
                return Ok(Ok(descriptor));
            },
            Err(error) => {
                if error != ipc::Error::try_again() || retries == 0 {
                    return Ok(Err(DefinitionServiceError::Io));
                }
            },
        }
        if let Err(error) = stall(k)? {
            return Ok(Err(error));
        }
        retries -= 1;
    }
}

/// Asking for the record of the file, again and again while it is busy.
pub open spec fn stat_run(k: kernel::Transcript, descriptor: u64, retries: nat) -> Run<
    Result<Seq<u64>, DefinitionServiceError>,
>
    decreases retries,
{
    let (asked, record) = platform::record_run(k, Op::FileStatus { descriptor }, seq![]);
    match record {
        None => (asked, Err(Halt::Waiting)),
        Some(Ok(words)) => init_run::end(asked, Ok(words)),
        Some(Err(error)) => if error == Errno::try_again() && retries > 0 {
            let (rested, stalled) = stall_run(asked);
            match stalled {
                Err(halt) => (rested, Err(halt)),
                Ok(Err(error)) => init_run::end(rested, Err(error)),
                Ok(Ok(_)) => stat_run(rested, descriptor, (retries - 1) as nat),
            }
        } else {
            init_run::end(asked, Err(DefinitionServiceError::Io))
        },
    }
}

/// What a file record is to the contracts.
pub open spec fn stat_view(
    result: Result<Result<platform::Stat, DefinitionServiceError>, Halt>,
) -> Result<Result<Seq<u64>, DefinitionServiceError>, Halt> {
    match result {
        Ok(Ok(stat)) => Ok(Ok(stat.words@)),
        Ok(Err(error)) => Ok(Err(error)),
        Err(halt) => Err(halt),
    }
}

fn stat_definition(k: &mut Kernel, descriptor: u64) -> (result: Result<
    Result<platform::Stat, DefinitionServiceError>,
    Halt,
>)
    ensures
        (final(k)@, stat_view(result)) == stat_run(old(k)@, descriptor, FILE_RETRIES as nat),
{
    let mut retries: u32 = FILE_RETRIES;
    loop
        invariant
            stat_run(old(k)@, descriptor, FILE_RETRIES as nat) == stat_run(
                k@,
                descriptor,
                retries as nat,
            ),
        decreases retries,
    {
        match hear(platform::fstat(k, descriptor))? {
            Ok(stat) => {
                return Ok(Ok(stat));
            },
            Err(error) => {
                if error != Errno::try_again() || retries == 0 {
                    return Ok(Err(DefinitionServiceError::Io));
                }
            },
        }
        if let Err(error) = stall(k)? {
            return Ok(Err(error));
        }
        retries -= 1;
    }
}

/// How long a definition is, by the record of its file: an ordinary file that is not empty and
/// not too large. The first word of the record is the kind of the file, the second its size.
#[verifier::allow_in_spec]
pub fn definition_length(kind: u64, size: u64) -> Result<usize, DefinitionServiceError>
    returns
        (if size > usize::MAX {
            Err(DefinitionServiceError::Io)
        } else if kind != FILE_KIND_FILE || size == 0 || size > MAX_DEFINITION_BYTES {
            Err(DefinitionServiceError::InvalidDefinition)
        } else {
            Ok(size as usize)
        }),
{
    if size > usize::MAX as u64 {
        Err(DefinitionServiceError::Io)
    } else if kind != FILE_KIND_FILE || size == 0 || size > MAX_DEFINITION_BYTES as u64 {
        Err(DefinitionServiceError::InvalidDefinition)
    } else {
        Ok(size as usize)
    }
}

/// Reading the file up to a length, from what was read before.
pub open spec fn read_run(
    k: kernel::Transcript,
    descriptor: u64,
    length: usize,
    before: Seq<u8>,
    retries: nat,
) -> Run<Result<Seq<u8>, DefinitionServiceError>>
    decreases length - before.len(), retries,
{
    if before.len() >= length {
        init_run::end(k, Ok(before))
    } else {
        let (asked, read) = syscall::read_run(
            k,
            descriptor,
            (length - before.len()) as usize,
        );
        match read {
            None => (asked, Err(Halt::Waiting)),
            Some(Ok(piece)) => if piece.len() == 0 {
                init_run::end(asked, Err(DefinitionServiceError::Io))
            } else {
                read_run(asked, descriptor, length, before + piece, FILE_RETRIES as nat)
            },
            Some(Err(error)) => if error == ipc::Error::try_again() && retries > 0 {
                let (rested, stalled) = stall_run(asked);
                match stalled {
                    Err(halt) => (rested, Err(halt)),
                    Ok(Err(error)) => init_run::end(rested, Err(error)),
                    Ok(Ok(_)) => read_run(
                        rested,
                        descriptor,
                        length,
                        before,
                        (retries - 1) as nat,
                    ),
                }
            } else {
                init_run::end(asked, Err(DefinitionServiceError::Io))
            },
        }
    }
}

/// What bytes are to the contracts.
pub open spec fn bytes_view(result: Result<Result<Vec<u8>, DefinitionServiceError>, Halt>) -> Result<
    Result<Seq<u8>, DefinitionServiceError>,
    Halt,
> {
    match result {
        Ok(Ok(bytes)) => Ok(Ok(bytes@)),
        Ok(Err(error)) => Ok(Err(error)),
        Err(halt) => Err(halt),
    }
}

fn read_definition(k: &mut Kernel, descriptor: u64, length: usize) -> (result: Result<
    Result<Vec<u8>, DefinitionServiceError>,
    Halt,
>)
    ensures
        (final(k)@, bytes_view(result)) == read_run(
            old(k)@,
            descriptor,
            length,
            seq![],
            FILE_RETRIES as nat,
        ),
{
    let mut bytes: Vec<u8> = Vec::new();
    let mut retries: u32 = FILE_RETRIES;
    while bytes.len() < length
        invariant
            read_run(old(k)@, descriptor, length, seq![], FILE_RETRIES as nat) == read_run(
                k@,
                descriptor,
                length,
                bytes@,
                retries as nat,
            ),
        decreases length - bytes@.len(), retries,
    {
        match hear(syscall::read(k, descriptor, length - bytes.len()))? {
            Ok(piece) => {
                if piece.len() == 0 {
                    return Ok(Err(DefinitionServiceError::Io));
                }
                let mut piece = piece;
                bytes.append(&mut piece);
                retries = FILE_RETRIES;
            },
            Err(error) => {
                if error != ipc::Error::try_again() || retries == 0 {
                    return Ok(Err(DefinitionServiceError::Io));
                }
                if let Err(error) = stall(k)? {
                    return Ok(Err(error));
                }
                retries -= 1;
            },
        }
    }
    Ok(Ok(bytes))
}

/// Looking whether the file ends where its record said that it does.
pub open spec fn at_end_run(k: kernel::Transcript, descriptor: u64, retries: nat) -> Run<
    Result<(), DefinitionServiceError>,
>
    decreases retries,
{
    let (asked, read) = syscall::read_run(k, descriptor, 1);
    match read {
        None => (asked, Err(Halt::Waiting)),
        Some(Ok(piece)) => init_run::end(
            asked,
            if piece.len() == 0 {
                Ok(())
            } else {
                Err(DefinitionServiceError::InvalidDefinition)
            },
        ),
        Some(Err(error)) => if error == ipc::Error::try_again() && retries > 0 {
            let (rested, stalled) = stall_run(asked);
            match stalled {
                Err(halt) => (rested, Err(halt)),
                Ok(Err(error)) => init_run::end(rested, Err(error)),
                Ok(Ok(_)) => at_end_run(rested, descriptor, (retries - 1) as nat),
            }
        } else {
            init_run::end(asked, Err(DefinitionServiceError::Io))
        },
    }
}

fn at_end(k: &mut Kernel, descriptor: u64) -> (result: Result<
    Result<(), DefinitionServiceError>,
    Halt,
>)
    ensures
        (final(k)@, result) == at_end_run(old(k)@, descriptor, FILE_RETRIES as nat),
{
    let mut retries: u32 = FILE_RETRIES;
    loop
        invariant
            at_end_run(old(k)@, descriptor, FILE_RETRIES as nat) == at_end_run(
                k@,
                descriptor,
                retries as nat,
            ),
        decreases retries,
    {
        match hear(syscall::read(k, descriptor, 1))? {
            Ok(piece) => {
                if piece.len() == 0 {
                    return Ok(Ok(()));
                }
                return Ok(Err(DefinitionServiceError::InvalidDefinition));
            },
            Err(error) => {
                if error != ipc::Error::try_again() || retries == 0 {
                    return Ok(Err(DefinitionServiceError::Io));
                }
            },
        }
        if let Err(error) = stall(k)? {
            return Ok(Err(error));
        }
        retries -= 1;
    }
}

/// One part of reading after another, unless the first has failed.
pub open spec fn read_on<A, B>(
    run: Run<Result<A, DefinitionServiceError>>,
    next: spec_fn(kernel::Transcript, A) -> Run<Result<B, DefinitionServiceError>>,
) -> Run<Result<B, DefinitionServiceError>> {
    init_run::bind(
        run,
        |k: kernel::Transcript, result: Result<A, DefinitionServiceError>|
            match result {
                Ok(value) => next(k, value),
                Err(error) => init_run::end(k, Err(error)),
            },
    )
}

/// Reading a whole file that was opened.
pub open spec fn contents_run(k: kernel::Transcript, descriptor: u64) -> Run<
    Result<Seq<u8>, DefinitionServiceError>,
> {
    read_on(
        stat_run(k, descriptor, FILE_RETRIES as nat),
        |k: kernel::Transcript, words: Seq<u64>|
            match definition_length(words[0], words[1]) {
                Err(error) => init_run::end(k, Err(error)),
                Ok(length) => read_on(
                    read_run(k, descriptor, length, seq![], FILE_RETRIES as nat),
                    |k: kernel::Transcript, bytes: Seq<u8>|
                        read_on(
                            at_end_run(k, descriptor, FILE_RETRIES as nat),
                            |k: kernel::Transcript, ended: ()| init_run::end(k, Ok(bytes)),
                        ),
                ),
            },
    )
}

fn contents(k: &mut Kernel, descriptor: u64) -> (result: Result<
    Result<Vec<u8>, DefinitionServiceError>,
    Halt,
>)
    ensures
        (final(k)@, bytes_view(result)) == contents_run(old(k)@, descriptor),
{
    let stat = match stat_definition(k, descriptor)? {
        Ok(stat) => stat,
        Err(error) => {
            return Ok(Err(error));
        },
    };
    let length: usize = match definition_length(stat.words[0], stat.words[1]) {
        Ok(length) => length,
        Err(error) => {
            return Ok(Err(error));
        },
    };
    let bytes = match read_definition(k, descriptor, length)? {
        Ok(bytes) => bytes,
        Err(error) => {
            return Ok(Err(error));
        },
    };
    match at_end(k, descriptor)? {
        Ok(_) => Ok(Ok(bytes)),
        Err(error) => Ok(Err(error)),
    }
}

/// Reading the definition. The file is closed whatever comes of that.
pub open spec fn load_run(k: kernel::Transcript) -> Run<Result<Seq<u8>, DefinitionServiceError>> {
    init_run::bind(
        init_run::announce_run(k, Text::DefinitionServiceLoading),
        |k: kernel::Transcript, said: ()|
            read_on(
                open_run(k, FILE_RETRIES as nat),
                |k: kernel::Transcript, descriptor: u64|
                    init_run::bind(
                        contents_run(k, descriptor),
                        |k: kernel::Transcript, read: Result<Seq<u8>, DefinitionServiceError>|
                            init_run::bind(
                                init_run::hear_run(
                                    ipc::unit_run(k, Op::CloseFile { descriptor }, seq![]),
                                ),
                                |k: kernel::Transcript, closed: Result<(), ipc::Error>|
                                    init_run::end(
                                        k,
                                        match closed {
                                            Ok(_) => read,
                                            Err(_) => Err(DefinitionServiceError::Io),
                                        },
                                    ),
                            ),
                    ),
            ),
    )
}

/// Reads the bytes of the definition.
pub fn load_definition_bytes(k: &mut Kernel) -> (result: Result<
    Result<Vec<u8>, DefinitionServiceError>,
    Halt,
>)
    ensures
        (final(k)@, bytes_view(result)) == load_run(old(k)@),
{
    announce(k, Text::DefinitionServiceLoading)?;
    let descriptor: u64 = match open_definition(k)? {
        Ok(descriptor) => descriptor,
        Err(error) => {
            return Ok(Err(error));
        },
    };
    let read = contents(k, descriptor)?;
    match hear(syscall::close(k, descriptor))? {
        Ok(_) => Ok(read),
        Err(_) => Ok(Err(DefinitionServiceError::Io)),
    }
}

/// The one definition that is let through.
pub open spec fn permitted() -> Definition {
    Definition {
        service_id: definition_service_id().bytes(),
        name: service_cleanup::ascii("definition-probe"@),
        executable: service_cleanup::ascii("/definition-service-probe"@),
        arguments: seq![service_cleanup::ascii("--managed"@)],
        ready_message: Some(service_cleanup::ascii("service-ready: definition-probe"@)),
        restart_policy: RestartPolicy::OnFailure,
        restart_limit: DEFINITION_RESTART_LIMIT,
        restart_backoff_yields: DEFINITION_RESTART_BACKOFF_YIELDS,
    }
}

/// What becomes of a definition, or of bytes that are none.
pub open spec fn admitted(parsed: Option<Definition>) -> Result<
    Definition,
    DefinitionServiceError,
> {
    match parsed {
        None => Err(DefinitionServiceError::InvalidDefinition),
        Some(definition) => if definition == permitted() {
            Ok(definition)
        } else {
            Err(DefinitionServiceError::Policy)
        },
    }
}

fn is_permitted(definition: &ServiceDefinition) -> (permitted: bool)
    ensures
        permitted == (definition@ == self::permitted()),
{
    assert(self::permitted().arguments.len() == 1);
    assert(definition@.arguments.len() == definition.arguments@.len());
    let permitted_id = definition_service_id().as_bytes();
    if !equal(&definition.service_id, &permitted_id) || !equal(
        definition.name.as_slice(),
        definition_service_name(),
    ) || !equal(definition.executable.as_slice(), definition_executable_path())
        || definition.arguments.len() != 1 {
        return false;
    }
    if !equal(definition.arguments[0].as_slice(), definition_managed_argument()) {
        assert(definition@.arguments[0] != self::permitted().arguments[0]);
        return false;
    }
    let notifies = match &definition.readiness {
        Readiness::Immediate => false,
        Readiness::Notify(message) => equal(message.as_slice(), definition_ready_message()),
    };
    if !notifies || definition.restart_policy != RestartPolicy::OnFailure
        || definition.restart_limit != DEFINITION_RESTART_LIMIT
        || definition.restart_backoff_yields != DEFINITION_RESTART_BACKOFF_YIELDS {
        return false;
    }
    assert(definition@.arguments =~= self::permitted().arguments);
    true
}

/// Lets a definition through if it is the one that is permitted. Bytes that are no definition are
/// `None`.
pub fn admit_definition(parsed: Option<ServiceDefinition>) -> (result: Result<
    ServiceDefinition,
    DefinitionServiceError,
>)
    ensures
        match result {
            Ok(definition) => parsed is Some && admitted(Some(parsed->0@)) == Ok::<
                _,
                DefinitionServiceError,
            >(definition@) && definition == parsed->0,
            Err(error) => admitted(
                match parsed {
                    Some(definition) => Some(definition@),
                    None => None,
                },
            ) == Err::<Definition, _>(error),
        },
{
    match parsed {
        None => Err(DefinitionServiceError::InvalidDefinition),
        Some(definition) => {
            if is_permitted(&definition) {
                Ok(definition)
            } else {
                Err(DefinitionServiceError::Policy)
            }
        },
    }
}

/// What the supervisor holds of the service: its process, if it runs, and what is left of one
/// that could not be cleared away.
#[derive(Clone, Copy, Debug, PartialEq, Eq, Structural)]
pub struct DefinitionState {
    pub process_id: Option<ProcessId>,
    pub process_group_id: Option<ProcessId>,
    pub job: Option<CapabilityHandle>,
    pub generation: Option<ProviderGeneration>,
    pub readiness_endpoint: Option<CapabilityHandle>,
    pub restart_count: u32,
    pub restart_deferred: bool,
    pub cleanup_attempt: Option<ActivationAttempt>,
    pub cleanup_budget_reported: bool,
}

impl DefinitionState {
    #[verifier::allow_in_spec]
    pub fn new() -> Self
        returns
            (DefinitionState {
                process_id: None,
                process_group_id: None,
                job: None,
                generation: None,
                readiness_endpoint: None,
                restart_count: 0,
                restart_deferred: false,
                cleanup_attempt: None,
                cleanup_budget_reported: false,
            }),
    {
        DefinitionState {
            process_id: None,
            process_group_id: None,
            job: None,
            generation: None,
            readiness_endpoint: None,
            restart_count: 0,
            restart_deferred: false,
            cleanup_attempt: None,
            cleanup_budget_reported: false,
        }
    }
}

/// A service and its definition.
///
/// A clone owns nothing: it is there to run a procedure again from the same state.
#[derive(Clone, Debug)]
pub struct DefinitionServiceRuntime {
    pub definition: ServiceDefinition,
    pub state: DefinitionState,
}

impl DefinitionServiceRuntime {
    pub fn new(definition: ServiceDefinition) -> (runtime: Self)
        ensures
            runtime.definition == definition,
            runtime.state == DefinitionState::new(),
    {
        DefinitionServiceRuntime { definition, state: DefinitionState::new() }
    }
}

/// Whether a service that ended is started again.
#[verifier::allow_in_spec]
pub fn selects_restart(policy: RestartPolicy, successful: bool) -> bool
    returns
        (match policy {
            RestartPolicy::Never => false,
            RestartPolicy::OnFailure => !successful,
            RestartPolicy::Always => true,
        }),
{
    match policy {
        RestartPolicy::Never => false,
        RestartPolicy::OnFailure => !successful,
        RestartPolicy::Always => true,
    }
}

/// The state after one restart was taken from the budget, if one was left.
pub open spec fn charged(state: DefinitionState, limit: u32) -> (DefinitionState, bool) {
    if state.restart_count >= limit {
        (state, false)
    } else {
        (DefinitionState { restart_count: (state.restart_count + 1) as u32, ..state }, true)
    }
}

fn definition_service_consume_restart(state: &mut DefinitionState, limit: u32) -> (charged: bool)
    ensures
        (*final(state), charged) == self::charged(*old(state), limit),
{
    if state.restart_count >= limit {
        return false;
    }
    state.restart_count = state.restart_count + 1;
    true
}

/// Clearing away what a process left: its job is drained and its endpoint closed. Whether nothing
/// is left.
pub open spec fn clear_run(k: kernel::Transcript, state: DefinitionState, leader_reaped: bool) -> Run<
    (DefinitionState, bool),
> {
    let reaped = DefinitionState {
        process_id: if leader_reaped {
            None
        } else {
            state.process_id
        },
        ..state
    };
    init_run::bind(
        clear_job_run(k, reaped),
        |k: kernel::Transcript, cleared: (DefinitionState, bool)|
            init_run::bind(
                init_run::hear_run(
                    service_teardown::close_capability_run(
                        k,
                        Service::Definition,
                        Phase::ResourceRelease,
                        cleared.0.readiness_endpoint,
                    ),
                ),
                |k: kernel::Transcript, closed: bool|
                    init_run::end(
                        k,
                        (
                            DefinitionState {
                                readiness_endpoint: service_teardown::left(
                                    cleared.0.readiness_endpoint,
                                    closed,
                                ),
                                generation: if cleared.1 && closed {
                                    None
                                } else {
                                    cleared.0.generation
                                },
                                ..cleared.0
                            },
                            cleared.1 && closed,
                        ),
                    ),
            ),
    )
}

/// Draining the job of a process, if it has one.
pub open spec fn clear_job_run(k: kernel::Transcript, state: DefinitionState) -> Run<
    (DefinitionState, bool),
> {
    match state.job {
        None => init_run::end(
            k,
            (DefinitionState { process_group_id: None, ..state }, state.process_id is None),
        ),
        Some(_) => init_run::bind(
            init_run::hear_run(
                service_teardown::drain_run(
                    k,
                    Service::Definition,
                    state.job,
                    state.process_id,
                    Text::DefinitionServiceJobDrained,
                    state.cleanup_budget_reported,
                ),
            ),
            |k: kernel::Transcript, torn: service_teardown::Torn|
                init_run::end(
                    k,
                    (
                        DefinitionState {
                            job: service_teardown::left(state.job, torn.clean),
                            process_id: torn.leader,
                            process_group_id: service_teardown::left(
                                state.process_group_id,
                                torn.clean,
                            ),
                            cleanup_budget_reported: torn.reported,
                            ..state
                        },
                        torn.clean,
                    ),
                ),
        ),
    }
}

fn clear_definition_service_process(k: &mut Kernel, state: &mut DefinitionState, leader_reaped: bool) -> (result:
    Result<bool, Halt>)
    ensures
        ({
            let (asked, outcome) = clear_run(old(k)@, *old(state), leader_reaped);
            &&& final(k)@ == asked
            &&& init_run::came_to(outcome, *final(state), result)
        }),
{
    if leader_reaped {
        state.process_id = None;
    }
    let job_clean = if state.job.is_some() {
        hear(
            terminate_and_drain_service_job(
                k,
                Service::Definition,
                &mut state.job,
                &mut state.process_id,
                &mut state.process_group_id,
                Text::DefinitionServiceJobDrained,
                &mut state.cleanup_budget_reported,
            ),
        )?
    } else {
        state.process_group_id = None;
        state.process_id.is_none()
    };
    let readiness_closed = hear(
        close_cleanup_capability(
            k,
            Service::Definition,
            Phase::ResourceRelease,
            &mut state.readiness_endpoint,
        ),
    )?;
    if job_clean && readiness_closed {
        state.generation = None;
        Ok(true)
    } else {
        Ok(false)
    }
}

/// A start that has come to its end.
#[derive(Clone, Copy, Debug)]
pub struct Ended {
    pub state: DefinitionState,
    pub result: Result<DefinitionStartOutcome, DefinitionServiceError>,
}

/// Ending a start with a result, once the attempt was cleared away. What cannot be cleared away
/// is kept, and is the result.
pub open spec fn stop_run(
    k: kernel::Transcript,
    state: DefinitionState,
    attempt: ActivationAttempt,
    leader_reaped: bool,
    result: Result<DefinitionStartOutcome, DefinitionServiceError>,
) -> Run<Ended> {
    let reaped = ActivationAttempt {
        process_id: if leader_reaped {
            None
        } else {
            attempt.process_id
        },
        ..attempt
    };
    init_run::bind(
        init_run::hear_run(activation::abort_definition_run(k, reaped)),
        |k: kernel::Transcript, aborted: (ActivationAttempt, bool)|
            init_run::end(
                k,
                if aborted.1 {
                    Ended { state, result }
                } else {
                    Ended {
                        state: DefinitionState { cleanup_attempt: Some(aborted.0), ..state },
                        result: Err(DefinitionServiceError::Cleanup),
                    }
                },
            ),
    )
}

fn stop(
    k: &mut Kernel,
    state: DefinitionState,
    attempt: ActivationAttempt,
    leader_reaped: bool,
    result: Result<DefinitionStartOutcome, DefinitionServiceError>,
) -> (ended: Result<Ended, Halt>)
    ensures
        (final(k)@, ended) == stop_run(old(k)@, state, attempt, leader_reaped, result),
{
    let mut attempt = attempt;
    if leader_reaped {
        attempt.process_id = None;
    }
    if hear(attempt.abort_definition(k))? {
        Ok(Ended { state, result })
    } else {
        Ok(
            Ended {
                state: DefinitionState { cleanup_attempt: Some(attempt), ..state },
                result: Err(DefinitionServiceError::Cleanup),
            },
        )
    }
}

/// A part of a start: what it made, or the end of the start.
pub type Part<T> = Run<Result<T, Ended>>;

/// One part of a start after another, unless the start has ended.
pub open spec fn go_on<A, B>(
    run: Part<A>,
    next: spec_fn(kernel::Transcript, A) -> Part<B>,
) -> Part<B> {
    init_run::bind(
        run,
        |k: kernel::Transcript, part: Result<A, Ended>|
            match part {
                Ok(value) => next(k, value),
                Err(ended) => init_run::end(k, Err(ended)),
            },
    )
}

/// Ending a start because something could not be made.
pub open spec fn fail_run<T>(
    k: kernel::Transcript,
    state: DefinitionState,
    attempt: ActivationAttempt,
) -> Part<T> {
    init_run::bind(
        stop_run(k, state, attempt, false, Err(DefinitionServiceError::Activation)),
        |k: kernel::Transcript, ended: Ended| init_run::end(k, Err(ended)),
    )
}

fn fail<T>(k: &mut Kernel, state: DefinitionState, attempt: ActivationAttempt) -> (result: Result<
    Result<T, Ended>,
    Halt,
>)
    ensures
        (final(k)@, result) == fail_run::<T>(old(k)@, state, attempt),
{
    let ended = stop(k, state, attempt, false, Err(DefinitionServiceError::Activation))?;
    Ok(Err(ended))
}

/// Making the job of a start. Where not even a job could be made there is nothing to clear away.
pub open spec fn job_part(k: kernel::Transcript, state: DefinitionState) -> Part<
    ActivationAttempt,
> {
    let fresh = ActivationAttempt::new(Service::Definition, Text::DefinitionServiceJobDrained);
    init_run::bind(
        init_run::hear_run(activation::create_job_run(k, fresh)),
        |k: kernel::Transcript, created: (ActivationAttempt, bool)|
            if created.1 {
                init_run::end(k, Ok(created.0))
            } else if created.0.job_management is None {
                init_run::end(
                    k,
                    Err(Ended { state, result: Err(DefinitionServiceError::Activation) }),
                )
            } else {
                fail_run(k, state, created.0)
            },
    )
}

fn make_job(k: &mut Kernel, state: DefinitionState) -> (result: Result<
    Result<ActivationAttempt, Ended>,
    Halt,
>)
    ensures
        (final(k)@, result) == job_part(old(k)@, state),
{
    let mut attempt = ActivationAttempt::new(
        Service::Definition,
        Text::DefinitionServiceJobDrained,
    );
    if hear(attempt.create_job(k))? {
        return Ok(Ok(attempt));
    }
    if attempt.job_management.is_none() {
        return Ok(Err(Ended { state, result: Err(DefinitionServiceError::Activation) }));
    }
    fail(k, state, attempt)
}

/// Making the endpoint on which the generation waits.
pub open spec fn generation_part(
    k: kernel::Transcript,
    state: DefinitionState,
    attempt: ActivationAttempt,
    generation: ProviderGeneration,
) -> Part<ActivationAttempt> {
    init_run::bind(
        init_run::hear_run(ipc::value_run(k, Op::EndpointCreate)),
        |k: kernel::Transcript, created: Result<u64, ipc::Error>|
            match created {
                Err(_) => fail_run(k, state, attempt),
                Ok(source) => {
                    let held = ActivationAttempt { generation_source: Some(source), ..attempt };
                    init_run::bind(
                        init_run::hear_run(
                            service_route::queue_generation_run(k, source, generation),
                        ),
                        |
                            k: kernel::Transcript,
                            queued: Result<(), service_route::GenerationHandoffSendError>,
                        |
                            if queued is Ok {
                                init_run::end(k, Ok(held))
                            } else {
                                fail_run(k, state, held)
                            },
                    )
                },
            },
    )
}

fn make_generation(
    k: &mut Kernel,
    state: DefinitionState,
    attempt: ActivationAttempt,
    generation: ProviderGeneration,
) -> (result: Result<Result<ActivationAttempt, Ended>, Halt>)
    ensures
        (final(k)@, result) == generation_part(old(k)@, state, attempt, generation),
{
    let mut attempt = attempt;
    match hear(ipc::endpoint_create(k))? {
        Err(_) => fail(k, state, attempt),
        Ok(source) => {
            attempt.generation_source = Some(source);
            if hear(queue_service_generation(k, source, generation))?.is_err() {
                return fail(k, state, attempt);
            }
            Ok(Ok(attempt))
        },
    }
}

/// Making the endpoint on which the service says that it is ready, if it does.
pub open spec fn readiness_part(
    k: kernel::Transcript,
    state: DefinitionState,
    attempt: ActivationAttempt,
    notifies: bool,
) -> Part<ActivationAttempt> {
    if !notifies {
        init_run::end(k, Ok(attempt))
    } else {
        init_run::bind(
            init_run::hear_run(ipc::value_run(k, Op::EndpointCreate)),
            |k: kernel::Transcript, created: Result<u64, ipc::Error>|
                match created {
                    Err(_) => fail_run(k, state, attempt),
                    Ok(endpoint) => init_run::end(
                        k,
                        Ok(ActivationAttempt { readiness_source: Some(endpoint), ..attempt }),
                    ),
                },
        )
    }
}

fn make_readiness(
    k: &mut Kernel,
    state: DefinitionState,
    attempt: ActivationAttempt,
    notifies: bool,
) -> (result: Result<Result<ActivationAttempt, Ended>, Halt>)
    ensures
        (final(k)@, result) == readiness_part(old(k)@, state, attempt, notifies),
{
    if !notifies {
        return Ok(Ok(attempt));
    }
    match hear(ipc::endpoint_create(k))? {
        Err(_) => fail(k, state, attempt),
        Ok(endpoint) => Ok(
            Ok(ActivationAttempt { readiness_source: Some(endpoint), ..attempt }),
        ),
    }
}

/// Making the endpoints over which the start is sent.
pub open spec fn bootstrap_part(
    k: kernel::Transcript,
    state: DefinitionState,
    attempt: ActivationAttempt,
) -> Part<ActivationAttempt> {
    init_run::bind(
        init_run::hear_run(ipc::endpoint_create_pair_run(k)),
        |k: kernel::Transcript, pair: Result<(u64, u64), ipc::Error>|
            match pair {
                Err(_) => fail_run(k, state, attempt),
                Ok((sender, receiver)) => init_run::end(
                    k,
                    Ok(
                        ActivationAttempt {
                            bootstrap_sender: Some(sender),
                            bootstrap_receiver: Some(receiver),
                            ..attempt
                        },
                    ),
                ),
            },
    )
}

fn make_bootstrap(k: &mut Kernel, state: DefinitionState, attempt: ActivationAttempt) -> (result:
    Result<Result<ActivationAttempt, Ended>, Halt>)
    ensures
        (final(k)@, result) == bootstrap_part(old(k)@, state, attempt),
{
    match hear(ipc::endpoint_create_pair(k))? {
        Err(_) => fail(k, state, attempt),
        Ok((sender, receiver)) => Ok(
            Ok(
                ActivationAttempt {
                    bootstrap_sender: Some(sender),
                    bootstrap_receiver: Some(receiver),
                    ..attempt
                },
            ),
        ),
    }
}

/// Starting the process behind a barrier and putting it into the job.
pub open spec fn spawn_part(
    k: kernel::Transcript,
    state: DefinitionState,
    attempt: ActivationAttempt,
    executable: Seq<u8>,
) -> Part<(ActivationAttempt, ProcessId)> {
    init_run::bind(
        init_run::hear_run(
            activation::spawn_child_run(
                k,
                attempt,
                executable,
                Some(Text::DefinitionServiceStarting),
            ),
        ),
        |k: kernel::Transcript, spawned: (ActivationAttempt, Option<ProcessId>)|
            match (spawned.1, spawned.0.job_management, spawned.0.job) {
                (Some(process_id), Some(management), Some(job)) => init_run::bind(
                    init_run::hear_run(
                        activation::assign_run(k, spawned.0, management, job, process_id),
                    ),
                    |k: kernel::Transcript, assigned: (ActivationAttempt, bool)|
                        if assigned.1 {
                            init_run::end(k, Ok((assigned.0, process_id)))
                        } else {
                            fail_run(k, state, assigned.0)
                        },
                ),
                _ => fail_run(k, state, spawned.0),
            },
    )
}

fn spawn(
    k: &mut Kernel,
    state: DefinitionState,
    attempt: ActivationAttempt,
    executable: &[u8],
) -> (result: Result<Result<(ActivationAttempt, ProcessId), Ended>, Halt>)
    ensures
        (final(k)@, result) == spawn_part(old(k)@, state, attempt, executable@),
{
    let mut attempt = attempt;
    let spawned = hear(
        attempt.spawn_child(k, executable, Some(Text::DefinitionServiceStarting)),
    )?;
    match (spawned, attempt.job_management, attempt.job) {
        (Some(process_id), Some(management), Some(job)) => {
            if !hear(attempt.assign_child(k, management, job, process_id))? {
                return fail(k, state, attempt);
            }
            Ok(Ok((attempt, process_id)))
        },
        _ => fail(k, state, attempt),
    }
}

/// The arguments of the service, its executable first.
pub open spec fn command_line(definition: Definition) -> Seq<Seq<u8>> {
    seq![definition.executable] + definition.arguments
}

/// Granting the service its bootstrap endpoint and sending it its start: whether both worked.
pub open spec fn tell_run(
    k: kernel::Transcript,
    definition: Definition,
    restart_count: u32,
    attempt: ActivationAttempt,
    process_id: ProcessId,
    generation: ProviderGeneration,
) -> Run<bool> {
    match attempt.bootstrap_receiver {
        None => init_run::end(k, false),
        Some(receiver) => init_run::bind(
            init_run::grant_run(
                k,
                process_id,
                receiver,
                Rights::receive(),
                PROCESS_START_BOOTSTRAP_HANDLE,
            ),
            |k: kernel::Transcript, granted: bool|
                if !granted {
                    init_run::end(k, false)
                } else {
                    init_run::hear_run(
                        service_launch::definition_start_run(
                            k,
                            attempt.bootstrap_sender,
                            attempt.generation_source,
                            attempt.readiness_source,
                            command_line(definition),
                            process_id,
                            generation,
                            restart_count,
                        ),
                    )
                },
        ),
    }
}

fn tell(
    k: &mut Kernel,
    definition: &ServiceDefinition,
    restart_count: u32,
    attempt: ActivationAttempt,
    process_id: ProcessId,
    generation: ProviderGeneration,
) -> (result: Result<bool, Halt>)
    ensures
        (final(k)@, result) == tell_run(
            old(k)@,
            definition@,
            restart_count,
            attempt,
            process_id,
            generation,
        ),
{
    let receiver: u64 = match attempt.bootstrap_receiver {
        Some(receiver) => receiver,
        None => {
            return Ok(false);
        },
    };
    if !grant(k, process_id, receiver, Rights::receive(), PROCESS_START_BOOTSTRAP_HANDLE)? {
        return Ok(false);
    }
    let mut arguments: Vec<&[u8]> = Vec::new();
    arguments.push(definition.executable.as_slice());
    let mut index: usize = 0;
    while index < definition.arguments.len()
        invariant
            index <= definition.arguments@.len(),
            arguments@.len() == index + 1,
            arguments@[0]@ == definition.executable@,
            forall|i: int|
                0 <= i < index ==> (#[trigger] arguments@[i + 1])@ == definition.arguments@[i]@,
        decreases definition.arguments@.len() - index,
    {
        arguments.push(definition.arguments[index].as_slice());
        index += 1;
    }
    proof {
        let views = startup_sections::argument_views(arguments@);
        assert forall|i: int| 0 <= i < views.len() implies views[i] == command_line(
            definition@,
        )[i] by {
            if i > 0 {
                assert(arguments@[(i - 1) + 1]@ == definition.arguments@[i - 1]@);
            }
        }
        assert(views =~= command_line(definition@));
    }
    hear(
        send_definition_process_start(
            k,
            attempt.bootstrap_sender,
            attempt.generation_source,
            attempt.readiness_source,
            arguments.as_slice(),
            process_id,
            generation,
            restart_count,
        ),
    )
}

/// Telling the service what it needs and letting it go.
pub open spec fn release_part(
    k: kernel::Transcript,
    definition: Definition,
    state: DefinitionState,
    attempt: ActivationAttempt,
    process_id: ProcessId,
    generation: ProviderGeneration,
) -> Part<ActivationAttempt> {
    init_run::bind(
        tell_run(k, definition, state.restart_count, attempt, process_id, generation),
        |k: kernel::Transcript, told: bool|
            if !told {
                fail_run(k, state, attempt)
            } else {
                init_run::bind(
                    init_run::hear_run(activation::release_child_run(k, attempt)),
                    |k: kernel::Transcript, released: (ActivationAttempt, bool)|
                        if released.1 {
                            init_run::end(k, Ok(released.0))
                        } else {
                            fail_run(k, state, released.0)
                        },
                )
            },
    )
}

fn release(
    k: &mut Kernel,
    definition: &ServiceDefinition,
    state: DefinitionState,
    attempt: ActivationAttempt,
    process_id: ProcessId,
    generation: ProviderGeneration,
) -> (result: Result<Result<ActivationAttempt, Ended>, Halt>)
    ensures
        (final(k)@, result) == release_part(
            old(k)@,
            definition@,
            state,
            attempt,
            process_id,
            generation,
        ),
{
    if !tell(k, definition, state.restart_count, attempt, process_id, generation)? {
        return fail(k, state, attempt);
    }
    let mut attempt = attempt;
    if !hear(attempt.release_child(k))? {
        return fail(k, state, attempt);
    }
    Ok(Ok(attempt))
}

/// The state of a service that runs.
#[verifier::allow_in_spec]
pub fn adopted(
    state: DefinitionState,
    attempt: ActivationAttempt,
    generation: ProviderGeneration,
) -> DefinitionState
    returns
        (DefinitionState {
            process_id: attempt.process_id,
            process_group_id: attempt.process_group_id,
            job: attempt.job,
            cleanup_budget_reported: false,
            generation: Some(generation),
            readiness_endpoint: attempt.readiness_source,
            restart_deferred: false,
            ..state
        }),
{
    DefinitionState {
        process_id: attempt.process_id,
        process_group_id: attempt.process_group_id,
        job: attempt.job,
        cleanup_budget_reported: false,
        generation: Some(generation),
        readiness_endpoint: attempt.readiness_source,
        restart_deferred: false,
        ..state
    }
}

/// The end of a start that worked.
pub open spec fn ready_run(
    k: kernel::Transcript,
    state: DefinitionState,
    attempt: ActivationAttempt,
    generation: ProviderGeneration,
) -> Run<Ended> {
    init_run::bind(
        init_run::announce_run(k, Text::DefinitionServiceReady),
        |k: kernel::Transcript, said: ()|
            init_run::end(
                k,
                Ended {
                    state: adopted(state, attempt, generation),
                    result: Ok(DefinitionStartOutcome::Ready),
                },
            ),
    )
}

fn ready(
    k: &mut Kernel,
    state: DefinitionState,
    attempt: ActivationAttempt,
    generation: ProviderGeneration,
) -> (result: Result<Ended, Halt>)
    ensures
        (final(k)@, result) == ready_run(old(k)@, state, attempt, generation),
{
    announce(k, Text::DefinitionServiceReady)?;
    Ok(
        Ended {
            state: adopted(state, attempt, generation),
            result: Ok(DefinitionStartOutcome::Ready),
        },
    )
}

/// The end of a start in which the service said something wrong.
pub open spec fn broken_run(
    k: kernel::Transcript,
    state: DefinitionState,
    attempt: ActivationAttempt,
) -> Run<Ended> {
    init_run::bind(
        init_run::announce_run(k, Text::DefinitionServiceProtocolFailed),
        |k: kernel::Transcript, said: ()|
            stop_run(
                k,
                state,
                attempt,
                false,
                Ok(DefinitionStartOutcome::Exited { successful: false }),
            ),
    )
}

fn broken(k: &mut Kernel, state: DefinitionState, attempt: ActivationAttempt) -> (result: Result<
    Ended,
    Halt,
>)
    ensures
        (final(k)@, result) == broken_run(old(k)@, state, attempt),
{
    announce(k, Text::DefinitionServiceProtocolFailed)?;
    stop(k, state, attempt, false, Ok(DefinitionStartOutcome::Exited { successful: false }))
}

/// Looking for the message that says that the service is ready. `None` says to look at its
/// process.
pub open spec fn hear_ready_run(
    k: kernel::Transcript,
    state: DefinitionState,
    attempt: ActivationAttempt,
    process_id: ProcessId,
    generation: ProviderGeneration,
    endpoint: CapabilityHandle,
    message: Seq<u8>,
    patience: u32,
) -> Run<Option<Ended>> {
    init_run::bind(
        init_run::hear_run(ipc::try_receive_run(k, endpoint, MAX_IPC_MESSAGE_BYTES)),
        |k: kernel::Transcript, received: Result<ipc::Delivery, ipc::Error>|
            match received {
                Ok(delivery) => init_run::bind(
                    init_run::hear_run(
                        procedure::quiet_received_run(k, delivery.message.capability),
                    ),
                    |k: kernel::Transcript, closed: ()|
                        some_run(
                            if init_run::is_expected(delivery, process_id, message) {
                                ready_run(k, state, attempt, generation)
                            } else {
                                broken_run(k, state, attempt)
                            },
                        ),
                ),
                Err(error) => if error != ipc::Error::try_again() {
                    some_run(broken_run(k, state, attempt))
                } else if patience == 0 {
                    some_run(
                        stop_run(
                            k,
                            state,
                            attempt,
                            false,
                            Ok(DefinitionStartOutcome::Exited { successful: false }),
                        ),
                    )
                } else {
                    init_run::end(k, None)
                },
            },
    )
}

/// An end that is there.
pub open spec fn some_run(run: Run<Ended>) -> Run<Option<Ended>> {
    init_run::bind(run, |k: kernel::Transcript, ended: Ended| init_run::end(k, Some(ended)))
}

fn hear_ready(
    k: &mut Kernel,
    state: DefinitionState,
    attempt: ActivationAttempt,
    process_id: ProcessId,
    generation: ProviderGeneration,
    endpoint: CapabilityHandle,
    message: &[u8],
    patience: u32,
) -> (result: Result<Option<Ended>, Halt>)
    ensures
        (final(k)@, result) == hear_ready_run(
            old(k)@,
            state,
            attempt,
            process_id,
            generation,
            endpoint,
            message@,
            patience,
        ),
{
    match hear(ipc::try_receive(k, endpoint, MAX_IPC_MESSAGE_BYTES))? {
        Ok(received) => {
            hear(close_received(k, received.message.capability))?;
            let ended = if init_run::is_expected_message(&received, process_id, message) {
                ready(k, state, attempt, generation)?
            } else {
                broken(k, state, attempt)?
            };
            Ok(Some(ended))
        },
        Err(error) => {
            if error != ipc::Error::try_again() {
                return Ok(Some(broken(k, state, attempt)?));
            }
            if patience == 0 {
                let ended = stop(
                    k,
                    state,
                    attempt,
                    false,
                    Ok(DefinitionStartOutcome::Exited { successful: false }),
                )?;
                return Ok(Some(ended));
            }
            Ok(None)
        },
    }
}

/// Looking at the process of a service that is not ready yet, then yielding. `None` says to go
/// on.
pub open spec fn watch_run(
    k: kernel::Transcript,
    state: DefinitionState,
    attempt: ActivationAttempt,
    process_id: ProcessId,
) -> Run<Option<Ended>> {
    init_run::bind(
        init_run::hear_run(syscall::try_wait_run(k, process_id)),
        |k: kernel::Transcript, polled: Result<ChildStatus, ipc::Error>|
            match polled {
                Ok(status) => if status.continued() || status.stopped_signal() is Some {
                    rest_run(k, state, attempt)
                } else {
                    some_run(
                        stop_run(
                            k,
                            state,
                            attempt,
                            true,
                            Ok(DefinitionStartOutcome::Exited { successful: status.success() }),
                        ),
                    )
                },
                Err(error) => if init_run::not_yet(error) {
                    rest_run(k, state, attempt)
                } else {
                    some_run(
                        stop_run(
                            k,
                            state,
                            attempt,
                            false,
                            Err(DefinitionServiceError::Activation),
                        ),
                    )
                },
            },
    )
}

/// Yielding while the service is not ready yet.
pub open spec fn rest_run(
    k: kernel::Transcript,
    state: DefinitionState,
    attempt: ActivationAttempt,
) -> Run<Option<Ended>> {
    init_run::bind(
        init_run::hear_run(syscall::yield_run(k)),
        |k: kernel::Transcript, yielded: Result<(), ipc::Error>|
            if yielded is Ok {
                init_run::end(k, None)
            } else {
                some_run(
                    stop_run(
                        k,
                        state,
                        attempt,
                        false,
                        Err(DefinitionServiceError::Activation),
                    ),
                )
            },
    )
}

fn watch(
    k: &mut Kernel,
    state: DefinitionState,
    attempt: ActivationAttempt,
    process_id: ProcessId,
) -> (result: Result<Option<Ended>, Halt>)
    ensures
        (final(k)@, result) == watch_run(old(k)@, state, attempt, process_id),
{
    match hear(try_wait_child(k, process_id))? {
        Ok(status) => {
            if !status.continued() && status.stopped_signal().is_none() {
                let ended = stop(
                    k,
                    state,
                    attempt,
                    true,
                    Ok(DefinitionStartOutcome::Exited { successful: status.success() }),
                )?;
                return Ok(Some(ended));
            }
        },
        Err(error) => {
            if !init_run::not_yet(error) {
                let ended = stop(
                    k,
                    state,
                    attempt,
                    false,
                    Err(DefinitionServiceError::Activation),
                )?;
                return Ok(Some(ended));
            }
        },
    }
    if hear(yield_now(k))?.is_err() {
        let ended = stop(k, state, attempt, false, Err(DefinitionServiceError::Activation))?;
        return Ok(Some(ended));
    }
    Ok(None)
}

/// One look at a service that is not ready yet.
pub open spec fn look_run(
    k: kernel::Transcript,
    state: DefinitionState,
    attempt: ActivationAttempt,
    process_id: ProcessId,
    generation: ProviderGeneration,
    endpoint: CapabilityHandle,
    message: Seq<u8>,
    patience: u32,
) -> Run<Option<Ended>> {
    init_run::bind(
        hear_ready_run(
            k,
            state,
            attempt,
            process_id,
            generation,
            endpoint,
            message,
            patience,
        ),
        |k: kernel::Transcript, heard: Option<Ended>|
            match heard {
                Some(ended) => init_run::end(k, Some(ended)),
                None => watch_run(k, state, attempt, process_id),
            },
    )
}

/// Waiting until a service is ready or has ended.
pub open spec fn await_run(
    k: kernel::Transcript,
    state: DefinitionState,
    attempt: ActivationAttempt,
    process_id: ProcessId,
    generation: ProviderGeneration,
    endpoint: CapabilityHandle,
    message: Seq<u8>,
    patience: u32,
) -> Run<Ended>
    decreases patience,
{
    let (looked, result) = look_run(
        k,
        state,
        attempt,
        process_id,
        generation,
        endpoint,
        message,
        patience,
    );
    match result {
        Err(halt) => (looked, Err(halt)),
        Ok(Some(ended)) => init_run::end(looked, ended),
        Ok(None) => if patience == 0 {
            (looked, Err(Halt::Waiting))
        } else {
            await_run(
                looked,
                state,
                attempt,
                process_id,
                generation,
                endpoint,
                message,
                (patience - 1) as u32,
            )
        },
    }
}

fn await_ready(
    k: &mut Kernel,
    state: DefinitionState,
    attempt: ActivationAttempt,
    process_id: ProcessId,
    generation: ProviderGeneration,
    endpoint: CapabilityHandle,
    message: &[u8],
) -> (result: Result<Ended, Halt>)
    ensures
        (final(k)@, result) == await_run(
            old(k)@,
            state,
            attempt,
            process_id,
            generation,
            endpoint,
            message@,
            DEFINITION_SERVICE_READINESS_GRACE_YIELDS,
        ),
{
    let mut patience: u32 = DEFINITION_SERVICE_READINESS_GRACE_YIELDS;
    loop
        invariant
            await_run(
                old(k)@,
                state,
                attempt,
                process_id,
                generation,
                endpoint,
                message@,
                DEFINITION_SERVICE_READINESS_GRACE_YIELDS,
            ) == await_run(
                k@,
                state,
                attempt,
                process_id,
                generation,
                endpoint,
                message@,
                patience,
            ),
        decreases patience,
    {
        let heard = hear_ready(
            k,
            state,
            attempt,
            process_id,
            generation,
            endpoint,
            message,
            patience,
        )?;
        if let Some(ended) = heard {
            return Ok(ended);
        }
        if let Some(ended) = watch(k, state, attempt, process_id)? {
            return Ok(ended);
        }
        patience -= 1;
    }
}

/// Everything up to the moment at which the service runs.
pub open spec fn launch_part(
    k: kernel::Transcript,
    definition: Definition,
    state: DefinitionState,
    generation: ProviderGeneration,
) -> Part<(ActivationAttempt, ProcessId)> {
    go_on(
        job_part(k, state),
        |k: kernel::Transcript, attempt: ActivationAttempt|
            go_on(
                generation_part(k, state, attempt, generation),
                |k: kernel::Transcript, attempt: ActivationAttempt|
                    go_on(
                        readiness_part(k, state, attempt, definition.ready_message is Some),
                        |k: kernel::Transcript, attempt: ActivationAttempt|
                            go_on(
                                bootstrap_part(k, state, attempt),
                                |k: kernel::Transcript, attempt: ActivationAttempt|
                                    spawn_release_part(
                                        k,
                                        definition,
                                        state,
                                        attempt,
                                        generation,
                                    ),
                            ),
                    ),
            ),
    )
}

/// Starting the process and letting it go.
pub open spec fn spawn_release_part(
    k: kernel::Transcript,
    definition: Definition,
    state: DefinitionState,
    attempt: ActivationAttempt,
    generation: ProviderGeneration,
) -> Part<(ActivationAttempt, ProcessId)> {
    go_on(
        spawn_part(k, state, attempt, definition.executable),
        |k: kernel::Transcript, spawned: (ActivationAttempt, ProcessId)|
            go_on(
                release_part(k, definition, state, spawned.0, spawned.1, generation),
                |k: kernel::Transcript, released: ActivationAttempt|
                    init_run::end(k, Ok((released, spawned.1))),
            ),
    )
}

fn launch(
    k: &mut Kernel,
    definition: &ServiceDefinition,
    state: DefinitionState,
    generation: ProviderGeneration,
) -> (result: Result<Result<(ActivationAttempt, ProcessId), Ended>, Halt>)
    ensures
        (final(k)@, result) == launch_part(old(k)@, definition@, state, generation),
{
    let attempt = match make_job(k, state)? {
        Ok(attempt) => attempt,
        Err(ended) => {
            return Ok(Err(ended));
        },
    };
    let attempt = match make_generation(k, state, attempt, generation)? {
        Ok(attempt) => attempt,
        Err(ended) => {
            return Ok(Err(ended));
        },
    };
    let notifies = match &definition.readiness {
        Readiness::Immediate => false,
        Readiness::Notify(_) => true,
    };
    let attempt = match make_readiness(k, state, attempt, notifies)? {
        Ok(attempt) => attempt,
        Err(ended) => {
            return Ok(Err(ended));
        },
    };
    let attempt = match make_bootstrap(k, state, attempt)? {
        Ok(attempt) => attempt,
        Err(ended) => {
            return Ok(Err(ended));
        },
    };
    let (attempt, process_id) = match spawn(k, state, attempt, definition.executable.as_slice())? {
        Ok(spawned) => spawned,
        Err(ended) => {
            return Ok(Err(ended));
        },
    };
    match release(k, definition, state, attempt, process_id, generation)? {
        Ok(attempt) => Ok(Ok((attempt, process_id))),
        Err(ended) => Ok(Err(ended)),
    }
}

/// What a start and the supervisor hold.
pub ghost struct Defined {
    pub state: DefinitionState,
    pub generations: u64,
}

/// Starting the service with a generation.
pub open spec fn start_with_run(
    k: kernel::Transcript,
    definition: Definition,
    state: DefinitionState,
    generation: ProviderGeneration,
) -> Run<Ended> {
    init_run::bind(
        launch_part(k, definition, state, generation),
        |k: kernel::Transcript, launched: Result<(ActivationAttempt, ProcessId), Ended>|
            match launched {
                Err(ended) => init_run::end(k, ended),
                Ok((attempt, process_id)) => match (
                    definition.ready_message,
                    attempt.readiness_source,
                ) {
                    (Some(message), Some(endpoint)) => await_run(
                        k,
                        state,
                        attempt,
                        process_id,
                        generation,
                        endpoint,
                        message,
                        DEFINITION_SERVICE_READINESS_GRACE_YIELDS,
                    ),
                    _ => ready_run(k, state, attempt, generation),
                },
            },
    )
}

/// Starting the service, which takes a generation of its own.
pub open spec fn start_run(k: kernel::Transcript, definition: Definition, defined: Defined) -> Run<
    (Defined, Result<DefinitionStartOutcome, DefinitionServiceError>),
> {
    match identity::generation_after(defined.generations) {
        Err(_) => init_run::end(k, (defined, Err(DefinitionServiceError::Activation))),
        Ok(generation) => init_run::bind(
            start_with_run(k, definition, defined.state, generation),
            |k: kernel::Transcript, ended: Ended|
                init_run::end(
                    k,
                    (
                        Defined {
                            state: ended.state,
                            generations: identity::sequence_after(defined.generations),
                        },
                        ended.result,
                    ),
                ),
        ),
    }
}

/// Starts the service and, if it says when it is ready, waits for that.
pub fn start_definition_service(
    k: &mut Kernel,
    runtime: &mut DefinitionServiceRuntime,
    generations: &mut ProviderGenerationSequence,
) -> (result: Result<Result<DefinitionStartOutcome, DefinitionServiceError>, Halt>)
    ensures
        final(runtime).definition == old(runtime).definition,
        ({
            let (asked, outcome) = start_run(
                old(k)@,
                old(runtime).definition@,
                Defined { state: old(runtime).state, generations: old(generations)@ },
            );
            &&& final(k)@ == asked
            &&& init_run::came_to(
                outcome,
                Defined { state: final(runtime).state, generations: final(generations)@ },
                result,
            )
        }),
{
    let generation = match generations.next_generation() {
        Ok(generation) => generation,
        Err(_) => {
            return Ok(Err(DefinitionServiceError::Activation));
        },
    };
    let state = runtime.state;
    let ended = match launch(k, &runtime.definition, state, generation)? {
        Err(ended) => ended,
        Ok((attempt, process_id)) => {
            match (&runtime.definition.readiness, attempt.readiness_source) {
                (Readiness::Notify(message), Some(endpoint)) => await_ready(
                    k,
                    state,
                    attempt,
                    process_id,
                    generation,
                    endpoint,
                    message.as_slice(),
                )?,
                _ => ready(k, state, attempt, generation)?,
            }
        },
    };
    runtime.state = ended.state;
    Ok(ended.result)
}

/// Trying once more to clear away what an earlier start left: what is left of it, and whether
/// that is nothing.
pub open spec fn retry_cleanup_run(k: kernel::Transcript, state: DefinitionState) -> Run<
    (DefinitionState, bool),
> {
    match state.cleanup_attempt {
        None => init_run::end(k, (state, true)),
        Some(attempt) => init_run::bind(
            init_run::hear_run(activation::abort_definition_run(k, attempt)),
            |k: kernel::Transcript, aborted: (ActivationAttempt, bool)|
                init_run::end(
                    k,
                    (
                        DefinitionState {
                            cleanup_attempt: if aborted.1 {
                                None
                            } else {
                                Some(aborted.0)
                            },
                            ..state
                        },
                        aborted.1,
                    ),
                ),
        ),
    }
}

fn retry_cleanup(k: &mut Kernel, state: &mut DefinitionState) -> (result: Result<bool, Halt>)
    ensures
        ({
            let (asked, outcome) = retry_cleanup_run(old(k)@, *old(state));
            &&& final(k)@ == asked
            &&& init_run::came_to(outcome, *final(state), result)
        }),
{
    match state.cleanup_attempt {
        None => Ok(true),
        Some(attempt) => {
            let mut attempt = attempt;
            if hear(attempt.abort_definition(k))? {
                state.cleanup_attempt = None;
                Ok(true)
            } else {
                state.cleanup_attempt = Some(attempt);
                Ok(false)
            }
        },
    }
}

/// Clearing away everything that is left of the service: whether that worked.
pub open spec fn cleanup_run(k: kernel::Transcript, state: DefinitionState) -> Run<
    (DefinitionState, bool),
> {
    init_run::bind(
        retry_cleanup_run(k, state),
        |k: kernel::Transcript, retried: (DefinitionState, bool)|
            init_run::bind(
                clear_run(k, retried.0, false),
                |k: kernel::Transcript, cleared: (DefinitionState, bool)|
                    init_run::end(k, (cleared.0, retried.1 && cleared.1)),
            ),
    )
}

pub fn cleanup_definition_service_runtime(k: &mut Kernel, runtime: &mut DefinitionServiceRuntime) -> (result:
    Result<bool, Halt>)
    ensures
        final(runtime).definition == old(runtime).definition,
        ({
            let (asked, outcome) = cleanup_run(old(k)@, old(runtime).state);
            &&& final(k)@ == asked
            &&& init_run::came_to(outcome, final(runtime).state, result)
        }),
{
    let attempt_clean = retry_cleanup(k, &mut runtime.state)?;
    let process_clean = clear_definition_service_process(k, &mut runtime.state, false)?;
    Ok(attempt_clean && process_clean)
}

/// Whether a start that did not work is tried again later.
pub open spec fn deferral(
    definition: Definition,
    state: DefinitionState,
    result: Result<DefinitionStartOutcome, DefinitionServiceError>,
) -> bool {
    match result {
        Ok(DefinitionStartOutcome::Ready) => false,
        Ok(DefinitionStartOutcome::Exited { successful }) => selects_restart(
            definition.restart_policy,
            successful,
        ) && state.restart_count < definition.restart_limit,
        Err(_) => state.restart_count < definition.restart_limit,
    }
}

fn deferred(
    definition: &ServiceDefinition,
    state: DefinitionState,
    result: Result<DefinitionStartOutcome, DefinitionServiceError>,
) -> (deferred: bool)
    ensures
        deferred == deferral(definition@, state, result),
{
    match result {
        Ok(DefinitionStartOutcome::Ready) => false,
        Ok(DefinitionStartOutcome::Exited { successful }) => selects_restart(
            definition.restart_policy,
            successful,
        ) && state.restart_count < definition.restart_limit,
        Err(_) => state.restart_count < definition.restart_limit,
    }
}

/// Starting the service again after a while.
pub open spec fn restart_run(k: kernel::Transcript, definition: Definition, defined: Defined) -> Run<
    (Defined, Result<DefinitionStartOutcome, DefinitionServiceError>),
> {
    init_run::bind(
        init_run::announce_run(k, Text::DefinitionServiceRestarting),
        |k: kernel::Transcript, said: ()|
            init_run::bind(
                init_run::backoff_run(k, definition.restart_backoff_yields as nat),
                |k: kernel::Transcript, rested: ()|
                    init_run::bind(
                        start_run(k, definition, defined),
                        |
                            k: kernel::Transcript,
                            started: (
                                Defined,
                                Result<DefinitionStartOutcome, DefinitionServiceError>,
                            ),
                        |
                            init_run::end(
                                k,
                                (
                                    Defined {
                                        state: DefinitionState {
                                            restart_deferred: deferral(
                                                definition,
                                                started.0.state,
                                                started.1,
                                            ),
                                            ..started.0.state
                                        },
                                        ..started.0
                                    },
                                    started.1,
                                ),
                            ),
                    ),
            ),
    )
}

fn restart(
    k: &mut Kernel,
    runtime: &mut DefinitionServiceRuntime,
    generations: &mut ProviderGenerationSequence,
) -> (result: Result<Result<DefinitionStartOutcome, DefinitionServiceError>, Halt>)
    ensures
        final(runtime).definition == old(runtime).definition,
        ({
            let (asked, outcome) = restart_run(
                old(k)@,
                old(runtime).definition@,
                Defined { state: old(runtime).state, generations: old(generations)@ },
            );
            &&& final(k)@ == asked
            &&& init_run::came_to(
                outcome,
                Defined { state: final(runtime).state, generations: final(generations)@ },
                result,
            )
        }),
{
    announce(k, Text::DefinitionServiceRestarting)?;
    backoff(k, runtime.definition.restart_backoff_yields)?;
    let started = start_definition_service(k, runtime, generations)?;
    runtime.state.restart_deferred = deferred(&runtime.definition, runtime.state, started);
    Ok(started)
}

/// Starting the service, and once more if it ends at once and may: whether it is ready.
pub open spec fn converge_run(k: kernel::Transcript, definition: Definition, defined: Defined) -> Run<
    (Defined, Result<bool, DefinitionServiceError>),
> {
    init_run::bind(
        start_run(k, definition, defined),
        |
            k: kernel::Transcript,
            started: (Defined, Result<DefinitionStartOutcome, DefinitionServiceError>),
        |
            match started.1 {
                Err(error) => init_run::end(k, (started.0, Err(error))),
                Ok(DefinitionStartOutcome::Ready) => init_run::end(k, (started.0, Ok(true))),
                Ok(DefinitionStartOutcome::Exited { successful }) => retry_run(
                    k,
                    definition,
                    started.0,
                    successful,
                ),
            },
    )
}

/// Starting a service once more that ended at once, if it may.
pub open spec fn retry_run(
    k: kernel::Transcript,
    definition: Definition,
    defined: Defined,
    successful: bool,
) -> Run<(Defined, Result<bool, DefinitionServiceError>)> {
    let (paid, left) = charged(defined.state, definition.restart_limit);
    if !selects_restart(definition.restart_policy, successful) || !left {
        init_run::end(k, (defined, Ok(false)))
    } else {
        init_run::bind(
            restart_run(k, definition, Defined { state: paid, ..defined }),
            |
                k: kernel::Transcript,
                restarted: (Defined, Result<DefinitionStartOutcome, DefinitionServiceError>),
            |
                init_run::end(
                    k,
                    (
                        restarted.0,
                        Ok(
                            restarted.1 == Ok::<_, DefinitionServiceError>(
                                DefinitionStartOutcome::Ready,
                            ),
                        ),
                    ),
                ),
        )
    }
}

pub fn converge_definition_service_start(
    k: &mut Kernel,
    runtime: &mut DefinitionServiceRuntime,
    generations: &mut ProviderGenerationSequence,
) -> (result: Result<Result<bool, DefinitionServiceError>, Halt>)
    ensures
        final(runtime).definition == old(runtime).definition,
        ({
            let (asked, outcome) = converge_run(
                old(k)@,
                old(runtime).definition@,
                Defined { state: old(runtime).state, generations: old(generations)@ },
            );
            &&& final(k)@ == asked
            &&& init_run::came_to(
                outcome,
                Defined { state: final(runtime).state, generations: final(generations)@ },
                result,
            )
        }),
{
    let successful = match start_definition_service(k, runtime, generations)? {
        Err(error) => {
            return Ok(Err(error));
        },
        Ok(DefinitionStartOutcome::Ready) => {
            return Ok(Ok(true));
        },
        Ok(DefinitionStartOutcome::Exited { successful }) => successful,
    };
    let limit: u32 = runtime.definition.restart_limit;
    if !selects_restart(runtime.definition.restart_policy, successful)
        || !definition_service_consume_restart(&mut runtime.state, limit) {
        return Ok(Ok(false));
    }
    match restart(k, runtime, generations)? {
        Ok(DefinitionStartOutcome::Ready) => Ok(Ok(true)),
        _ => Ok(Ok(false)),
    }
}

/// Looking at the process of the service. Whether to go on: what ended was cleared away, and
/// there is nothing to wait for.
pub open spec fn poll_process_run(
    k: kernel::Transcript,
    definition: Definition,
    state: DefinitionState,
    process_id: ProcessId,
) -> Run<(DefinitionState, bool)> {
    init_run::bind(
        init_run::hear_run(syscall::try_wait_run(k, process_id)),
        |k: kernel::Transcript, polled: Result<ChildStatus, ipc::Error>|
            match polled {
                Ok(status) => if status.continued() || status.stopped_signal() is Some {
                    init_run::end(k, (state, true))
                } else {
                    clear_run(
                        k,
                        DefinitionState {
                            restart_deferred: selects_restart(
                                definition.restart_policy,
                                status.success(),
                            ),
                            ..state
                        },
                        true,
                    )
                },
                Err(error) => if init_run::not_yet(error) {
                    init_run::end(k, (state, false))
                } else if error == ipc::Error::no_child() {
                    clear_run(
                        k,
                        DefinitionState {
                            restart_deferred: selects_restart(definition.restart_policy, false),
                            ..state
                        },
                        true,
                    )
                } else {
                    init_run::bind(
                        init_run::announce_run(k, Text::DefinitionServiceFailed),
                        |k: kernel::Transcript, said: ()| init_run::end(k, (state, false)),
                    )
                },
            },
    )
}

/// Whether something is left of a process that has ended.
#[verifier::allow_in_spec]
pub fn has_remains(state: DefinitionState) -> bool
    returns
        state.process_group_id is Some || state.job is Some || state.readiness_endpoint is Some
            || state.generation is Some,
{
    state.process_group_id.is_some() || state.job.is_some() || state.readiness_endpoint.is_some()
        || state.generation.is_some()
}

/// Looking at the service. Whether to go on.
pub open spec fn poll_state_run(
    k: kernel::Transcript,
    definition: Definition,
    state: DefinitionState,
) -> Run<(DefinitionState, bool)> {
    match state.process_id {
        Some(process_id) => poll_process_run(k, definition, state, process_id),
        None => if has_remains(state) {
            clear_run(k, state, true)
        } else {
            init_run::end(k, (state, true))
        },
    }
}

/// Starting the service again if that was put off, its dependencies are ready and a restart is
/// left.
pub open spec fn deferred_restart_run(
    k: kernel::Transcript,
    definition: Definition,
    defined: Defined,
    dependencies_ready: bool,
) -> Run<(Defined, ())> {
    let (paid, left) = charged(defined.state, definition.restart_limit);
    if !defined.state.restart_deferred || !dependencies_ready {
        init_run::end(k, (defined, ()))
    } else if !left {
        init_run::bind(
            init_run::announce_run(k, Text::DefinitionServiceFailed),
            |k: kernel::Transcript, said: ()|
                init_run::end(
                    k,
                    (
                        Defined {
                            state: DefinitionState { restart_deferred: false, ..defined.state },
                            ..defined
                        },
                        (),
                    ),
                ),
        )
    } else {
        init_run::bind(
            restart_run(k, definition, Defined { state: paid, ..defined }),
            |
                k: kernel::Transcript,
                restarted: (Defined, Result<DefinitionStartOutcome, DefinitionServiceError>),
            |
                if restarted.1 == Ok::<_, DefinitionServiceError>(DefinitionStartOutcome::Ready)
                    || restarted.0.state.restart_deferred {
                    init_run::end(k, (restarted.0, ()))
                } else {
                    init_run::bind(
                        init_run::announce_run(k, Text::DefinitionServiceFailed),
                        |k: kernel::Transcript, said: ()| init_run::end(k, (restarted.0, ())),
                    )
                },
        )
    }
}

/// One look at the service, with everything that follows from it.
pub open spec fn poll_run(
    k: kernel::Transcript,
    definition: Definition,
    defined: Defined,
    dependencies_ready: bool,
) -> Run<(Defined, ())> {
    init_run::bind(
        retry_cleanup_run(k, defined.state),
        |k: kernel::Transcript, retried: (DefinitionState, bool)|
            if !retried.1 {
                init_run::end(k, (Defined { state: retried.0, ..defined }, ()))
            } else {
                init_run::bind(
                    poll_state_run(k, definition, retried.0),
                    |k: kernel::Transcript, polled: (DefinitionState, bool)|
                        if !polled.1 {
                            init_run::end(k, (Defined { state: polled.0, ..defined }, ()))
                        } else {
                            deferred_restart_run(
                                k,
                                definition,
                                Defined { state: polled.0, ..defined },
                                dependencies_ready,
                            )
                        },
                )
            },
    )
}

fn poll_state(k: &mut Kernel, runtime: &mut DefinitionServiceRuntime) -> (result: Result<
    bool,
    Halt,
>)
    ensures
        final(runtime).definition == old(runtime).definition,
        ({
            let (asked, outcome) = poll_state_run(
                old(k)@,
                old(runtime).definition@,
                old(runtime).state,
            );
            &&& final(k)@ == asked
            &&& init_run::came_to(outcome, final(runtime).state, result)
        }),
{
    let process_id: u64 = match runtime.state.process_id {
        None => {
            if has_remains(runtime.state) {
                return clear_definition_service_process(k, &mut runtime.state, true);
            }
            return Ok(true);
        },
        Some(process_id) => process_id,
    };
    let policy = runtime.definition.restart_policy;
    match hear(try_wait_child(k, process_id))? {
        Ok(status) => {
            if status.continued() || status.stopped_signal().is_some() {
                return Ok(true);
            }
            runtime.state.restart_deferred = selects_restart(policy, status.success());
            clear_definition_service_process(k, &mut runtime.state, true)
        },
        Err(error) => {
            if init_run::not_yet(error) {
                return Ok(false);
            }
            if error == ipc::Error::no_child() {
                runtime.state.restart_deferred = selects_restart(policy, false);
                return clear_definition_service_process(k, &mut runtime.state, true);
            }
            announce(k, Text::DefinitionServiceFailed)?;
            Ok(false)
        },
    }
}

pub fn poll_definition_service(
    k: &mut Kernel,
    runtime: &mut DefinitionServiceRuntime,
    generations: &mut ProviderGenerationSequence,
    dependencies_ready: bool,
) -> (result: Result<(), Halt>)
    ensures
        final(runtime).definition == old(runtime).definition,
        ({
            let (asked, outcome) = poll_run(
                old(k)@,
                old(runtime).definition@,
                Defined { state: old(runtime).state, generations: old(generations)@ },
                dependencies_ready,
            );
            &&& final(k)@ == asked
            &&& init_run::came_to(
                outcome,
                Defined { state: final(runtime).state, generations: final(generations)@ },
                result,
            )
        }),
{
    if !retry_cleanup(k, &mut runtime.state)? {
        return Ok(());
    }
    if !poll_state(k, runtime)? {
        return Ok(());
    }
    if !runtime.state.restart_deferred || !dependencies_ready {
        return Ok(());
    }
    let limit: u32 = runtime.definition.restart_limit;
    if !definition_service_consume_restart(&mut runtime.state, limit) {
        runtime.state.restart_deferred = false;
        return announce(k, Text::DefinitionServiceFailed);
    }
    match restart(k, runtime, generations)? {
        Ok(DefinitionStartOutcome::Ready) => {},
        _ => {
            if !runtime.state.restart_deferred {
                return announce(k, Text::DefinitionServiceFailed);
            }
        },
    }
    Ok(())
}

/// A definition that is let through says when its service is ready and is started again only
/// after a failure.
pub proof fn lemma_admitted_definition_is_the_permitted_one(parsed: Option<Definition>)
    requires
        admitted(parsed) is Ok,
    ensures
        parsed == Some(permitted()),
        permitted().ready_message is Some,
        permitted().restart_policy == RestartPolicy::OnFailure,
{
}

/// No look at the service takes more restarts than its definition allows.
pub proof fn lemma_restarts_stay_within_the_limit(
    k: kernel::Transcript,
    definition: Definition,
    defined: Defined,
    dependencies_ready: bool,
)
    requires
        defined.state.restart_count <= definition.restart_limit,
        poll_run(k, definition, defined, dependencies_ready).1 is Ok,
    ensures
        ({
            let next = poll_run(k, definition, defined, dependencies_ready).1->Ok_0.0.state;
            &&& defined.state.restart_count <= next.restart_count <= definition.restart_limit
            &&& next.restart_count <= defined.state.restart_count + 1
            &&& !dependencies_ready ==> next.restart_count == defined.state.restart_count
        }),
{
    let (retried, first) = retry_cleanup_run(k, defined.state);
    if let Ok((state, true)) = first {
        let (polled, second) = poll_state_run(retried, definition, state);
        if let Ok((state, true)) = second {
            let paid = charged(state, definition.restart_limit).0;
            lemma_restart_keeps_the_count(
                polled,
                definition,
                Defined { state: paid, ..defined },
            );
        }
    }
}

proof fn lemma_restart_keeps_the_count(
    k: kernel::Transcript,
    definition: Definition,
    defined: Defined,
)
    ensures
        restart_run(k, definition, defined).1 is Ok ==> restart_run(
            k,
            definition,
            defined,
        ).1->Ok_0.0.state.restart_count == defined.state.restart_count,
{
    let (said, _) = init_run::announce_run(k, Text::DefinitionServiceRestarting);
    let (rested, _) = init_run::backoff_run(said, definition.restart_backoff_yields as nat);
    lemma_start_keeps_the_count(rested, definition, defined);
}

proof fn lemma_start_keeps_the_count(
    k: kernel::Transcript,
    definition: Definition,
    defined: Defined,
)
    ensures
        start_run(k, definition, defined).1 is Ok ==> start_run(
            k,
            definition,
            defined,
        ).1->Ok_0.0.state.restart_count == defined.state.restart_count,
{
    if let Ok(generation) = identity::generation_after(defined.generations) {
        let (launched, part) = launch_part(k, definition, defined.state, generation);
        lemma_launch_keeps_the_count(k, definition, defined.state, generation);
        if let Ok(Ok((attempt, process_id))) = part {
            if let Some(message) = definition.ready_message {
                if let Some(endpoint) = attempt.readiness_source {
                    lemma_await_keeps_the_count(
                        launched,
                        defined.state,
                        attempt,
                        process_id,
                        generation,
                        endpoint,
                        message,
                        DEFINITION_SERVICE_READINESS_GRACE_YIELDS,
                    );
                }
            }
        }
    }
}

#[verifier::spinoff_prover]
#[verifier::rlimit(60)]
proof fn lemma_launch_keeps_the_count(
    k: kernel::Transcript,
    definition: Definition,
    state: DefinitionState,
    generation: ProviderGeneration,
)
    ensures
        launch_part(k, definition, state, generation).1 matches Ok(Err(ended)) ==> (
        ended.state.restart_count == state.restart_count),
{
    let (jobbed, job) = job_part(k, state);
    if let Ok(Ok(attempt)) = job {
        let (queued, queue) = generation_part(jobbed, state, attempt, generation);
        if let Ok(Ok(attempt)) = queue {
            let (listening, ready) = readiness_part(
                queued,
                state,
                attempt,
                definition.ready_message is Some,
            );
            if let Ok(Ok(attempt)) = ready {
                let (paired, pair) = bootstrap_part(listening, state, attempt);
                if let Ok(Ok(attempt)) = pair {
                    lemma_release_keeps_the_count(paired, definition, state, attempt, generation);
                }
            }
        }
    }
}

#[verifier::spinoff_prover]
proof fn lemma_release_keeps_the_count(
    k: kernel::Transcript,
    definition: Definition,
    state: DefinitionState,
    attempt: ActivationAttempt,
    generation: ProviderGeneration,
)
    ensures
        spawn_release_part(k, definition, state, attempt, generation).1 matches Ok(Err(ended)) ==> (
        ended.state.restart_count == state.restart_count),
{
}

proof fn lemma_await_keeps_the_count(
    k: kernel::Transcript,
    state: DefinitionState,
    attempt: ActivationAttempt,
    process_id: ProcessId,
    generation: ProviderGeneration,
    endpoint: CapabilityHandle,
    message: Seq<u8>,
    patience: u32,
)
    ensures
        await_run(
            k,
            state,
            attempt,
            process_id,
            generation,
            endpoint,
            message,
            patience,
        ).1 matches Ok(ended) ==> (ended.state.restart_count == state.restart_count),
    decreases patience,
{
    let (looked, result) = look_run(
        k,
        state,
        attempt,
        process_id,
        generation,
        endpoint,
        message,
        patience,
    );
    if result == Ok::<Option<Ended>, Halt>(None) && patience > 0 {
        lemma_await_keeps_the_count(
            looked,
            state,
            attempt,
            process_id,
            generation,
            endpoint,
            message,
            (patience - 1) as u32,
        );
    }
}

/// Whether a service that ended with this status is to be started again: never, always, or exactly
/// if it did not end well.
pub open spec fn is_wanted_back(policy: RestartPolicy, status: u64) -> bool {
    ||| policy == RestartPolicy::Always
    ||| policy == RestartPolicy::OnFailure && status != 0
}

/// What becomes of a service whose process has ended. A service that is not wanted back is not
/// started again: no process is started, no restart is taken from the budget, and none is put
/// off. A service that is wanted back takes one restart or has it put off, as long as its budget
/// lasts; only with its dependencies ready it takes one.
#[verifier::rlimit(30)]
pub proof fn lemma_ended_service_is_restarted_by_its_policy(
    k: kernel::Transcript,
    definition: Definition,
    defined: Defined,
    dependencies_ready: bool,
    process_id: ProcessId,
    status: u64,
)
    requires
        defined.state.cleanup_attempt is None,
        defined.state.process_id == Some(process_id),
        k.reply() is Some,
        ipc::decoded(k.reply()->Some_0.result) == Ok::<u64, ipc::Error>(status),
        !(ChildStatus { raw: status }).continued(),
        (ChildStatus { raw: status }).stopped_signal() is None,
    ensures
        ({
            let (after, outcome) = poll_run(k, definition, defined, dependencies_ready);
            let count = defined.state.restart_count;
            outcome matches Ok((next, _)) ==> {
                &&& after.follows(k)
                &&& after.asked_since(k, Op::TryWaitChild { process_id })
                &&& !is_wanted_back(definition.restart_policy, status) ==> {
                    &&& trace::idle(k, after)
                    &&& next.state.restart_count == count
                    &&& !next.state.restart_deferred
                    &&& next.state.process_id is None
                    &&& next.generations == defined.generations
                }
                &&& is_wanted_back(definition.restart_policy, status) ==> {
                    ||| next.state.restart_count == count && next.state.restart_deferred
                        && next.state.process_id is None && trace::idle(k, after)
                    ||| next.state.restart_count == count + 1 && dependencies_ready
                    ||| next.state.restart_count == count && count >= definition.restart_limit
                        && dependencies_ready && trace::idle(k, after)
                }
            }
        }),
{
    broadcast use {
        trace::group_calm,
        trace::group_idle,
        trace::lemma_definition_service_clear_run,
        trace::lemma_definition_service_deferred_restart_run,
        trace::lemma_init_run_announce_run,
    };

    let (waited, polled) = syscall::try_wait_run(k, process_id);
    let ended = DefinitionState {
        restart_deferred: is_wanted_back(definition.restart_policy, status),
        ..defined.state
    };
    let (cleared, outcome) = clear_run(waited, ended, true);
    assert(trace::idle(k, cleared));
    let (after, result) = poll_run(k, definition, defined, dependencies_ready);
    assert(trace::calm(k, after));
    assert(waited.asked[k.asked.len() as int].op == Op::TryWaitChild { process_id });
    lemma_clear_keeps_the_restart(waited, ended);
    if let Ok((state, true)) = outcome {
        let paid = charged(state, definition.restart_limit).0;
        lemma_restart_keeps_the_count(cleared, definition, Defined { state: paid, ..defined });
    }
    if result is Ok {
        reveal(trace::calm);
        assert(trace::calm(waited, after));
        assert(after.asked[k.asked.len() as int].op == Op::TryWaitChild { process_id });
    }
}

proof fn lemma_clear_keeps_the_restart(k: kernel::Transcript, state: DefinitionState)
    ensures
        clear_run(k, state, true).1 matches Ok((next, _)) ==> {
            &&& next.restart_count == state.restart_count
            &&& next.restart_deferred == state.restart_deferred
            &&& next.process_id is None
        },
{
    if let Some(job) = state.job {
        reveal(service_teardown::drain_run);
        service_teardown::lemma_clean_drain_leaves_no_leader(
            k,
            Service::Definition,
            job,
            None,
            Text::DefinitionServiceJobDrained,
            false,
            service_teardown::SERVICE_JOB_CLEANUP_YIELDS as nat,
            state.cleanup_budget_reported,
        );
    }
}

/// A service whose process has not ended is left alone: nothing is started, and what is held of
/// it stays as it is.
pub proof fn lemma_running_service_is_left_alone(
    k: kernel::Transcript,
    definition: Definition,
    defined: Defined,
    dependencies_ready: bool,
    process_id: ProcessId,
)
    requires
        defined.state.cleanup_attempt is None,
        defined.state.process_id == Some(process_id),
        k.reply() is Some,
        ipc::decoded(k.reply()->Some_0.result) matches Err(error) && init_run::not_yet(error),
    ensures
        ({
            let (after, outcome) = poll_run(k, definition, defined, dependencies_ready);
            &&& outcome == Ok::<(Defined, ()), Halt>((defined, ()))
            &&& trace::idle(k, after)
        }),
{
    broadcast use trace::group_idle;

}

/// Whether a defined service was brought up between two points, as this process: its executable
/// was started, the process got an endpoint to learn its start from, and it said that it is ready
/// if its definition has it say so.
pub open spec fn brought_up(
    before: kernel::Transcript,
    after: kernel::Transcript,
    definition: Definition,
    process_id: ProcessId,
) -> bool {
    &&& trace::did(
        before,
        after,
        Deed::Spawned { command: definition.executable, process_id },
    )
    &&& exists|receiver: CapabilityHandle|
        trace::did(
            before,
            after,
            #[trigger] contained_service::handing(
                process_id,
                receiver,
                Rights::receive(),
                PROCESS_START_BOOTSTRAP_HANDLE,
            ),
        )
    &&& definition.ready_message matches Some(message) ==> exists|endpoint: CapabilityHandle|
        #[trigger] trace::did(before, after, Deed::Heard { endpoint, process_id, message })
}

#[verifier::rlimit(30)]
proof fn lemma_launched_service_was_started(
    k: kernel::Transcript,
    definition: Definition,
    state: DefinitionState,
    attempt: ActivationAttempt,
    generation: ProviderGeneration,
)
    requires
        spawn_release_part(k, definition, state, attempt, generation).1 matches Ok(Ok(_)),
    ensures
        ({
            let (after, launched) = spawn_release_part(k, definition, state, attempt, generation);
            let (released, process_id) = launched->Ok_0->Ok_0;
            &&& released.process_id == Some(process_id)
            &&& released.readiness_source == attempt.readiness_source
            &&& trace::did(
                k,
                after,
                Deed::Spawned { command: definition.executable, process_id },
            )
            &&& attempt.bootstrap_receiver matches Some(receiver) && trace::did(
                k,
                after,
                contained_service::handing(
                    process_id,
                    receiver,
                    Rights::receive(),
                    PROCESS_START_BOOTSTRAP_HANDLE,
                ),
            )
        }),
{
    broadcast use {
        trace::group_did,
        trace::lemma_syscall_barrier_run,
        trace::lemma_activation_say_if_run,
        trace::lemma_activation_assign_run,
        trace::lemma_activation_release_child_run,
        trace::lemma_definition_service_spawn_part,
        trace::lemma_definition_service_release_part,
        trace::lemma_service_launch_definition_start_run,
    };

    reveal(activation::spawn_child_run);
    reveal(activation::assign_run);
    reveal(activation::release_child_run);
    let (barred, barrier) = syscall::barrier_run(k);
    let said = activation::say_if_run(barred, Some(Text::DefinitionServiceStarting)).0;
    trace::lemma_spawned(said, false, barrier->Some_0->Ok_0.handle, definition.executable);
    let (started, spawned) = spawn_part(k, state, attempt, definition.executable);
    let (held, process_id) = spawned->Ok_0->Ok_0;
    let receiver = held.bootstrap_receiver->Some_0;
    let handed = contained_service::handing(
        process_id,
        receiver,
        Rights::receive(),
        PROCESS_START_BOOTSTRAP_HANDLE,
    );
    trace::lemma_called(started, handed->Called_op, seq![], seq![]);
}

proof fn lemma_ready_service_said_so(
    k: kernel::Transcript,
    state: DefinitionState,
    attempt: ActivationAttempt,
    process_id: ProcessId,
    generation: ProviderGeneration,
    endpoint: CapabilityHandle,
    message: Seq<u8>,
    patience: u32,
)
    ensures
        ({
            let (after, waited) = await_run(
                k,
                state,
                attempt,
                process_id,
                generation,
                endpoint,
                message,
                patience,
            );
            waited matches Ok(ended) ==> (ended.result == Ok::<_, DefinitionServiceError>(
                DefinitionStartOutcome::Ready,
            ) ==> {
                &&& ended.state == adopted(state, attempt, generation)
                &&& trace::did(k, after, Deed::Heard { endpoint, process_id, message })
            })
        }),
    decreases patience,
{
    broadcast use {
        trace::group_did,
        trace::lemma_init_run_announce_run,
        trace::lemma_procedure_quiet_received_run,
        trace::lemma_definition_service_look_run,
    };

    let (looked, result) = look_run(
        k,
        state,
        attempt,
        process_id,
        generation,
        endpoint,
        message,
        patience,
    );
    match result {
        Ok(Some(ended)) => {
            if ended.result == Ok::<_, DefinitionServiceError>(DefinitionStartOutcome::Ready) {
                trace::lemma_heard(k, endpoint, MAX_IPC_MESSAGE_BYTES);
            }
        },
        Ok(None) => {
            if patience > 0 {
                lemma_ready_service_said_so(
                    looked,
                    state,
                    attempt,
                    process_id,
                    generation,
                    endpoint,
                    message,
                    (patience - 1) as u32,
                );
            }
        },
        Err(_) => {},
    }
}

/// A defined service that is ready was brought up, as the process and in the generation that it
/// is known by from then on.
#[verifier::spinoff_prover]
#[verifier::rlimit(30)]
pub proof fn lemma_ready_service_was_brought_up(
    k: kernel::Transcript,
    definition: Definition,
    state: DefinitionState,
    generation: ProviderGeneration,
)
    ensures
        ({
            let (after, started) = start_with_run(k, definition, state, generation);
            started matches Ok(ended) ==> (ended.result == Ok::<_, DefinitionServiceError>(
                DefinitionStartOutcome::Ready,
            ) ==> {
                &&& ended.state.generation == Some(generation)
                &&& ended.state.restart_count == state.restart_count
                &&& ended.state.process_id matches Some(process_id) && brought_up(
                    k,
                    after,
                    definition,
                    process_id,
                )
            })
        }),
{
    broadcast use {
        trace::group_did,
        trace::lemma_init_run_announce_run,
        trace::lemma_definition_service_job_part,
        trace::lemma_definition_service_generation_part,
        trace::lemma_definition_service_readiness_part,
        trace::lemma_definition_service_bootstrap_part,
        trace::lemma_definition_service_spawn_release_part,
        trace::lemma_definition_service_await_run,
        trace::lemma_definition_service_ready_run,
    };

    let (after, started) = start_with_run(k, definition, state, generation);
    if let Ok(ended) = started {
        if ended.result == Ok::<_, DefinitionServiceError>(DefinitionStartOutcome::Ready) {
            let (jobbed, job) = job_part(k, state);
            let (queued, queue) = generation_part(jobbed, state, job->Ok_0->Ok_0, generation);
            let (listening, ready) = readiness_part(
                queued,
                state,
                queue->Ok_0->Ok_0,
                definition.ready_message is Some,
            );
            let (paired, pair) = bootstrap_part(listening, state, ready->Ok_0->Ok_0);
            let (launched, launch) = spawn_release_part(
                paired,
                definition,
                state,
                pair->Ok_0->Ok_0,
                generation,
            );
            assert(launch_part(k, definition, state, generation).1 matches Ok(Ok(_)));
            lemma_launched_service_was_started(
                paired,
                definition,
                state,
                pair->Ok_0->Ok_0,
                generation,
            );
            let (attempt, process_id) = launch->Ok_0->Ok_0;
            let receiver = pair->Ok_0->Ok_0.bootstrap_receiver->Some_0;
            assert(trace::mild(launched, after));
            assert(trace::did(
                k,
                after,
                contained_service::handing(
                    process_id,
                    receiver,
                    Rights::receive(),
                    PROCESS_START_BOOTSTRAP_HANDLE,
                ),
            ));
            if let Some(message) = definition.ready_message {
                let endpoint = attempt.readiness_source->Some_0;
                lemma_ready_service_said_so(
                    launched,
                    state,
                    attempt,
                    process_id,
                    generation,
                    endpoint,
                    message,
                    DEFINITION_SERVICE_READINESS_GRACE_YIELDS,
                );
                assert(trace::did(k, after, Deed::Heard { endpoint, process_id, message }));
            }
        }
    }
}

} // verus!
