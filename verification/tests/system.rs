use std::collections::{BTreeMap, VecDeque};
use userspace::abi;
use userspace::boot::{begin, boot, service_specs, System};
use userspace::boot_mode::InitBootMode;
use userspace::control_protocol::{
    DesiredState, ListOutcome, ListResponse, ObservedState, RequestId, ServiceControlFailure,
    ServiceControlMessage, ServiceControlRequest,
    ServiceControlResponse, TargetOutcome,
};
use userspace::definition_service::{
    admit_definition, definition_executable_path, definition_managed_argument,
    definition_ready_message, definition_service_id, definition_service_name,
    DefinitionServiceError, Readiness, RestartPolicy, ServiceDefinition,
    DEFINITION_RESTART_BACKOFF_YIELDS, DEFINITION_RESTART_LIMIT,
};
use userspace::init_run::Halt;
use userspace::init_text::Text;
use userspace::identity::ProviderGeneration;
use userspace::ipc::{Error, ObjectKind, Rights};
use userspace::kernel::{Answer, Attachment, Call, Kernel, Op};
use userspace::lifecycle_protocol::{
    CrashTestMessage, LifecycleMessage, CLEAN_UNMOUNTED, MUTATION_REACHED, QUIESCE, QUIESCED,
    UNMOUNT,
};
use userspace::logging_session::{
    AcceptError, ClientBootstrap, ClientConnectError, ConnectStatus, ServerIngress,
    ServerIngressEvent, SessionRole,
};
use userspace::managed_startup::{
    initialize_managed_tool_start, receive_capability_managed_tool_start,
    send_managed_tool_start, send_managed_tool_start_with_capabilities, ManagedToolCapability,
    ManagedToolCommand, ManagedToolStartError, ManagedToolStartMode, ManagedToolStartOrigin,
};
use userspace::nullfs_probes::{CRASH_STATUS, DEVICE_LOSS_STATUS, NULLFS_PRIMARY_VOLUME};
use userspace::route_broker::{
    logging_observer_key, logging_producer_key, RouteBrokerState,
};
use userspace::packet::TryRecvError;
use userspace::route_protocol::RouteMessage;
use userspace::runtime_context::StartupCapabilityPolicy;
use userspace::service_control::{
    logging_service_id, nullfs_service_id, service_id, tmpfs_service_id, vfs_service_id,
};
use userspace::service_route::{
    queue_service_generation, receive_service_generation, GenerationHandoffReceiveError,
};
use userspace::startup_record::CapabilityRole;
use userspace::supervision::{complete_boot, Supervisor};
use userspace::supervisor::ServiceState;

struct Message {
    sender: u64,
    bytes: Vec<u8>,
    attached: Vec<Attachment>,
}

struct Object {
    kind: u64,
    messages: VecDeque<Message>,
    members: Vec<u64>,
    exits: VecDeque<u64>,
}

struct Process {
    command: Vec<u8>,
    barrier: u64,
    grants: BTreeMap<u64, u64>,
    status: Option<u64>,
    reaped: bool,
    changes: VecDeque<u64>,
    stopped: bool,
    reply: Option<u64>,
    told: bool,
}

/// A machine that runs just as much as the first process needs.
struct Machine {
    mode: &'static [u8],
    definition: Vec<u8>,
    objects: Vec<Object>,
    handles: BTreeMap<u64, Attachment>,
    next_handle: u64,
    processes: BTreeMap<u64, Process>,
    failing: Vec<&'static [u8]>,
    definitions_run: u32,
    output: Vec<u8>,
    providers: BTreeMap<u64, u64>,
    device_lost: bool,
    lively: bool,
}

const DEVICE_RIGHTS: u64 = abi::RIGHT_SEND | abi::RIGHT_TRANSFER;

fn answer(result: u64) -> Answer {
    Answer { result, words: [0; 4], bytes: Vec::new(), attached: Vec::new() }
}

fn failure(error: Error) -> Answer {
    answer((-i64::from(error.code())) as u64)
}

fn words(words: [u64; 4]) -> Answer {
    Answer { words, ..answer(0) }
}

impl Machine {
    fn new(mode: &'static [u8]) -> Self {
        Machine {
            mode,
            definition: b"definition".to_vec(),
            objects: Vec::new(),
            handles: BTreeMap::new(),
            next_handle: 100,
            processes: BTreeMap::new(),
            failing: Vec::new(),
            definitions_run: 0,
            output: Vec::new(),
            providers: BTreeMap::new(),
            device_lost: false,
            lively: false,
        }
    }

    fn create(&mut self, kind: u64) -> u64 {
        self.objects.push(Object {
            kind,
            messages: VecDeque::new(),
            members: Vec::new(),
            exits: VecDeque::new(),
        });
        self.objects.len() as u64
    }

    fn object(&mut self, object: u64) -> &mut Object {
        &mut self.objects[object as usize - 1]
    }

    fn install(&mut self, object: u64, rights: u64) -> u64 {
        self.next_handle += 1;
        self.handles.insert(self.next_handle, (object, rights));
        self.next_handle
    }

    fn held(&self, handle: u64, rights: u64) -> u64 {
        let (object, present) = self.handles[&handle];
        assert_eq!(present & rights, rights);
        object
    }

    fn send(&mut self, object: u64, sender: u64, bytes: &[u8], attached: Vec<Attachment>) {
        self.object(object).messages.push_back(Message {
            sender,
            bytes: bytes.to_vec(),
            attached,
        });
    }

    fn end(&mut self, process_id: u64, status: u64) {
        self.processes.get_mut(&process_id).unwrap().status = Some(status);
        for object in &mut self.objects {
            if object.members.contains(&process_id) {
                object.members.retain(|member| *member != process_id);
                object.exits.push_back(process_id);
            }
        }
    }

    /// A service says that it is ready, and every other program ends well.
    fn run(&mut self, process_id: u64) {
        let command = self.processes[&process_id].command.clone();
        let first = self.processes[&process_id].grants.get(&1).copied();
        if self.failing.iter().any(|name| command.starts_with(name)) {
            return self.end(process_id, 1);
        }
        let ready: &[(&[u8], Text, bool)] = &[
            (b"/logging-service", Text::LoggingServiceReadyMessage, false),
            (b"/nullfs-service", Text::NullfsServiceReadyMessage, false),
            (b"/tmpfs-service", Text::TmpfsServiceReadyMessage, true),
            (b"/vfs-service", Text::VfsServiceReadyMessage, true),
        ];
        for (name, message, managed) in ready {
            if command == Text::LoggingServiceSuppressReadinessCommand.as_bytes() {
                return;
            }
            if command.starts_with(name) {
                let mut endpoint = first.unwrap();
                if *managed {
                    endpoint = self.object(endpoint).messages[0].attached[0].0;
                }
                return self.send(endpoint, process_id, message.as_bytes(), Vec::new());
            }
        }
        if command == definition_executable_path() {
            self.definitions_run += 1;
            if self.definitions_run == 1 {
                return self.end(process_id, 1);
            }
            let endpoint = self.object(first.unwrap()).messages[0].attached[1].0;
            return self.send(endpoint, process_id, definition_ready_message(), Vec::new());
        }
        if self.lively && self.begin(process_id, &command) {
            return;
        }
        if command != Text::ShellCommand.as_bytes() {
            self.end(process_id, 0);
        }
    }

    /// Starts a program that does more than to end. Tells whether this is one.
    fn begin(&mut self, process_id: u64, command: &[u8]) -> bool {
        let grants = self.processes[&process_id].grants.clone();
        let greetings: [(Text, u64, Text); 4] = [
            (Text::LoggingStressProbeCommand, 3, Text::LoggingProbeBound),
            (Text::NullfsRestartProbeCommand, 1, Text::NullfsRestartProbeReady),
            (Text::VfsCrashRecoveryProbeCommand, 1, Text::VfsCrashRecoveryReady),
            (Text::VfsBlockDeviceLossProbeCommand, 2, Text::VfsBlockDeviceLossProbeReady),
        ];
        for (name, handle, greeting) in greetings {
            if command == name.as_bytes() {
                self.send(grants[&handle], process_id, greeting.as_bytes(), Vec::new());
                return true;
            }
        }
        let Some(request) = requested(command) else {
            return false;
        };
        let message = ServiceControlMessage::request(RequestId::new(9).unwrap(), request);
        let reply = self.create(abi::KIND_ENDPOINT);
        let ingress = *grants.values().next().unwrap();
        let attached = vec![(reply, abi::RIGHT_SEND)];
        self.send(ingress, process_id, &message.encode(), attached);
        self.processes.get_mut(&process_id).unwrap().reply = Some(reply);
        true
    }

    /// Every program that runs does something.
    fn tick(&mut self) {
        if !self.lively {
            return;
        }
        let running: Vec<u64> = self
            .processes
            .iter()
            .filter(|(_, process)| process.status.is_none() && !process.stopped)
            .map(|(process_id, _)| *process_id)
            .collect();
        for process_id in running {
            self.act(process_id);
        }
    }

    fn take(&mut self, object: u64) -> Option<Vec<u8>> {
        self.object(object).messages.pop_front().map(|message| message.bytes)
    }

    fn tell(&mut self, object: u64, process_id: u64, text: Text) {
        self.send(object, process_id, text.as_bytes(), Vec::new());
    }

    fn act(&mut self, process_id: u64) {
        let process = &self.processes[&process_id];
        let command = process.command.clone();
        let grants = process.grants.clone();
        let told = process.told;
        if let Some(reply) = process.reply {
            if let Some(bytes) = self.take(reply) {
                let status = if is_success(&bytes) { 0 } else { 1 };
                self.end(process_id, status);
            }
        } else if command.starts_with(b"/logging-service") {
            self.object(grants[&2]).messages.clear();
            self.object(grants[&3]).messages.clear();
        } else if command.starts_with(b"/nullfs-service") {
            self.serve(process_id, &grants);
        } else if command == Text::LoggingStressProbeCommand.as_bytes() {
            let producer = self.process_of(b"/logging-service");
            let producer = self.processes[&producer].grants[&2];
            if told && self.object(producer).messages.is_empty() {
                self.end(process_id, 0);
            } else if let Some(bytes) = self.take(grants[&4]) {
                assert_eq!(bytes, Text::LoggingProbeFillQueue.as_bytes());
                for _ in 0..8 {
                    self.send(producer, process_id, b"record", Vec::new());
                }
                self.tell(grants[&3], process_id, Text::LoggingProbeBackpressure);
                self.processes.get_mut(&process_id).unwrap().told = true;
            }
        } else if command == Text::NullfsRestartProbeCommand.as_bytes() {
            if self.take(grants[&2]).is_some() {
                self.end(process_id, 0);
            }
        } else if command == Text::VfsCrashRecoveryProbeCommand.as_bytes() {
            if let Some(bytes) = self.take(grants[&2]) {
                if bytes == Text::VfsCrashRecoveryReplacement.as_bytes() {
                    return self.end(process_id, 0);
                }
                assert_eq!(bytes, Text::VfsCrashRecoveryGo.as_bytes());
                self.tell(grants[&1], process_id, Text::VfsCrashRecoveryMutationFailed);
            }
        } else if command == Text::VfsBlockDeviceLossProbeCommand.as_bytes() {
            if let Some(bytes) = self.take(grants[&3]) {
                if bytes == Text::VfsBlockDeviceLossFilesystemOfflined.as_bytes() {
                    return self.end(process_id, 0);
                }
                assert_eq!(bytes, Text::VfsBlockDeviceLossProviderOfflined.as_bytes());
                self.tell(grants[&2], process_id, Text::VfsBlockDeviceLossMutationFailed);
                let service = self.process_of(b"/nullfs-service");
                self.end(service, DEVICE_LOSS_STATUS);
            }
        }
    }

    /// The filesystem is unmounted when it is told to, and fails where it is told to.
    fn serve(&mut self, process_id: u64, grants: &BTreeMap<u64, u64>) {
        if let Some(bytes) = grants.get(&4).and_then(|hook| self.take(*hook)) {
            let armed = CrashTestMessage::decode(&bytes).unwrap();
            let reached =
                CrashTestMessage { kind: MUTATION_REACHED, request_id: 1, ..armed };
            self.send(grants[&1], process_id, &reached.encode(), Vec::new());
            return self.end(process_id, CRASH_STATUS);
        }
        let Some(bytes) = self.take(grants[&2]) else {
            return;
        };
        let asked = LifecycleMessage::decode(&bytes).unwrap();
        let kind = if asked.kind == QUIESCE { QUIESCED } else { CLEAN_UNMOUNTED };
        let done = LifecycleMessage { kind, ..asked };
        self.send(grants[&1], process_id, &done.encode(), Vec::new());
        if asked.kind == UNMOUNT {
            self.end(process_id, 0);
        }
    }

    fn perform(&mut self, call: &Call) -> Answer {
        match call.op {
            Op::GetProcessId | Op::GetParentProcessId => answer(1),
            Op::Yield => {
                self.tick();
                answer(0)
            }
            Op::MonotonicTime => answer(1_000),
            Op::Write { .. } => {
                self.output.extend_from_slice(&call.bytes);
                answer(call.bytes.len() as u64)
            }
            Op::Open => {
                answer(if call.bytes == Text::BootModePath.as_bytes() { 3 } else { 4 })
            }
            Op::Read { descriptor, .. } => {
                let bytes = if descriptor == 3 {
                    self.mode.to_vec()
                } else {
                    core::mem::take(&mut self.definition)
                };
                Answer { bytes: bytes.clone(), ..answer(bytes.len() as u64) }
            }
            Op::FileStatus { .. } => {
                words([abi::FILE_KIND_FILE, self.definition.len() as u64, 0, 0])
            }
            Op::CloseFile { .. } => answer(0),
            Op::OpenEarlyLogReader => {
                let object = self.create(abi::KIND_KERNEL_EARLY_LOG_READER);
                answer(self.install(object, abi::KERNEL_EARLY_LOG_READER_RIGHTS))
            }
            Op::OpenBlockDevice { .. } => {
                let object = self.create(abi::KIND_ENDPOINT);
                answer(self.install(object, DEVICE_RIGHTS))
            }
            Op::OpenWritableBlockDevice => {
                if call.bytes != NULLFS_PRIMARY_VOLUME {
                    return failure(Error::no_entry());
                }
                if self.device_lost {
                    return failure(Error::io());
                }
                let object = self.create(abi::KIND_ENDPOINT);
                answer(self.install(object, DEVICE_RIGHTS))
            }
            Op::OfflineWritableBlockDevice { generation } => {
                let service = self.process_of(b"/nullfs-service");
                if self.device_lost || generation != self.processes[&service].grants[&3] {
                    return failure(Error::invalid_argument());
                }
                self.device_lost = true;
                answer(0)
            }
            Op::RegisterFilesystem { provider, generation, .. } => {
                self.providers.insert(provider, generation);
                answer(0)
            }
            Op::OfflineFilesystem { provider, generation } => {
                if self.providers.get(&provider) == Some(&generation) {
                    answer(0)
                } else {
                    failure(Error::invalid_argument())
                }
            }
            Op::ConnectMount { .. } => words([self.generation_of(b"/tmpfs-service"), 0, 0, 0]),
            Op::DisconnectMount { .. } => answer(0),
            Op::EndpointCreate => {
                let object = self.create(abi::KIND_ENDPOINT);
                answer(self.install(object, abi::ENDPOINT_RIGHTS))
            }
            Op::EndpointCreatePair => {
                let object = self.create(abi::KIND_ENDPOINT);
                let sender = self.install(object, abi::ENDPOINT_RIGHTS & !abi::RIGHT_RECEIVE);
                let receiver = self.install(object, abi::ENDPOINT_RIGHTS & !abi::RIGHT_SEND);
                words([sender, receiver, 0, 0])
            }
            Op::Duplicate { handle, rights } => {
                let object = self.held(handle, rights);
                answer(self.install(object, rights))
            }
            Op::Close { handle } => match self.handles.remove(&handle) {
                Some(_) => answer(0),
                None => failure(Error::bad_file_descriptor()),
            },
            Op::Info { handle } => {
                let Some(&(object, rights)) = self.handles.get(&handle) else {
                    return failure(Error::bad_file_descriptor());
                };
                let kept = self.object(object);
                let size = kept.messages.len() + kept.members.len();
                words([object, kept.kind, rights, size as u64])
            }
            Op::Send { endpoint, handle, rights } => {
                let object = self.held(endpoint, abi::RIGHT_SEND);
                let attached = if handle == 0 {
                    Vec::new()
                } else {
                    vec![(self.held(handle, rights), rights)]
                };
                self.send(object, 1, &call.bytes, attached);
                answer(0)
            }
            Op::SendMove { endpoint, handle, rights } => {
                let object = self.held(endpoint, abi::RIGHT_SEND);
                let moved = self.held(handle, rights);
                self.handles.remove(&handle);
                self.send(object, 1, &call.bytes, vec![(moved, rights)]);
                answer(0)
            }
            Op::SendMoveMany { endpoint, count } => {
                assert_eq!(count, call.attached.len() as u64);
                let object = self.held(endpoint, abi::RIGHT_SEND);
                let mut attached = Vec::new();
                for (handle, rights) in &call.attached {
                    attached.push((self.held(*handle, *rights), *rights));
                    self.handles.remove(handle);
                }
                self.send(object, 1, &call.bytes, attached);
                answer(0)
            }
            Op::TryReceive { endpoint, .. } => {
                let object = self.held(endpoint, abi::RIGHT_RECEIVE);
                let Some(message) = self.object(object).messages.pop_front() else {
                    return failure(Error::try_again());
                };
                let (handle, rights) = match message.attached.first() {
                    Some((object, rights)) => (self.install(*object, *rights), *rights),
                    None => (0, 0),
                };
                let length = message.bytes.len() as u64;
                Answer {
                    result: length,
                    words: [message.sender, length, handle, rights],
                    bytes: message.bytes,
                    attached: Vec::new(),
                }
            }
            Op::TryReceiveMany { endpoint, .. } => {
                let object = self.held(endpoint, abi::RIGHT_RECEIVE);
                let Some(message) = self.object(object).messages.pop_front() else {
                    return failure(Error::try_again());
                };
                let mut attached = Vec::new();
                for (object, rights) in message.attached {
                    attached.push((self.install(object, rights), rights));
                }
                let length = message.bytes.len() as u64;
                Answer {
                    result: length,
                    words: [message.sender, length, attached.len() as u64, 0],
                    bytes: message.bytes,
                    attached,
                }
            }
            Op::JobCreate => {
                let object = self.create(abi::KIND_JOB);
                answer(self.install(object, abi::JOB_RIGHTS))
            }
            Op::JobAssign { job, process_id } => {
                let object = self.held(job, abi::RIGHT_MANAGE);
                self.object(object).members.push(process_id);
                answer(process_id)
            }
            Op::JobTerminate { job } => {
                let object = self.held(job, abi::RIGHT_SIGNAL);
                let members = self.object(object).members.clone();
                for member in &members {
                    self.end(*member, 137);
                }
                answer(members.len() as u64)
            }
            Op::JobTryWait { job } => {
                let object = self.held(job, abi::RIGHT_WAIT);
                let kept = self.object(object);
                if let Some(process_id) = kept.exits.pop_front() {
                    return words([process_id, 0, 0, 0]);
                }
                let empty = kept.members.is_empty();
                failure(if empty { Error::no_child() } else { Error::try_again() })
            }
            Op::BarrierCreate => {
                self.next_handle += 1;
                answer(self.next_handle)
            }
            Op::Spawn { barrier, .. } => {
                let process_id = 10 + self.processes.len() as u64;
                self.processes.insert(
                    process_id,
                    Process {
                        command: call.bytes.clone(),
                        barrier,
                        grants: BTreeMap::new(),
                        status: None,
                        reaped: false,
                        changes: VecDeque::new(),
                        stopped: false,
                        reply: None,
                        told: false,
                    },
                );
                answer(process_id)
            }
            Op::GrantChild { process_id, handle, rights, target } => {
                let object = self.held(handle, rights);
                let process = self.processes.get_mut(&process_id).unwrap();
                process.grants.insert(target, object);
                answer(target)
            }
            Op::BarrierRelease { barrier } => {
                let released: Vec<u64> = self
                    .processes
                    .iter()
                    .filter(|(_, process)| process.barrier == barrier)
                    .map(|(process_id, _)| *process_id)
                    .collect();
                for process_id in released {
                    self.run(process_id);
                }
                answer(0)
            }
            Op::TryWaitChild { process_id } => self.status_of(process_id),
            Op::WaitChild { process_id } => {
                for _ in 0..4 {
                    let process = &self.processes[&process_id];
                    if process.status.is_none() && process.changes.is_empty() {
                        self.tick();
                    }
                }
                self.status_of(process_id)
            }
            Op::SignalProcessGroup { group, signal } => {
                let process = self.processes.get_mut(&group).unwrap();
                match signal {
                    abi::SIGNAL_STOP => {
                        process.stopped = true;
                        process.changes.push_back(abi::CHILD_STATUS_STOPPED_BASE + signal);
                    }
                    abi::SIGNAL_CONTINUE => {
                        process.stopped = false;
                        process.changes.push_back(abi::CHILD_STATUS_CONTINUED);
                    }
                    abi::SIGNAL_TERMINATE
                        if process.command.ends_with(b"--ignore-terminate") => {}
                    _ => self.end(group, abi::CHILD_STATUS_SIGNAL_BASE + signal),
                }
                answer(1)
            }
            _ => panic!("unexpected call {:?}", call.op),
        }
    }

    /// The next change of a child.
    fn status_of(&mut self, process_id: u64) -> Answer {
        match self.processes.get_mut(&process_id) {
            Some(process) if !process.reaped => {
                if let Some(change) = process.changes.pop_front() {
                    return answer(change);
                }
                match process.status {
                    None => failure(Error::try_again()),
                    Some(status) => {
                        process.reaped = true;
                        answer(status)
                    }
                }
            }
            _ => failure(Error::no_child()),
        }
    }

    /// How often a program was started.
    fn generation_of(&self, name: &[u8]) -> u64 {
        self.processes
            .values()
            .filter(|process| process.command.starts_with(name))
            .count() as u64
    }

    fn said(&self, text: Text) -> bool {
        let bytes = text.as_bytes();
        self.output.windows(bytes.len()).any(|window| window == bytes)
    }

    /// Runs a procedure to its end.
    fn drive<T>(
        &mut self,
        mut procedure: impl FnMut(&mut Kernel) -> Result<T, Halt>,
    ) -> Result<T, Halt> {
        let mut answers = Vec::new();
        loop {
            let mut kernel = Kernel::new(answers);
            match procedure(&mut kernel) {
                Err(Halt::Waiting) => {}
                result => {
                    assert!(kernel.pending().is_none());
                    return result;
                }
            }
            let next = self.perform(kernel.pending().unwrap());
            answers = kernel.into_answers();
            answers.push(next);
        }
    }

    fn finish<T>(&mut self, mut procedure: impl FnMut(&mut Kernel) -> Option<T>) -> T {
        self.drive(|kernel| procedure(kernel).ok_or(Halt::Waiting)).unwrap()
    }

    /// Lets a procedure change a state, which it sees afresh whenever it runs again.
    fn on<S: Clone, T>(
        &mut self,
        state: &mut S,
        procedure: impl Fn(&mut S, &mut Kernel) -> Option<T>,
    ) -> T {
        let (next, value) = self.finish(|kernel| {
            let mut next = state.clone();
            let value = procedure(&mut next, kernel)?;
            Some((next, value))
        });
        *state = next;
        value
    }

    fn boot(&mut self) -> Result<System, Halt> {
        let mode = self.drive(begin)?;
        let specs = service_specs(mode);
        let (system, read) = self.drive(|kernel| boot(kernel, mode, &specs))?;
        assert_eq!(read.unwrap(), b"definition");
        Ok(system)
    }

    fn complete(&mut self, system: System) -> Result<Supervisor, Halt> {
        let loaded = admit_definition(Some(permitted()));
        self.drive(|kernel| complete_boot(kernel, system.clone(), loaded.clone()))
    }

    fn step(&mut self, supervisor: &Supervisor) -> Result<Supervisor, Halt> {
        self.drive(|kernel| {
            let mut next = supervisor.clone();
            next.step(kernel)?;
            Ok(next)
        })
    }

    fn process_of(&self, name: &[u8]) -> u64 {
        *self
            .processes
            .iter()
            .filter(|(_, process)| process.command.starts_with(name))
            .map(|(process_id, _)| process_id)
            .last()
            .unwrap()
    }

    /// A client asks at an endpoint of the first process, and gives it a way to answer.
    fn ask(&mut self, source: u64, bytes: &[u8]) -> u64 {
        let (object, _) = self.handles[&source];
        let reply = self.create(abi::KIND_ENDPOINT);
        self.send(object, 50, bytes, vec![(reply, abi::RIGHT_SEND)]);
        reply
    }
}

/// What a command of the service tool asks for.
fn requested(command: &[u8]) -> Option<ServiceControlRequest> {
    let words: Vec<&[u8]> = command.split(|byte| *byte == b' ').collect();
    if words[0] != b"/sv" {
        return None;
    }
    if words[1] == b"list" {
        return Some(ServiceControlRequest::List { cursor: 0 });
    }
    let service = service_id(words[2]).unwrap();
    Some(match words[1] {
        b"status" => ServiceControlRequest::Status { service },
        b"start" => ServiceControlRequest::Start { service },
        b"stop" => ServiceControlRequest::Stop { service },
        _ => ServiceControlRequest::Restart { service },
    })
}

fn is_success(bytes: &[u8]) -> bool {
    match ServiceControlMessage::decode(bytes) {
        Ok(ServiceControlMessage::Response { response, .. }) => match response {
            ServiceControlResponse::List(list) => {
                matches!(list.outcome(), ListOutcome::Record { .. })
            }
            other => {
                let target = other.target_response().unwrap();
                matches!(target.outcome(), TargetOutcome::Success(_))
            }
        },
        _ => false,
    }
}

fn permitted() -> ServiceDefinition {
    ServiceDefinition {
        service_id: definition_service_id().as_bytes(),
        name: definition_service_name().to_vec(),
        executable: definition_executable_path().to_vec(),
        arguments: vec![definition_managed_argument().to_vec()],
        readiness: Readiness::Notify(definition_ready_message().to_vec()),
        restart_policy: RestartPolicy::OnFailure,
        restart_limit: DEFINITION_RESTART_LIMIT,
        restart_backoff_yields: DEFINITION_RESTART_BACKOFF_YIELDS,
    }
}

fn supervised(machine: &mut Machine) -> Supervisor {
    let system = machine.boot().unwrap();
    machine.complete(system).unwrap()
}

fn outcome_of(machine: &mut Machine, reply: u64) -> TargetOutcome {
    let message = machine.object(reply).messages.pop_front().unwrap();
    assert_eq!(message.sender, 1);
    match ServiceControlMessage::decode(&message.bytes).unwrap() {
        ServiceControlMessage::Response { request_id, response } => {
            assert_eq!(request_id.get(), 9);
            response.target_response().unwrap().outcome()
        }
        ServiceControlMessage::Request { .. } => panic!("a request came back"),
    }
}

#[test]
fn the_mode_comes_from_the_file() {
    assert_eq!(Machine::new(b"normal\n").drive(begin), Ok(InitBootMode::Normal));
    assert_eq!(Machine::new(b"smoke-test").drive(begin), Ok(InitBootMode::SmokeTest));
    assert_eq!(
        Machine::new(b"normal\n\n").drive(begin),
        Err(Halt::Failed(Text::BootModeProbeFailed))
    );
    assert_eq!(
        Machine::new(b"").drive(begin),
        Err(Halt::Failed(Text::BootModeProbeFailed))
    );
}

#[test]
fn only_the_first_process_begins() {
    let mut kernel = Kernel::new(vec![answer(2)]);
    assert_eq!(begin(&mut kernel), Err(Halt::Failed(Text::WrongProcessId)));
}

#[test]
fn every_service_comes_up_with_its_first_generation() {
    let mut machine = Machine::new(b"normal\n");
    let system = machine.boot().unwrap();
    let generations = system.generations();
    assert_eq!(generations.logging.get(), 1);
    assert_eq!(generations.nullfs.get(), 1);
    assert_eq!(generations.tmpfs.get(), 1);
    assert_eq!(generations.vfs.get(), 1);
    for service in [
        &system.services.logging,
        &system.services.nullfs,
        &system.services.tmpfs,
        &system.services.vfs,
    ] {
        assert_eq!(service.state(), ServiceState::Running);
    }
    assert!(machine.said(Text::InitReady));
    assert!(machine.said(Text::LoggingServiceReady));
    assert!(machine.said(Text::VfsReadinessProbePassed));
    let starts: Vec<usize> = [
        Text::LoggingServiceReady,
        Text::NullfsServiceReady,
        Text::TmpfsServiceReady,
        Text::VfsServiceReady,
    ]
    .map(|text| {
        let bytes = text.as_bytes();
        machine.output.windows(bytes.len()).position(|window| window == bytes).unwrap()
    })
    .to_vec();
    assert!(starts.windows(2).all(|pair| pair[0] < pair[1]));
}

#[test]
fn the_routes_of_the_collector_are_published() {
    let mut machine = Machine::new(b"normal\n");
    let system = machine.boot().unwrap();
    let broker: &RouteBrokerState = &system.route_broker;
    for key in [logging_producer_key(), logging_observer_key()] {
        let route = broker.routes.published(key).unwrap();
        assert_eq!(route.generation, system.generations().logging);
    }
}

#[test]
fn a_defined_service_is_restarted_once_and_verified() {
    let mut machine = Machine::new(b"normal\n");
    let supervisor = supervised(&mut machine);
    assert!(machine.said(Text::DefinitionServiceVerified));
    let state = supervisor.definition.unwrap().state;
    assert_eq!(state.restart_count, 1);
    assert_eq!(state.generation.unwrap().get(), 2);
    assert!(machine.said(Text::ShellLaunched));
}

#[test]
fn the_system_comes_up_without_the_defined_service() {
    let mut machine = Machine::new(b"normal\n");
    let system = machine.boot().unwrap();
    let refused = admit_definition(Some(ServiceDefinition { restart_limit: 9, ..permitted() }));
    assert_eq!(refused.as_ref().err(), Some(&DefinitionServiceError::Policy));
    let supervisor = machine
        .drive(|kernel| complete_boot(kernel, system.clone(), refused.clone()))
        .unwrap();
    assert!(supervisor.definition.is_none());
    assert!(machine.said(Text::DefinitionServiceFailed));
}

#[test]
fn a_service_that_keeps_failing_stops_the_boot() {
    let mut machine = Machine::new(b"normal\n");
    machine.failing.push(b"/nullfs-service");
    let halted = machine.boot();
    assert!(matches!(halted, Err(Halt::Failed(Text::NullfsServiceFailed))));
    assert_eq!(machine.generation_of(b"/nullfs-service"), 4);
}

#[test]
fn a_probe_that_fails_stops_the_boot() {
    let mut machine = Machine::new(b"normal\n");
    machine.failing.push(Text::TmpfsProbeCommand.as_bytes());
    assert!(matches!(machine.boot(), Err(Halt::Failed(Text::TmpfsProbeFailed))));
}

#[test]
fn a_quiet_step_changes_nothing() {
    let mut machine = Machine::new(b"normal\n");
    let supervisor = supervised(&mut machine);
    let before = (machine.processes.len(), machine.handles.len());
    let next = machine.step(&supervisor).unwrap();
    assert_eq!(next.system.generations().tmpfs, supervisor.system.generations().tmpfs);
    assert_eq!((machine.processes.len(), machine.handles.len()), before);
}

#[test]
fn a_service_that_ends_is_started_again() {
    let mut machine = Machine::new(b"normal\n");
    let supervisor = supervised(&mut machine);
    let handles = machine.handles.len();
    let ended = machine.process_of(b"/tmpfs-service");
    machine.end(ended, 1);
    let next = machine.step(&supervisor).unwrap();
    assert_eq!(next.system.generations().tmpfs.get(), 2);
    assert_eq!(next.system.generations().vfs.get(), 1);
    assert_eq!(next.system.services.tmpfs.state(), ServiceState::Running);
    assert_eq!(next.system.services.tmpfs.restart_count(), 1);
    assert!(machine.said(Text::TmpfsServiceRestarting));
    assert_eq!(machine.handles.len(), handles);
}

#[test]
fn a_shell_that_ends_is_started_again() {
    let mut machine = Machine::new(b"normal\n");
    let supervisor = supervised(&mut machine);
    machine.end(supervisor.shell_process_id, 0);
    let next = machine.step(&supervisor).unwrap();
    assert_ne!(next.shell_process_id, supervisor.shell_process_id);
    assert!(machine.said(Text::ShellRestarting));
}

#[test]
fn a_client_is_told_the_state_of_a_service() {
    let mut machine = Machine::new(b"normal\n");
    let supervisor = supervised(&mut machine);
    let request = ServiceControlMessage::request(
        RequestId::new(9).unwrap(),
        ServiceControlRequest::Status { service: tmpfs_service_id() },
    );
    let reply = machine.ask(supervisor.system.control.observation_source, &request.encode());
    machine.step(&supervisor).unwrap();
    let TargetOutcome::Success(record) = outcome_of(&mut machine, reply) else {
        panic!("the service is known");
    };
    assert_eq!(record.service(), tmpfs_service_id());
    assert_eq!(record.generation().unwrap().get(), 1);
    assert_eq!(record.observed_state(), ObservedState::Ready);
    assert_eq!(record.desired_state(), DesiredState::Running);
}

#[test]
fn a_client_stops_the_collector_and_starts_it_again() {
    let mut machine = Machine::new(b"normal\n");
    let mut supervisor = supervised(&mut machine);
    let source = supervisor.system.control.mutation_source;
    let id = RequestId::new(9).unwrap();
    let service = logging_service_id();
    let stop = ServiceControlMessage::request(id, ServiceControlRequest::Stop { service });
    let reply = machine.ask(source, &stop.encode());
    supervisor = machine.step(&supervisor).unwrap();
    assert!(matches!(outcome_of(&mut machine, reply), TargetOutcome::Success(_)));
    for _ in 0..4 {
        supervisor = machine.step(&supervisor).unwrap();
    }
    assert_eq!(supervisor.system.services.logging.state(), ServiceState::Stopped);
    let broker = &supervisor.system.route_broker;
    assert!(broker.routes.published(logging_producer_key()).is_none());
    assert!(broker.routes.published(logging_observer_key()).is_none());

    let start = ServiceControlMessage::request(id, ServiceControlRequest::Start { service });
    let reply = machine.ask(source, &start.encode());
    for _ in 0..4 {
        supervisor = machine.step(&supervisor).unwrap();
    }
    assert!(matches!(outcome_of(&mut machine, reply), TargetOutcome::Success(_)));
    assert_eq!(supervisor.system.services.logging.state(), ServiceState::Running);
    assert_eq!(supervisor.system.generations().logging.get(), 2);
    let route = supervisor.system.route_broker.routes.published(logging_producer_key());
    assert_eq!(route.unwrap().generation.get(), 2);
}

#[test]
fn a_client_gets_the_route_to_the_collector() {
    let mut machine = Machine::new(b"normal\n");
    let supervisor = supervised(&mut machine);
    let source = supervisor.system.route_broker.producer_grant_source;
    let request = RouteMessage::Request { key: logging_producer_key() };
    let reply = machine.ask(source, &request.encode());
    machine.step(&supervisor).unwrap();
    let message = machine.object(reply).messages.pop_front().unwrap();
    assert_eq!(
        RouteMessage::decode(&message.bytes),
        Ok(RouteMessage::Accepted {
            key: logging_producer_key(),
            generation: supervisor.system.generations().logging,
        })
    );
    assert_eq!(message.attached.len(), 1);
    assert_eq!(message.attached[0].1, Rights::send().bits());
}

#[test]
fn a_client_cannot_ask_an_ingress_for_the_other_route() {
    let mut machine = Machine::new(b"normal\n");
    let supervisor = supervised(&mut machine);
    let source = supervisor.system.route_broker.producer_grant_source;
    let request = RouteMessage::Request { key: logging_observer_key() };
    let reply = machine.ask(source, &request.encode());
    machine.step(&supervisor).unwrap();
    assert!(machine.object(reply).messages.is_empty());
}

#[test]
fn a_response_is_no_request() {
    let mut machine = Machine::new(b"normal\n");
    let supervisor = supervised(&mut machine);
    let response = ServiceControlMessage::response(
        RequestId::new(9).unwrap(),
        ServiceControlResponse::list(ListResponse::end(0)),
    );
    let reply = machine.ask(supervisor.system.control.observation_source, &response.encode());
    machine.step(&supervisor).unwrap();
    assert!(machine.object(reply).messages.is_empty());
}

#[test]
fn each_mode_runs_its_own_probe() {
    for (mode, passed) in [
        (b"smoke-test".as_slice(), Text::VfsReadinessProbePassed),
        (b"nullfs-out-of-space-test", Text::VfsOutOfSpaceProbePassed),
        (b"nullfs-boot-generation-test", Text::NullfsBootGenerationProbePassed),
    ] {
        let mut machine = Machine::new(mode);
        assert!(machine.boot().is_ok());
        assert!(machine.said(passed));
    }
    let mut machine = Machine::new(b"normal");
    assert!(machine.boot().is_ok());
    assert!(!machine.said(Text::VfsOutOfSpaceProbePassed));
}

fn list_from(
    machine: &mut Machine,
    supervisor: &Supervisor,
    source: u64,
    cursor: u32,
) -> (ListOutcome, Supervisor) {
    let request = ServiceControlMessage::request(
        RequestId::new(9).unwrap(),
        ServiceControlRequest::List { cursor },
    );
    let reply = machine.ask(source, &request.encode());
    let next = machine.step(supervisor).unwrap();
    let message = machine.object(reply).messages.pop_front().unwrap();
    match ServiceControlMessage::decode(&message.bytes) {
        Ok(ServiceControlMessage::Response {
            response: ServiceControlResponse::List(response),
            ..
        }) => (response.outcome(), next),
        _ => panic!("a list was asked for"),
    }
}

#[test]
fn the_list_shows_every_service_once() {
    let mut machine = Machine::new(b"normal\n");
    let mut supervisor = supervised(&mut machine);
    let source = supervisor.system.control.observation_source;
    let mut listed = Vec::new();
    for (cursor, next) in [(0, 1), (1, 2), (2, 3), (3, 0)] {
        let (outcome, later) = list_from(&mut machine, &supervisor, source, cursor);
        let ListOutcome::Record { record, next_cursor } = outcome else {
            panic!("there is another service");
        };
        assert_eq!(next_cursor, next);
        listed.push(record.service());
        supervisor = later;
    }
    let (outcome, _) = list_from(&mut machine, &supervisor, source, 4);
    assert_eq!(outcome, ListOutcome::Failure(ServiceControlFailure::NotFound));
    assert_eq!(
        listed,
        [logging_service_id(), nullfs_service_id(), tmpfs_service_id(), vfs_service_id()]
    );
}

#[test]
fn a_filesystem_is_unmounted_before_it_is_restarted() {
    let mut machine = Machine::new(b"normal\n");
    let mut supervisor = supervised(&mut machine);
    let process_id = machine.process_of(b"/nullfs-service");
    let ready = machine.processes[&process_id].grants[&1];
    let requests = machine.processes[&process_id].grants[&2];
    let restart = ServiceControlMessage::request(
        RequestId::new(9).unwrap(),
        ServiceControlRequest::Restart { service: nullfs_service_id() },
    );
    let reply = machine.ask(supervisor.system.control.mutation_source, &restart.encode());
    supervisor = machine.step(&supervisor).unwrap();
    assert!(matches!(outcome_of(&mut machine, reply), TargetOutcome::Success(_)));

    let asked = machine.object(requests).messages.pop_front().unwrap();
    let quiesce = LifecycleMessage::decode(&asked.bytes).unwrap();
    assert_eq!((quiesce.kind, quiesce.generation), (QUIESCE, 1));
    let quiesced = LifecycleMessage { kind: QUIESCED, ..quiesce };
    machine.send(ready, process_id, &quiesced.encode(), Vec::new());
    supervisor = machine.step(&supervisor).unwrap();

    let asked = machine.object(requests).messages.pop_front().unwrap();
    assert_eq!(
        LifecycleMessage::decode(&asked.bytes),
        Ok(LifecycleMessage { kind: UNMOUNT, ..quiesce })
    );
    let clean = LifecycleMessage { kind: CLEAN_UNMOUNTED, ..quiesce };
    machine.send(ready, process_id, &clean.encode(), Vec::new());
    machine.end(process_id, 0);
    for _ in 0..3 {
        supervisor = machine.step(&supervisor).unwrap();
    }
    assert!(supervisor.system.control.nullfs_lifecycle.last_exit_was_clean());
    assert_eq!(supervisor.system.generations().nullfs.get(), 2);
    assert_eq!(supervisor.system.services.nullfs.state(), ServiceState::Running);
    assert_eq!(supervisor.system.services.nullfs.restart_count(), 0);
}

#[test]
fn a_filesystem_that_lies_about_its_generation_is_terminated() {
    let mut machine = Machine::new(b"normal\n");
    let mut supervisor = supervised(&mut machine);
    let process_id = machine.process_of(b"/nullfs-service");
    let ready = machine.processes[&process_id].grants[&1];
    let restart = ServiceControlMessage::request(
        RequestId::new(9).unwrap(),
        ServiceControlRequest::Restart { service: nullfs_service_id() },
    );
    machine.ask(supervisor.system.control.mutation_source, &restart.encode());
    supervisor = machine.step(&supervisor).unwrap();
    let lie = LifecycleMessage { kind: QUIESCED, generation: 7, transition_id: 1 };
    machine.send(ready, process_id, &lie.encode(), Vec::new());
    for _ in 0..3 {
        supervisor = machine.step(&supervisor).unwrap();
    }
    assert_eq!(machine.processes[&process_id].status, Some(137));
    assert!(!supervisor.system.control.nullfs_lifecycle.last_exit_was_clean());
    assert_eq!(supervisor.system.generations().nullfs.get(), 2);
}

#[test]
fn a_defined_service_is_restarted_up_to_its_limit() {
    let mut machine = Machine::new(b"normal\n");
    let mut supervisor = supervised(&mut machine);
    for restarts in 2..=DEFINITION_RESTART_LIMIT {
        let process_id = machine.process_of(definition_executable_path());
        machine.end(process_id, 1);
        for _ in 0..2 {
            supervisor = machine.step(&supervisor).unwrap();
        }
        let state = supervisor.definition.as_ref().unwrap().state;
        assert_eq!(state.restart_count, restarts);
        assert_eq!(state.generation.unwrap().get(), u64::from(restarts) + 1);
    }
    assert!(!machine.said(Text::DefinitionServiceFailed));
    let process_id = machine.process_of(definition_executable_path());
    machine.end(process_id, 1);
    for _ in 0..2 {
        supervisor = machine.step(&supervisor).unwrap();
    }
    assert!(machine.said(Text::DefinitionServiceFailed));
    let state = supervisor.definition.as_ref().unwrap().state;
    assert_eq!(state.restart_count, DEFINITION_RESTART_LIMIT);
    assert_eq!(state.process_id, None);
}

#[test]
fn a_client_and_the_collector_open_a_session() {
    let mut machine = Machine::new(b"");
    let object = machine.create(abi::KIND_ENDPOINT);
    let ingress = machine.install(object, abi::RIGHT_SEND);
    let receive = machine.install(object, abi::RIGHT_RECEIVE);
    let mut client = machine.finish(|kernel| ClientBootstrap::new(kernel, ingress)).unwrap();
    let mut server = machine
        .finish(|kernel| ServerIngress::new(kernel, SessionRole::Producer, receive))
        .unwrap();
    let waiting = machine.on(&mut client, |client, kernel| client.try_connect(kernel));
    assert!(matches!(waiting, Ok(None)));
    let event = machine.on(&mut server, |server, kernel| server.try_receive(kernel)).unwrap();
    let Some(ServerIngressEvent::Connect(mut pending)) = event else {
        panic!("a client connects");
    };
    assert_eq!(pending.owner_process_id(), 1);
    assert_eq!(
        machine.on(&mut pending, |pending, kernel| pending.try_accept(kernel, 0)).err(),
        Some(AcceptError::InvalidServiceGeneration)
    );
    let mut session = machine.on(&mut pending, |pending, kernel| pending.try_accept(kernel, 7)).unwrap();
    assert_eq!(
        machine.on(&mut pending, |pending, kernel| pending.try_accept(kernel, 7)).err(),
        Some(AcceptError::Completed)
    );
    let mut transport = machine.on(&mut client, |client, kernel| client.try_connect(kernel)).unwrap().unwrap();
    assert_eq!(transport.service_generation(), 7);
    assert_eq!(transport.service_process_id(), 1);

    assert!(machine
        .on(&mut transport, |transport, kernel| transport.try_send(kernel, b"record"))
        .is_ok());
    let event = machine.on(&mut server, |server, kernel| server.try_receive(kernel)).unwrap();
    let Some(ServerIngressEvent::Packet(packet)) = event else {
        panic!("a packet was sent");
    };
    assert_eq!(packet.bytes(), b"record");
    assert!(session.try_queue_packet(&packet).is_ok());
    let mut output = [0_u8; 16];
    assert_eq!(session.try_recv(&mut output), Ok(6));
    assert_eq!(&output[..6], b"record");
    assert_eq!(session.try_recv(&mut output), Err(TryRecvError::Empty));

    assert!(machine
        .on(&mut session, |session, kernel| session.try_send(kernel, b"reply"))
        .is_ok());
    assert_eq!(
        machine.on(&mut transport, |transport, kernel| transport.try_recv(kernel, 64)),
        Ok(b"reply".to_vec())
    );
    machine.on(&mut transport, |transport, kernel| transport.disconnect(kernel));
    let event = machine.on(&mut server, |server, kernel| server.try_receive(kernel)).unwrap();
    let Some(ServerIngressEvent::Disconnect(request)) = event else {
        panic!("the client has left");
    };
    assert_eq!(request.service_generation(), 7);
    assert!(machine
        .on(&mut session, |session, kernel| session.handle_disconnect(kernel, request))
        .is_ok());
}

#[test]
fn a_refused_client_is_told_why() {
    let mut machine = Machine::new(b"");
    let object = machine.create(abi::KIND_ENDPOINT);
    let ingress = machine.install(object, abi::RIGHT_SEND);
    let receive = machine.install(object, abi::RIGHT_RECEIVE);
    let mut server = machine
        .finish(|kernel| ServerIngress::new(kernel, SessionRole::Observer, receive))
        .unwrap();
    let reply = machine.create(abi::KIND_ENDPOINT);
    let reply_receive = machine.install(reply, abi::RIGHT_RECEIVE);
    let record = userspace::logging_session::ControlRecord::Connect.encode().unwrap();
    machine.send(object, 1, &record, vec![(reply, abi::RIGHT_SEND)]);
    let event = machine.on(&mut server, |server, kernel| server.try_receive(kernel)).unwrap();
    let Some(ServerIngressEvent::Connect(mut pending)) = event else {
        panic!("a client connects");
    };
    assert!(machine
        .on(&mut pending, |pending, kernel| {
            pending.try_reject(kernel, ConnectStatus::CapacityExhausted)
        })
        .is_ok());
    assert_eq!(machine.object(reply).messages.len(), 1);
    assert!(machine.handles.contains_key(&reply_receive));
    let wrong = machine.install(object, abi::RIGHT_SEND | abi::RIGHT_TRANSFER);
    assert_eq!(
        machine.finish(|kernel| ClientBootstrap::new(kernel, wrong)).err(),
        Some(ClientConnectError::InvalidIngress)
    );
    assert!(machine.finish(|kernel| ClientBootstrap::new(kernel, ingress)).is_ok());
}

#[test]
fn a_queued_generation_is_received() {
    let mut machine = Machine::new(b"");
    let object = machine.create(abi::KIND_ENDPOINT);
    let source = machine.install(object, abi::ENDPOINT_RIGHTS);
    let receive = machine.install(object, abi::RIGHT_RECEIVE);
    let generation = ProviderGeneration::new(12).unwrap();
    assert!(machine
        .finish(|kernel| queue_service_generation(kernel, source, generation))
        .is_ok());
    assert_eq!(
        machine.finish(|kernel| receive_service_generation(kernel, receive, 1)),
        Ok(generation)
    );
    assert!(!machine.handles.contains_key(&receive));
    let receive = machine.install(object, abi::RIGHT_RECEIVE);
    assert_eq!(
        machine.finish(|kernel| receive_service_generation(kernel, receive, 0)),
        Err(GenerationHandoffReceiveError::InvalidExpectedSender)
    );
}

#[test]
fn a_tool_learns_its_own_description() {
    let mut machine = Machine::new(b"");
    let object = machine.create(abi::KIND_ENDPOINT);
    let sender = machine.install(object, abi::RIGHT_SEND);
    machine.handles.insert(1, (object, abi::RIGHT_RECEIVE));
    let environment: [(&[u8], &[u8]); 1] = [(b"TERM", b"dumb")];
    let command = ManagedToolCommand::new(b"/tool one two", &environment);
    let sent = machine.finish(|kernel| {
        send_managed_tool_start(kernel, sender, 1, command, ManagedToolStartOrigin::Parent)
    });
    assert!(sent.is_ok());
    let words: [&[u8]; 3] = [b"/tool", b"one", b"two"];
    let entries: [&[u8]; 1] = [b"TERM=dumb"];
    let mode =
        machine.finish(|kernel| initialize_managed_tool_start(kernel, &words, &entries));
    assert_eq!(mode, Ok(ManagedToolStartMode::Managed));

    machine.handles.insert(1, (object, abi::RIGHT_RECEIVE));
    let sent = machine.finish(|kernel| {
        send_managed_tool_start(kernel, sender, 1, command, ManagedToolStartOrigin::Parent)
    });
    assert!(sent.is_ok());
    let other: [&[u8]; 2] = [b"/tool", b"one"];
    let mode =
        machine.finish(|kernel| initialize_managed_tool_start(kernel, &other, &entries));
    assert_eq!(mode, Err(ManagedToolStartError::InvalidDescription));
}

#[test]
fn a_tool_is_handed_its_capabilities() {
    let mut machine = Machine::new(b"");
    let object = machine.create(abi::KIND_ENDPOINT);
    let sender = machine.install(object, abi::RIGHT_SEND);
    machine.handles.insert(1, (object, abi::RIGHT_RECEIVE));
    let logging = machine.create(abi::KIND_ENDPOINT);
    let source = machine.install(logging, abi::ENDPOINT_RIGHTS);
    let command = ManagedToolCommand::new(b"/tool", &[]);
    let capability =
        ManagedToolCapability::new(source, Rights::send(), CapabilityRole::logging());
    let sent = machine.finish(|kernel| {
        send_managed_tool_start_with_capabilities(
            kernel,
            sender,
            1,
            command,
            ManagedToolStartOrigin::Parent,
            &[capability],
        )
    });
    assert!(sent.is_ok());
    let words: [&[u8]; 1] = [b"/tool"];
    let policy = StartupCapabilityPolicy {
        role: CapabilityRole::logging(),
        kind: ObjectKind::Endpoint,
        minimum_rights: Rights::send(),
        maximum_rights: Rights::send(),
        required: true,
    };
    let start = machine
        .finish(|kernel| {
            receive_capability_managed_tool_start::<1>(kernel, &words, &[], &[policy])
        })
        .unwrap();
    assert_eq!(start.origin, ManagedToolStartOrigin::Parent);
    assert!(start.context.contains(CapabilityRole::logging()));
    assert_eq!(start.context.len(), 1);
}

fn lively(mode: &'static [u8]) -> Machine {
    let mut machine = Machine::new(mode);
    machine.lively = true;
    machine
}

#[test]
fn a_filesystem_that_crashes_is_recovered() {
    let mut machine = lively(b"nullfs-crash-recovery-test");
    let system = machine.boot().unwrap();
    assert!(machine.said(Text::VfsCrashRecoveryInjected));
    assert!(machine.said(Text::VfsCrashRecoveryProbePassed));
    assert_eq!(system.generations().nullfs.get(), 2);
    assert_eq!(system.services.nullfs.restart_count(), 1);
    assert_eq!(system.services.nullfs.state(), ServiceState::Running);
}

#[test]
fn a_filesystem_survives_no_device() {
    let mut machine = lively(b"nullfs-block-device-loss-test");
    let system = machine.boot().unwrap();
    assert!(machine.said(Text::VfsBlockDeviceLossInjected));
    assert!(machine.said(Text::VfsBlockDeviceLossProbePassed));
    assert_eq!(system.generations().nullfs.get(), 1);
    assert_eq!(system.nullfs.resources.job.job, None);
}

#[test]
fn the_collector_and_a_filesystem_are_restarted_under_test() {
    let mut machine = lively(b"nullfs-restart-test");
    let system = machine.boot().unwrap();
    assert!(machine.said(Text::LoggingCollectorTestPassed));
    assert_eq!(system.generations().logging.get(), 2);
    assert_eq!(system.services.logging.restart_count(), 1);
    assert!(machine.said(Text::NullfsDirtyRecoveryPassed));
    assert!(machine.said(Text::NullfsRestartProbePassed));
    assert!(machine.said(Text::SvStatusNullfsPassed));
    assert_eq!(system.generations().nullfs.get(), 3);
    assert_eq!(system.services.nullfs.restart_count(), 0);
}

#[test]
fn the_life_of_the_collector_passes_its_check() {
    let mut machine = lively(b"logging-lifecycle-test");
    let mut supervisor = supervised(&mut machine);
    let mut steps = 0;
    while !machine.said(Text::LoggingLifecycleTestPassed) {
        supervisor = machine.step(&supervisor).unwrap();
        steps += 1;
        assert!(steps < 4_000);
    }
    assert_eq!(supervisor.system.services.logging.state(), ServiceState::Failed);
    assert_eq!(supervisor.system.generations().tmpfs.get(), 2);
    assert_eq!(supervisor.system.generations().vfs.get(), 2);
    assert_eq!(supervisor.system.generations().nullfs.get(), 1);
}

#[test]
fn the_service_tool_is_answered_during_the_boot() {
    let mut machine = lively(b"normal");
    supervised(&mut machine);
    assert!(machine.said(Text::SvListPassed));
    assert!(machine.said(Text::SvStatusLoggingPassed));
}
