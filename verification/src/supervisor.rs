//! What the supervisor knows of a service and what it does when a process of it changes.

use crate::abi;
use crate::bytes::equal;
use crate::control_protocol::DesiredState;
use vstd::prelude::*;

verus! {

/// What to do when the interactive shell changes.
#[derive(Debug, Clone, Copy, PartialEq, Eq, Structural)]
pub enum ShellStatusDisposition {
    WaitForNextEvent,
    RestoreForeground,
    RestartShell,
}

/// A continued shell is left alone, one stopped by job control gets the foreground back, and
/// every other status means that a new shell is due.
#[verifier::allow_in_spec]
pub fn shell_status_disposition(status: u64) -> ShellStatusDisposition
    returns
        (if status == abi::CHILD_STATUS_CONTINUED {
            ShellStatusDisposition::WaitForNextEvent
        } else if abi::CHILD_STATUS_STOPPED_BASE <= status && status < abi::CHILD_STATUS_CONTINUED
            && (status - abi::CHILD_STATUS_STOPPED_BASE == abi::SIGNAL_STOP || status
            - abi::CHILD_STATUS_STOPPED_BASE == abi::SIGNAL_TERMINAL_STOP) {
            ShellStatusDisposition::RestoreForeground
        } else {
            ShellStatusDisposition::RestartShell
        }),
{
    if status == abi::CHILD_STATUS_CONTINUED {
        return ShellStatusDisposition::WaitForNextEvent;
    }
    if status >= abi::CHILD_STATUS_STOPPED_BASE && status < abi::CHILD_STATUS_CONTINUED {
        let stopped_signal: u64 = status - abi::CHILD_STATUS_STOPPED_BASE;
        if stopped_signal == abi::SIGNAL_STOP || stopped_signal == abi::SIGNAL_TERMINAL_STOP {
            return ShellStatusDisposition::RestoreForeground;
        }
    }
    ShellStatusDisposition::RestartShell
}

/// Where a service is in its life.
#[derive(Debug, Clone, Copy, PartialEq, Eq, Structural)]
pub enum ServiceState {
    Stopped,
    Starting,
    Running,
    Stopping,
    Restarting,
    Backoff,
    Failed,
}

impl ServiceState {
    /// Whether a process of the service exists in this state.
    pub open spec fn has_process(self) -> bool {
        match self {
            ServiceState::Starting
            | ServiceState::Running
            | ServiceState::Stopping
            | ServiceState::Restarting => true,
            ServiceState::Stopped | ServiceState::Backoff | ServiceState::Failed => false,
        }
    }
}

/// The fixed description of a service.
#[derive(Debug, Clone, Copy)]
pub struct ServiceSpec {
    pub name: &'static [u8],
    pub command: &'static [u8],
    pub ready_message: &'static [u8],
    pub bootstrap_slot: u64,
    pub restart_limit: u32,
    pub restart_backoff_yields: u32,
    pub fatal_startup_exit_status: Option<u64>,
}

impl ServiceSpec {
    /// Whether two descriptions say the same.
    pub open spec fn same(self, other: Self) -> bool {
        &&& self.name@ == other.name@
        &&& self.command@ == other.command@
        &&& self.ready_message@ == other.ready_message@
        &&& self.bootstrap_slot == other.bootstrap_slot
        &&& self.restart_limit == other.restart_limit
        &&& self.restart_backoff_yields == other.restart_backoff_yields
        &&& self.fatal_startup_exit_status == other.fatal_startup_exit_status
    }
}

impl PartialEq for ServiceSpec {
    fn eq(&self, other: &Self) -> (result: bool) {
        let same_status = match (self.fatal_startup_exit_status, other.fatal_startup_exit_status) {
            (Some(left), Some(right)) => left == right,
            (None, None) => true,
            _ => false,
        };
        equal(self.name, other.name) && equal(self.command, other.command) && equal(
            self.ready_message,
            other.ready_message,
        ) && self.bootstrap_slot == other.bootstrap_slot && self.restart_limit
            == other.restart_limit && self.restart_backoff_yields == other.restart_backoff_yields
            && same_status
    }
}

impl vstd::std_specs::cmp::PartialEqSpecImpl for ServiceSpec {
    open spec fn obeys_eq_spec() -> bool {
        true
    }

    open spec fn eq_spec(&self, other: &Self) -> bool {
        self.same(*other)
    }
}

impl Eq for ServiceSpec {

}

/// What to do when a service's process changes.
#[derive(Debug, Clone, Copy, PartialEq, Eq, Structural)]
pub enum ServiceStatusDisposition {
    WaitForNextEvent,
    Stopped,
    Restart { backoff_yields: u32 },
    Failed,
}

#[derive(Debug, Clone, Copy, PartialEq, Eq, Structural)]
pub enum RestartRequestError {
    AlreadyPending,
    InvalidState,
}

#[derive(Debug, Clone, Copy, PartialEq, Eq, Structural)]
pub enum StartRequestError {
    InvalidState,
}

#[derive(Debug, Clone, Copy, PartialEq, Eq, Structural)]
pub enum StopRequestError {
    InvalidState,
    TransitionExhausted,
}

#[derive(Debug, Clone, Copy, PartialEq, Eq, Structural)]
pub enum StopCancelError {
    NotRollbackCapable,
    WrongService,
    StaleTransition,
}

#[derive(Debug, Clone, Copy, PartialEq, Eq, Structural)]
pub enum ReadyDisposition {
    Accepted,
    Stale,
}

/// A stop that has been requested, with what it takes to undo it.
#[derive(Debug, Clone, Copy, PartialEq, Eq)]
pub struct StopRequest {
    process_group: Option<u64>,
    rollback_epoch: Option<u64>,
    service: ServiceSpec,
    previous_state: ServiceState,
    previous_desired_state: DesiredState,
    previous_restart_pending: bool,
}

/// A stop request as the contracts see it.
pub ghost struct Stop {
    pub process_group: Option<u64>,
    pub rollback_epoch: Option<u64>,
    pub service: ServiceSpec,
    pub previous_state: ServiceState,
    pub previous_desired_state: DesiredState,
    pub previous_restart_pending: bool,
}

impl View for StopRequest {
    type V = Stop;

    closed spec fn view(&self) -> Stop {
        Stop {
            process_group: self.process_group,
            rollback_epoch: self.rollback_epoch,
            service: self.service,
            previous_state: self.previous_state,
            previous_desired_state: self.previous_desired_state,
            previous_restart_pending: self.previous_restart_pending,
        }
    }
}

impl Stop {
    /// What holds of every request that a service has handed out: one that can be undone names
    /// the process group and the running state that it left.
    pub open spec fn coherent(self) -> bool {
        self.rollback_epoch is Some ==> {
            &&& self.process_group is Some
            &&& self.previous_state == ServiceState::Starting || self.previous_state
                == ServiceState::Running
        }
    }
}

impl StopRequest {
    /// The process group to signal. `None` where nothing is to be signalled.
    pub fn process_group(self) -> (group: Option<u64>)
        ensures
            group == self@.process_group,
    {
        self.process_group
    }
}

/// The state of one service.
#[derive(Debug, Clone, Copy, PartialEq, Eq)]
pub struct ServiceRuntime {
    spec: ServiceSpec,
    process_id: Option<u64>,
    restart_count: u32,
    state: ServiceState,
    desired_state: DesiredState,
    controlled_restart_pending: bool,
    stop_transition_epoch: u64,
}

/// The state of one service as the contracts see it.
pub ghost struct Service {
    pub spec: ServiceSpec,
    pub process_id: Option<u64>,
    pub restart_count: u32,
    pub state: ServiceState,
    pub desired_state: DesiredState,
    pub restart_pending: bool,
    pub stop_epoch: u64,
}

impl View for ServiceRuntime {
    type V = Service;

    closed spec fn view(&self) -> Service {
        Service {
            spec: self.spec,
            process_id: self.process_id,
            restart_count: self.restart_count,
            state: self.state,
            desired_state: self.desired_state,
            restart_pending: self.controlled_restart_pending,
            stop_epoch: self.stop_transition_epoch,
        }
    }
}

impl Service {
    /// What every operation keeps: there is a process exactly in the states that have one, and
    /// the automatic restarts never exceed their budget.
    pub open spec fn coherent(self) -> bool {
        &&& self.process_id is Some <==> self.state.has_process()
        &&& self.restart_count <= self.spec.restart_limit
    }

    pub open spec fn initial(spec: ServiceSpec) -> Service {
        Service {
            spec,
            process_id: None,
            restart_count: 0,
            state: ServiceState::Stopped,
            desired_state: DesiredState::Running,
            restart_pending: false,
            stop_epoch: 0,
        }
    }

    /// Whether a process has to be started now.
    pub open spec fn should_start(self) -> bool {
        &&& self.desired_state == DesiredState::Running
        &&& self.state == ServiceState::Stopped
        &&& self.process_id is None
    }

    pub open spec fn spawned(self, process_id: u64) -> Service {
        Service { process_id: Some(process_id), state: ServiceState::Starting, ..self }
    }

    /// Whether a readiness message counts: only from a process that is starting and wanted.
    pub open spec fn accepts_readiness(self) -> bool {
        &&& self.state == ServiceState::Starting
        &&& self.desired_state == DesiredState::Running
        &&& self.process_id is Some
    }

    pub open spec fn ready(self) -> Service {
        if self.accepts_readiness() {
            Service { state: ServiceState::Running, ..self }
        } else {
            self
        }
    }

    /// The service with its budget rearmed and a start due.
    pub open spec fn rearmed(self) -> Service {
        Service {
            desired_state: DesiredState::Running,
            state: ServiceState::Stopped,
            restart_count: 0,
            restart_pending: false,
            ..self
        }
    }

    /// A request to start.
    pub open spec fn start(self) -> Result<Service, StartRequestError> {
        if self.state == ServiceState::Failed && self.process_id is None {
            Ok(self.rearmed())
        } else if self.desired_state == DesiredState::Running {
            Ok(self)
        } else if (self.state == ServiceState::Stopped || self.state == ServiceState::Backoff)
            && self.process_id is None {
            Ok(self.rearmed())
        } else if self.state == ServiceState::Stopping && self.process_id is Some {
            Ok(
                Service {
                    desired_state: DesiredState::Running,
                    state: ServiceState::Restarting,
                    restart_count: 0,
                    restart_pending: true,
                    ..self
                },
            )
        } else {
            Err(StartRequestError::InvalidState)
        }
    }

    /// The request that a stop hands out: what the service was, and no way back.
    pub open spec fn final_stop(self) -> Stop {
        Stop {
            process_group: None,
            rollback_epoch: None,
            service: self.spec,
            previous_state: self.state,
            previous_desired_state: self.desired_state,
            previous_restart_pending: self.restart_pending,
        }
    }

    /// The service on its way down.
    pub open spec fn stopping(self, state: ServiceState) -> Service {
        Service {
            desired_state: DesiredState::Stopped,
            state,
            restart_pending: false,
            ..self
        }
    }

    /// A request to stop: the new state and the request handed out.
    pub open spec fn stop(self) -> Result<(Service, Stop), StopRequestError> {
        if self.desired_state == DesiredState::Stopped {
            Ok((self, self.final_stop()))
        } else if (self.state == ServiceState::Starting || self.state == ServiceState::Running)
            && self.process_id is Some {
            if self.stop_epoch == u64::MAX {
                Err(StopRequestError::TransitionExhausted)
            } else {
                let epoch = (self.stop_epoch + 1) as u64;
                Ok(
                    (
                        Service { stop_epoch: epoch, ..self.stopping(ServiceState::Stopping) },
                        Stop {
                            process_group: self.process_id,
                            rollback_epoch: Some(epoch),
                            ..self.final_stop()
                        },
                    ),
                )
            }
        } else if self.state == ServiceState::Restarting && self.process_id is Some {
            Ok((self.stopping(ServiceState::Stopping), self.final_stop()))
        } else if !self.state.has_process() && self.process_id is None {
            Ok((self.stopping(ServiceState::Stopped), self.final_stop()))
        } else {
            Err(StopRequestError::InvalidState)
        }
    }

    /// Undoing a stop.
    pub open spec fn cancel_stop(self, request: Stop) -> Result<Service, StopCancelError> {
        if !request.service.same(self.spec) {
            Err(StopCancelError::WrongService)
        } else if request.rollback_epoch is None {
            Err(StopCancelError::NotRollbackCapable)
        } else if request.rollback_epoch != Some(self.stop_epoch) || self.state
            != ServiceState::Stopping || self.desired_state != DesiredState::Stopped
            || self.process_id != request.process_group {
            Err(StopCancelError::StaleTransition)
        } else {
            Ok(
                Service {
                    state: request.previous_state,
                    desired_state: request.previous_desired_state,
                    restart_pending: request.previous_restart_pending,
                    ..self
                },
            )
        }
    }

    /// A request to restart: the new state and the process to signal.
    pub open spec fn restart(self) -> Result<(Service, u64), RestartRequestError> {
        if self.desired_state != DesiredState::Running {
            Err(RestartRequestError::InvalidState)
        } else if self.restart_pending {
            Err(RestartRequestError::AlreadyPending)
        } else if self.state != ServiceState::Running {
            Err(RestartRequestError::InvalidState)
        } else {
            match self.process_id {
                Some(process_id) => Ok(
                    (
                        Service {
                            state: ServiceState::Restarting,
                            restart_pending: true,
                            ..self
                        },
                        process_id,
                    ),
                ),
                None => Err(RestartRequestError::InvalidState),
            }
        }
    }

    pub open spec fn cancel_restart(self) -> Service {
        if self.state == ServiceState::Restarting {
            Service { state: ServiceState::Running, restart_pending: false, ..self }
        } else {
            self
        }
    }

    pub open spec fn complete_restart(self) -> Service {
        if self.state == ServiceState::Running {
            Service { restart_pending: false, ..self }
        } else {
            self
        }
    }

    /// The service without a process, in a state that ends any controlled restart.
    pub open spec fn settled(self, state: ServiceState) -> Service {
        Service { process_id: None, state, restart_pending: false, ..self }
    }

    /// A status of the service's process: the new state and what to do.
    pub open spec fn observe(self, status: u64) -> (Service, ServiceStatusDisposition) {
        if abi::CHILD_STATUS_STOPPED_BASE <= status <= abi::CHILD_STATUS_CONTINUED {
            (self, ServiceStatusDisposition::WaitForNextEvent)
        } else if self.desired_state == DesiredState::Stopped || self.state
            == ServiceState::Stopping {
            (self.settled(ServiceState::Stopped), ServiceStatusDisposition::Stopped)
        } else if self.state == ServiceState::Restarting {
            (
                Service { process_id: None, state: ServiceState::Backoff, ..self },
                ServiceStatusDisposition::Restart { backoff_yields: 0 },
            )
        } else if self.state == ServiceState::Starting && self.spec.fatal_startup_exit_status
            == Some(status) {
            (self.settled(ServiceState::Failed), ServiceStatusDisposition::Failed)
        } else if self.restart_count >= self.spec.restart_limit {
            (self.settled(ServiceState::Failed), ServiceStatusDisposition::Failed)
        } else {
            (
                Service {
                    process_id: None,
                    restart_count: (self.restart_count + 1) as u32,
                    state: ServiceState::Backoff,
                    ..self
                },
                ServiceStatusDisposition::Restart {
                    backoff_yields: self.spec.restart_backoff_yields,
                },
            )
        }
    }
}

impl ServiceRuntime {
    pub fn new(spec: ServiceSpec) -> (service: Self)
        ensures
            service@ == Service::initial(spec),
            service@.coherent(),
    {
        Self {
            spec,
            process_id: None,
            restart_count: 0,
            state: ServiceState::Stopped,
            desired_state: DesiredState::Running,
            controlled_restart_pending: false,
            stop_transition_epoch: 0,
        }
    }

    pub fn spec(&self) -> (spec: ServiceSpec)
        ensures
            spec == self@.spec,
    {
        self.spec
    }

    pub fn process_id(&self) -> (process_id: Option<u64>)
        ensures
            process_id == self@.process_id,
    {
        self.process_id
    }

    pub fn restart_count(&self) -> (count: u32)
        ensures
            count == self@.restart_count,
    {
        self.restart_count
    }

    pub fn state(&self) -> (state: ServiceState)
        ensures
            state == self@.state,
    {
        self.state
    }

    pub fn desired_state(&self) -> (state: DesiredState)
        ensures
            state == self@.desired_state,
    {
        self.desired_state
    }

    pub fn should_start(&self) -> (due: bool)
        ensures
            due == self@.should_start(),
    {
        self.desired_state == DesiredState::Running && self.state == ServiceState::Stopped
            && self.process_id.is_none()
    }

    pub fn controlled_restart_pending(&self) -> (pending: bool)
        ensures
            pending == self@.restart_pending,
    {
        self.controlled_restart_pending
    }

    pub fn note_spawned(&mut self, process_id: u64)
        ensures
            final(self)@ == old(self)@.spawned(process_id),
            old(self)@.coherent() ==> final(self)@.coherent(),
    {
        self.process_id = Some(process_id);
        self.state = ServiceState::Starting;
    }

    pub fn note_ready(&mut self) -> (disposition: ReadyDisposition)
        ensures
            final(self)@ == old(self)@.ready(),
            disposition == if old(self)@.accepts_readiness() {
                ReadyDisposition::Accepted
            } else {
                ReadyDisposition::Stale
            },
            old(self)@.coherent() ==> final(self)@.coherent(),
    {
        if self.state == ServiceState::Starting && self.desired_state == DesiredState::Running
            && self.process_id.is_some() {
            self.state = ServiceState::Running;
            ReadyDisposition::Accepted
        } else {
            ReadyDisposition::Stale
        }
    }

    fn rearm(&mut self)
        ensures
            final(self)@ == old(self)@.rearmed(),
    {
        self.desired_state = DesiredState::Running;
        self.state = ServiceState::Stopped;
        self.restart_count = 0;
        self.controlled_restart_pending = false;
    }

    pub fn request_start(&mut self) -> (result: Result<(), StartRequestError>)
        ensures
            match old(self)@.start() {
                Ok(service) => result == Ok::<(), StartRequestError>(()) && final(self)@ == service,
                Err(error) => result == Err::<(), StartRequestError>(error) && final(self)@ == old(
                    self,
                )@,
            },
            old(self)@.coherent() ==> final(self)@.coherent(),
    {
        if self.state == ServiceState::Failed && self.process_id.is_none() {
            self.rearm();
            return Ok(());
        }
        if self.desired_state == DesiredState::Running {
            return Ok(());
        }
        match (self.state, self.process_id) {
            (ServiceState::Stopped | ServiceState::Backoff, None) => {
                self.rearm();
                Ok(())
            },
            (ServiceState::Stopping, Some(_)) => {
                self.desired_state = DesiredState::Running;
                self.state = ServiceState::Restarting;
                self.restart_count = 0;
                self.controlled_restart_pending = true;
                Ok(())
            },
            _ => Err(StartRequestError::InvalidState),
        }
    }

    pub fn request_stop(&mut self) -> (result: Result<StopRequest, StopRequestError>)
        ensures
            match old(self)@.stop() {
                Ok((service, stop)) => {
                    &&& result matches Ok(request) && request@ == stop
                    &&& final(self)@ == service
                },
                Err(error) => result == Err::<StopRequest, _>(error) && final(self)@ == old(self)@,
            },
            result matches Ok(request) ==> request@.coherent(),
            old(self)@.coherent() ==> final(self)@.coherent(),
    {
        let request = StopRequest {
            process_group: None,
            rollback_epoch: None,
            service: self.spec,
            previous_state: self.state,
            previous_desired_state: self.desired_state,
            previous_restart_pending: self.controlled_restart_pending,
        };
        if self.desired_state == DesiredState::Stopped {
            return Ok(request);
        }
        match (self.state, self.process_id) {
            (ServiceState::Starting | ServiceState::Running, Some(process_group)) => {
                if self.stop_transition_epoch == u64::MAX {
                    return Err(StopRequestError::TransitionExhausted);
                }
                let rollback_epoch: u64 = self.stop_transition_epoch + 1;
                self.stop_transition_epoch = rollback_epoch;
                self.desired_state = DesiredState::Stopped;
                self.state = ServiceState::Stopping;
                self.controlled_restart_pending = false;
                Ok(
                    StopRequest {
                        process_group: Some(process_group),
                        rollback_epoch: Some(rollback_epoch),
                        ..request
                    },
                )
            },
            (ServiceState::Restarting, Some(_)) => {
                self.desired_state = DesiredState::Stopped;
                self.state = ServiceState::Stopping;
                self.controlled_restart_pending = false;
                Ok(request)
            },
            (ServiceState::Stopped | ServiceState::Backoff | ServiceState::Failed, None) => {
                self.desired_state = DesiredState::Stopped;
                self.state = ServiceState::Stopped;
                self.controlled_restart_pending = false;
                Ok(request)
            },
            _ => Err(StopRequestError::InvalidState),
        }
    }

    pub fn cancel_stop(&mut self, request: StopRequest) -> (result: Result<(), StopCancelError>)
        ensures
            match old(self)@.cancel_stop(request@) {
                Ok(service) => result == Ok::<(), StopCancelError>(()) && final(self)@ == service,
                Err(error) => result == Err::<(), StopCancelError>(error) && final(self)@ == old(
                    self,
                )@,
            },
            old(self)@.coherent() && request@.coherent() ==> final(self)@.coherent(),
    {
        if request.service != self.spec {
            return Err(StopCancelError::WrongService);
        }
        let rollback_epoch: u64 = match request.rollback_epoch {
            Some(epoch) => epoch,
            None => {
                return Err(StopCancelError::NotRollbackCapable);
            },
        };
        let same_group = match (self.process_id, request.process_group) {
            (Some(left), Some(right)) => left == right,
            (None, None) => true,
            _ => false,
        };
        if self.stop_transition_epoch != rollback_epoch || self.state != ServiceState::Stopping
            || self.desired_state != DesiredState::Stopped || !same_group {
            return Err(StopCancelError::StaleTransition);
        }
        self.state = request.previous_state;
        self.desired_state = request.previous_desired_state;
        self.controlled_restart_pending = request.previous_restart_pending;
        Ok(())
    }

    pub fn request_restart(&mut self) -> (result: Result<u64, RestartRequestError>)
        ensures
            match old(self)@.restart() {
                Ok((service, process_id)) => {
                    &&& result == Ok::<_, RestartRequestError>(process_id)
                    &&& final(self)@ == service
                },
                Err(error) => result == Err::<u64, _>(error) && final(self)@ == old(self)@,
            },
            old(self)@.coherent() ==> final(self)@.coherent(),
    {
        if self.desired_state != DesiredState::Running {
            return Err(RestartRequestError::InvalidState);
        }
        if self.controlled_restart_pending {
            return Err(RestartRequestError::AlreadyPending);
        }
        match (self.state, self.process_id) {
            (ServiceState::Running, Some(process_id)) => {
                self.state = ServiceState::Restarting;
                self.controlled_restart_pending = true;
                Ok(process_id)
            },
            _ => Err(RestartRequestError::InvalidState),
        }
    }

    pub fn cancel_restart(&mut self)
        ensures
            final(self)@ == old(self)@.cancel_restart(),
            old(self)@.coherent() ==> final(self)@.coherent(),
    {
        if self.state == ServiceState::Restarting {
            self.state = ServiceState::Running;
            self.controlled_restart_pending = false;
        }
    }

    pub fn complete_restart(&mut self)
        ensures
            final(self)@ == old(self)@.complete_restart(),
            old(self)@.coherent() ==> final(self)@.coherent(),
    {
        if self.state == ServiceState::Running {
            self.controlled_restart_pending = false;
        }
    }

    pub fn observe_status(&mut self, status: u64) -> (disposition: ServiceStatusDisposition)
        ensures
            (final(self)@, disposition) == old(self)@.observe(status),
            old(self)@.coherent() ==> final(self)@.coherent(),
    {
        if status >= abi::CHILD_STATUS_STOPPED_BASE && status <= abi::CHILD_STATUS_CONTINUED {
            return ServiceStatusDisposition::WaitForNextEvent;
        }
        self.process_id = None;
        if self.desired_state == DesiredState::Stopped || self.state == ServiceState::Stopping {
            self.state = ServiceState::Stopped;
            self.controlled_restart_pending = false;
            return ServiceStatusDisposition::Stopped;
        }
        if self.state == ServiceState::Restarting {
            self.state = ServiceState::Backoff;
            return ServiceStatusDisposition::Restart { backoff_yields: 0 };
        }
        let fatal = match self.spec.fatal_startup_exit_status {
            Some(fatal) => fatal == status,
            None => false,
        };
        if self.state == ServiceState::Starting && fatal {
            self.state = ServiceState::Failed;
            self.controlled_restart_pending = false;
            return ServiceStatusDisposition::Failed;
        }
        if self.restart_count >= self.spec.restart_limit {
            self.state = ServiceState::Failed;
            self.controlled_restart_pending = false;
            return ServiceStatusDisposition::Failed;
        }
        self.restart_count = self.restart_count + 1;
        self.state = ServiceState::Backoff;
        ServiceStatusDisposition::Restart { backoff_yields: self.spec.restart_backoff_yields }
    }
}

/// Undoing a stop right away gives back the exact state before it, but for the counter that
/// tells stops apart; undoing it a second time is refused.
pub proof fn lemma_cancelled_stop_restores_the_service(service: Service)
    requires
        service.stop() matches Ok((_, stop)) && stop.rollback_epoch is Some,
    ensures
        ({
            let (stopped, stop) = service.stop()->Ok_0;
            let restored = Service { stop_epoch: stopped.stop_epoch, ..service };
            &&& stopped.cancel_stop(stop) == Ok::<_, StopCancelError>(restored)
            &&& restored.cancel_stop(stop) == Err::<Service, _>(StopCancelError::StaleTransition)
        }),
{
}

/// A stop that a start, a final status or another service has overtaken cannot be undone.
pub proof fn lemma_overtaken_stop_is_not_undone(service: Service, other: Service, status: u64)
    requires
        service.stop() matches Ok((_, stop)) && stop.rollback_epoch is Some,
        !(abi::CHILD_STATUS_STOPPED_BASE <= status <= abi::CHILD_STATUS_CONTINUED),
        !service.spec.same(other.spec),
    ensures
        ({
            let (stopped, stop) = service.stop()->Ok_0;
            &&& stopped.observe(status).0.cancel_stop(stop) == Err::<Service, _>(
                StopCancelError::StaleTransition,
            )
            &&& stopped.start() matches Ok(started) && started.cancel_stop(stop) == Err::<
                Service,
                _,
            >(StopCancelError::StaleTransition)
            &&& other.cancel_stop(stop) == Err::<Service, _>(StopCancelError::WrongService)
        }),
{
}

/// Taking back a restart request gives back the state before it.
pub proof fn lemma_cancelled_restart_restores_the_service(service: Service)
    requires
        service.restart() is Ok,
    ensures
        service.restart()->Ok_0.0.cancel_restart() == service,
{
}

/// A controlled restart or stop never charges the restart budget: after the request, the next
/// final status leaves the count as it was.
pub proof fn lemma_controlled_transitions_are_not_charged(service: Service, status: u64)
    requires
        !(abi::CHILD_STATUS_STOPPED_BASE <= status <= abi::CHILD_STATUS_CONTINUED),
    ensures
        service.restart() matches Ok((restarting, _)) ==> {
            let (after, disposition) = restarting.observe(status);
            &&& after.restart_count == service.restart_count
            &&& disposition == ServiceStatusDisposition::Restart { backoff_yields: 0 }
        },
        service.stop() matches Ok((stopping, _)) ==> {
            let (after, disposition) = stopping.observe(status);
            &&& after.restart_count == service.restart_count
            &&& disposition == ServiceStatusDisposition::Stopped
        },
{
}

/// A service that is meant to be stopped is never restarted, whatever its process does.
pub proof fn lemma_stopped_service_is_not_restarted(service: Service, status: u64)
    requires
        service.desired_state == DesiredState::Stopped,
    ensures
        service.observe(status).1 == ServiceStatusDisposition::WaitForNextEvent
            || service.observe(status).1 == ServiceStatusDisposition::Stopped,
        !service.should_start(),
        !service.observe(status).0.should_start(),
{
}

/// Readiness that arrives after a stop is stale and leaves the service on its way down.
pub proof fn lemma_readiness_after_stop_is_stale(service: Service)
    requires
        service.stop() is Ok,
    ensures
        !service.stop()->Ok_0.0.accepts_readiness(),
        service.stop()->Ok_0.0.ready() == service.stop()->Ok_0.0,
{
}

/// Statuses of a service that neither stops nor restarts under control.
pub open spec fn crashes(service: Service, statuses: Seq<u64>, process_id: u64) -> Service
    decreases statuses.len(),
{
    if statuses.len() == 0 {
        service
    } else {
        crashes(service, statuses.drop_last(), process_id).spawned(process_id).observe(
            statuses.last(),
        ).0
    }
}

/// The restart budget bounds the automatic restarts: however often the process dies, the count
/// never exceeds the limit, and once the limit is used up the next death fails the service.
pub proof fn lemma_restart_budget_is_bounded(
    service: Service,
    statuses: Seq<u64>,
    process_id: u64,
    status: u64,
)
    requires
        service.coherent(),
        service.desired_state == DesiredState::Running,
        !(abi::CHILD_STATUS_STOPPED_BASE <= status <= abi::CHILD_STATUS_CONTINUED),
    ensures
        ({
            let after = crashes(service, statuses, process_id);
            &&& after.restart_count <= service.spec.restart_limit
            &&& after.spec == service.spec
            &&& after.desired_state == DesiredState::Running
            &&& after.restart_count == service.spec.restart_limit ==> after.spawned(
                process_id,
            ).observe(status).1 == ServiceStatusDisposition::Failed
        }),
    decreases statuses.len(),
{
    if statuses.len() > 0 {
        lemma_restart_budget_is_bounded(service, statuses.drop_last(), process_id, status);
    }
}

} // verus!
