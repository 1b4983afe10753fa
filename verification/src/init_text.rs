//! What the first process writes, the commands it runs and the messages it waits for.

use crate::service_cleanup;
use vstd::prelude::*;

verus! {

/// A fixed text.
#[derive(Debug, Clone, Copy, PartialEq, Eq, Structural)]
pub enum Text {
    InitReady,
    LoggingServiceCommand,
    LoggingServiceIgnoreTerminateCommand,
    LoggingServiceSuppressReadinessCommand,
    LoggingServiceReadyMessage,
    LoggingServiceStarting,
    LoggingServiceRestarting,
    LoggingServiceReady,
    LoggingServiceFailed,
    LoggingServiceForceTerminating,
    LoggingServiceJobDrained,
    LoggingServiceReadinessTimeout,
    LoggingServiceBootstrapFailed,
    LoggingServiceProtocolFailed,
    LoggingProbeCommand,
    LoggingStressProbeCommand,
    LoggingRestartProbeCommand,
    LoggingProbeBound,
    LoggingProbeFillQueue,
    LoggingProbeBackpressure,
    LoggingProbeFailed,
    LoggingProbePassed,
    LogctlCommand,
    LogctlFailed,
    LogctlPassed,
    SvListCommand,
    SvStatusLoggingCommand,
    SvStatusNullfsCommand,
    SvStartLoggingCommand,
    SvStopLoggingCommand,
    SvRestartLoggingCommand,
    SvRestartNullfsCommand,
    SvRestartTmpfsCommand,
    SvRestartVfsCommand,
    SvListPassed,
    SvStatusLoggingPassed,
    ServiceControlBootstrapFailed,
    ServiceControlProbeFailed,
    ServiceControlProtocolFailed,
    LoggingCollectorTestPassed,
    LoggingCollectorExitWaitFailed,
    LoggingCollectorExitNoChild,
    LoggingCollectorRestartPolicyFailed,
    BlockDeviceProbeCommand,
    BlockDeviceProbeFailed,
    BlockDeviceProbePassed,
    WritableNullfsBlockDeviceProbeCommand,
    WritableNullfsBlockDeviceProbeFailed,
    WritableNullfsBlockDeviceProbePassed,
    NullfsBootGenerationProbeCommand,
    NullfsBootGenerationProbeFailed,
    NullfsBootGenerationProbePassed,
    BlockDeviceBootstrapFailed,
    NullfsServiceCommand,
    NullfsContainmentTestServiceCommand,
    NullfsCrashContainmentTestServiceCommand,
    NullfsServiceReadyMessage,
    NullfsServiceStarting,
    NullfsServiceRestarting,
    NullfsServiceReady,
    NullfsServiceFailed,
    NullfsServiceBootstrapFailed,
    NullfsServiceProtocolFailed,
    NullfsServiceJobDrained,
    NullfsReadinessProbeCommand,
    NullfsReadinessProbeFailed,
    NullfsReadinessProbePassed,
    NullfsFullProbeCommand,
    NullfsFullProbeFailed,
    NullfsFullProbePassed,
    TmpfsServiceCommand,
    TmpfsContainmentTestCommand,
    TmpfsServiceReadyMessage,
    TmpfsServiceStarting,
    TmpfsServiceRestarting,
    TmpfsServiceReady,
    TmpfsServiceFailed,
    TmpfsServiceBootstrapFailed,
    TmpfsServiceProtocolFailed,
    TmpfsServiceJobDrained,
    TmpfsProbeCommand,
    TmpfsProbeFailed,
    TmpfsProbePassed,
    VfsServiceCommand,
    VfsContainmentTestCommand,
    VfsServiceReadyMessage,
    VfsServiceStarting,
    VfsServiceRestarting,
    VfsServiceReady,
    VfsServiceFailed,
    VfsServiceBootstrapFailed,
    VfsServiceProtocolFailed,
    VfsServiceJobDrained,
    VfsReadinessProbeCommand,
    VfsReadinessProbeFailed,
    VfsReadinessProbePassed,
    VfsFullProbeCommand,
    VfsFullProbeFailed,
    VfsFullProbePassed,
    VfsBootstrapProbeCommand,
    VfsBootstrapProbePassed,
    VfsOutOfSpaceProbeCommand,
    VfsOutOfSpaceProbeFailed,
    VfsOutOfSpaceProbePassed,
    VfsBlockDeviceLossProbeCommand,
    VfsBlockDeviceLossProbeReady,
    VfsBlockDeviceLossProviderOfflined,
    VfsBlockDeviceLossMutationFailed,
    VfsBlockDeviceLossFilesystemOfflined,
    VfsBlockDeviceLossInjected,
    VfsBlockDeviceLossProbeFailed,
    VfsBlockDeviceLossProbePassed,
    VfsCrashRecoveryProbeCommand,
    VfsCrashRecoveryReady,
    VfsCrashRecoveryGo,
    VfsCrashRecoveryMutationFailed,
    VfsCrashRecoveryReplacement,
    VfsCrashRecoveryInjected,
    VfsCrashRecoveryProbeFailed,
    VfsCrashRecoveryProbePassed,
    DefinitionServiceLoading,
    DefinitionServiceStarting,
    DefinitionServiceRestarting,
    DefinitionServiceJobDrained,
    DefinitionServiceReady,
    DefinitionServiceVerified,
    DefinitionServiceFailed,
    DefinitionServiceProtocolFailed,
    NullfsRestartProbeCommand,
    NullfsRestartProbeReady,
    NullfsRestartProbeReplacement,
    NullfsRestartProbePassed,
    NullfsRestartProbeFailed,
    LoggingLifecycleTestPassed,
    LoggingLifecycleTestFailed,
    BootModePath,
    BootModeProbeFailed,
    NullfsUnavailableRecoveryHandoff,
    NullfsUnavailableTestFailed,
    ShellCommand,
    ShellLaunched,
    ShellRestarting,
    WrongProcessId,
    ShellSpawnFailed,
    ShellWaitFailed,
    ShellForegroundFailed,
    NullfsForcingDirtyRecovery,
    SvStatusNullfsPassed,
    NullfsDirtyRecoveryPassed,
    CleanupDiagnosticFailed,
    LoggingName,
    NullfsName,
    TmpfsName,
    VfsName,
    Nothing,
}

impl Text {
    /// The characters of the text.
    pub open spec fn chars(self) -> Seq<char> {
        match self {
            Self::InitReady => "userspace init ready: pid=1\n"@,
            Self::LoggingServiceCommand => "/logging-service"@,
            Self::LoggingServiceIgnoreTerminateCommand => "/logging-service --ignore-terminate"@,
            Self::LoggingServiceSuppressReadinessCommand => "/logging-service --suppress-readiness"@,
            Self::LoggingServiceReadyMessage => "service-ready: logging"@,
            Self::LoggingServiceStarting => "userspace init: starting logging service\n"@,
            Self::LoggingServiceRestarting => "userspace init: logging service exited; restarting\n"@,
            Self::LoggingServiceReady => "userspace init: logging service ready\n"@,
            Self::LoggingServiceFailed => "userspace init: logging service exhausted restart budget\n"@,
            Self::LoggingServiceForceTerminating => "userspace init: logging service termination grace expired; forcing exit\n"@,
            Self::LoggingServiceJobDrained => "userspace init: logging service generation job drained\n"@,
            Self::LoggingServiceReadinessTimeout => "userspace init: logging service readiness deadline expired; forcing exit\n"@,
            Self::LoggingServiceBootstrapFailed => "userspace init: failed to grant logging capabilities\n"@,
            Self::LoggingServiceProtocolFailed => "userspace init: invalid logging readiness message\n"@,
            Self::LoggingProbeCommand => "/logging-probe"@,
            Self::LoggingStressProbeCommand => "/logging-probe collector-stress"@,
            Self::LoggingRestartProbeCommand => "/logging-probe after-restart"@,
            Self::LoggingProbeBound => "logging-probe: bound"@,
            Self::LoggingProbeFillQueue => "logging-probe: fill queue"@,
            Self::LoggingProbeBackpressure => "logging-probe: backpressure verified"@,
            Self::LoggingProbeFailed => "userspace init: native NSWP logging probe failed\n"@,
            Self::LoggingProbePassed => "userspace init: native NSWP logging probe passed\n"@,
            Self::LogctlCommand => "/logctl show"@,
            Self::LogctlFailed => "userspace init: logctl show failed\n"@,
            Self::LogctlPassed => "userspace init: logctl show passed\n"@,
            Self::SvListCommand => "/sv list"@,
            Self::SvStatusLoggingCommand => "/sv status logging"@,
            Self::SvStatusNullfsCommand => "/sv status nullfs"@,
            Self::SvStartLoggingCommand => "/sv start logging"@,
            Self::SvStopLoggingCommand => "/sv stop logging"@,
            Self::SvRestartLoggingCommand => "/sv restart logging"@,
            Self::SvRestartNullfsCommand => "/sv restart nullfs"@,
            Self::SvRestartTmpfsCommand => "/sv restart tmpfs"@,
            Self::SvRestartVfsCommand => "/sv restart vfs"@,
            Self::SvListPassed => "userspace init: sv list passed\n"@,
            Self::SvStatusLoggingPassed => "userspace init: sv status logging passed\n"@,
            Self::ServiceControlBootstrapFailed => "userspace init: failed to create service-control observation endpoint\n"@,
            Self::ServiceControlProbeFailed => "userspace init: service-control probe failed\n"@,
            Self::ServiceControlProtocolFailed => "userspace init: service-control state invalid\n"@,
            Self::LoggingCollectorTestPassed => "userspace init: logging collector ring, backpressure, redaction, and route generation isolation verified\n"@,
            Self::LoggingCollectorExitWaitFailed => "userspace init: logging collector service exit wait failed\n"@,
            Self::LoggingCollectorExitNoChild => "userspace init: logging collector exit reported no child\n"@,
            Self::LoggingCollectorRestartPolicyFailed => "userspace init: logging collector restart policy failed\n"@,
            Self::BlockDeviceProbeCommand => "/block-device-probe"@,
            Self::BlockDeviceProbeFailed => "userspace init: read-only block-device probe failed\n"@,
            Self::BlockDeviceProbePassed => "userspace init: read-only block-device probe passed\n"@,
            Self::WritableNullfsBlockDeviceProbeCommand => "/block-device-probe nullfs-writable"@,
            Self::WritableNullfsBlockDeviceProbeFailed => "userspace init: writable NullFS partition probe failed\n"@,
            Self::WritableNullfsBlockDeviceProbePassed => "userspace init: writable NullFS partition probe passed\n"@,
            Self::NullfsBootGenerationProbeCommand => "/nullfs-boot-generation-probe"@,
            Self::NullfsBootGenerationProbeFailed => "userspace init: NullFS boot-generation probe failed\n"@,
            Self::NullfsBootGenerationProbePassed => "userspace init: NullFS boot-generation probe passed\n"@,
            Self::BlockDeviceBootstrapFailed => "userspace init: failed to acquire block-device endpoint\n"@,
            Self::NullfsServiceCommand => "/nullfs-service --writable"@,
            Self::NullfsContainmentTestServiceCommand => "/nullfs-service --writable --containment-test"@,
            Self::NullfsCrashContainmentTestServiceCommand => "/nullfs-service --writable --crash-test --containment-test"@,
            Self::NullfsServiceReadyMessage => "service-ready: nullfs"@,
            Self::NullfsServiceStarting => "userspace init: starting NullFS service\n"@,
            Self::NullfsServiceRestarting => "userspace init: NullFS service exited; restarting\n"@,
            Self::NullfsServiceReady => "userspace init: writable NullFS service ready\n"@,
            Self::NullfsServiceFailed => "userspace init: NullFS service exhausted restart budget\n"@,
            Self::NullfsServiceBootstrapFailed => "userspace init: failed to grant NullFS capabilities\n"@,
            Self::NullfsServiceProtocolFailed => "userspace init: invalid NullFS readiness message\n"@,
            Self::NullfsServiceJobDrained => "userspace init: NullFS service generation job drained\n"@,
            Self::NullfsReadinessProbeCommand => "/nullfs-probe readiness"@,
            Self::NullfsReadinessProbeFailed => "userspace init: NullFS readiness failed\n"@,
            Self::NullfsReadinessProbePassed => "userspace init: NullFS readiness passed\n"@,
            Self::NullfsFullProbeCommand => "/nullfs-probe full"@,
            Self::NullfsFullProbeFailed => "userspace init: full NullFS probe failed\n"@,
            Self::NullfsFullProbePassed => "userspace init: full NullFS probe passed\n"@,
            Self::TmpfsServiceCommand => "/tmpfs-service"@,
            Self::TmpfsContainmentTestCommand => "/tmpfs-service --containment-test"@,
            Self::TmpfsServiceReadyMessage => "service-ready: tmpfs"@,
            Self::TmpfsServiceStarting => "userspace init: starting tmpfs service\n"@,
            Self::TmpfsServiceRestarting => "userspace init: tmpfs service exited; restarting\n"@,
            Self::TmpfsServiceReady => "userspace init: tmpfs service ready\n"@,
            Self::TmpfsServiceFailed => "userspace init: tmpfs service exhausted restart budget\n"@,
            Self::TmpfsServiceBootstrapFailed => "userspace init: failed to grant tmpfs capabilities\n"@,
            Self::TmpfsServiceProtocolFailed => "userspace init: invalid tmpfs readiness message\n"@,
            Self::TmpfsServiceJobDrained => "userspace init: tmpfs service generation job drained\n"@,
            Self::TmpfsProbeCommand => "/tmpfs-probe"@,
            Self::TmpfsProbeFailed => "userspace init: userspace tmpfs probe failed\n"@,
            Self::TmpfsProbePassed => "userspace init: userspace tmpfs probe passed\n"@,
            Self::VfsServiceCommand => "/vfs-service"@,
            Self::VfsContainmentTestCommand => "/vfs-service --containment-test"@,
            Self::VfsServiceReadyMessage => "service-ready: vfs"@,
            Self::VfsServiceStarting => "userspace init: starting vfs service\n"@,
            Self::VfsServiceRestarting => "userspace init: vfs service exited; restarting\n"@,
            Self::VfsServiceReady => "userspace init: vfs service ready\n"@,
            Self::VfsServiceFailed => "userspace init: vfs service exhausted restart budget\n"@,
            Self::VfsServiceBootstrapFailed => "userspace init: failed to grant vfs capabilities\n"@,
            Self::VfsServiceProtocolFailed => "userspace init: invalid vfs readiness message\n"@,
            Self::VfsServiceJobDrained => "userspace init: vfs service generation job drained\n"@,
            Self::VfsReadinessProbeCommand => "/vfs-probe readiness"@,
            Self::VfsReadinessProbeFailed => "userspace init: vfs readiness failed\n"@,
            Self::VfsReadinessProbePassed => "userspace init: vfs readiness passed\n"@,
            Self::VfsFullProbeCommand => "/vfs-probe full"@,
            Self::VfsFullProbeFailed => "userspace init: full vfs probe failed\n"@,
            Self::VfsFullProbePassed => "userspace init: full vfs probe passed\n"@,
            Self::VfsBootstrapProbeCommand => "/vfs-probe bootstrap"@,
            Self::VfsBootstrapProbePassed => "userspace init: bootstrap VFS remained available while NullFS was offline\n"@,
            Self::VfsOutOfSpaceProbeCommand => "/vfs-probe out-of-space"@,
            Self::VfsOutOfSpaceProbeFailed => "userspace init: NullFS out-of-space probe failed\n"@,
            Self::VfsOutOfSpaceProbePassed => "userspace init: NullFS data and inode exhaustion, service continuity, and resource reclamation verified\n"@,
            Self::VfsBlockDeviceLossProbeCommand => "/vfs-probe block-device-loss"@,
            Self::VfsBlockDeviceLossProbeReady => "block-device-loss: mutation prepared"@,
            Self::VfsBlockDeviceLossProviderOfflined => "block-device-loss: provider offlined"@,
            Self::VfsBlockDeviceLossMutationFailed => "block-device-loss: uncertain mutation failed"@,
            Self::VfsBlockDeviceLossFilesystemOfflined => "block-device-loss: filesystem generation offlined"@,
            Self::VfsBlockDeviceLossInjected => "userspace init: writable NullFS block endpoint loss injected\n"@,
            Self::VfsBlockDeviceLossProbeFailed => "userspace init: NullFS block-device-loss probe failed\n"@,
            Self::VfsBlockDeviceLossProbePassed => "userspace init: NullFS block-device loss, uncertain mutation fail-stop, stale VFS errors, and bootstrap continuity verified\n"@,
            Self::VfsCrashRecoveryProbeCommand => "/vfs-probe crash-recovery"@,
            Self::VfsCrashRecoveryReady => "crash-recovery: baseline ready"@,
            Self::VfsCrashRecoveryGo => "crash-recovery: mutation armed"@,
            Self::VfsCrashRecoveryMutationFailed => "crash-recovery: uncertain mutation failed"@,
            Self::VfsCrashRecoveryReplacement => "crash-recovery: replacement registered"@,
            Self::VfsCrashRecoveryInjected => "userspace init: NullFS service-backed mutation crash injected\n"@,
            Self::VfsCrashRecoveryProbeFailed => "userspace init: NullFS crash-recovery probe failed\n"@,
            Self::VfsCrashRecoveryProbePassed => "userspace init: NullFS service crash, uncertain VFS failure, dirty remount recovery, stale descriptors, and durable single mutation verified\n"@,
            Self::DefinitionServiceLoading => "userspace init: loading service definition from /System/services\n"@,
            Self::DefinitionServiceStarting => "userspace init: starting definition-backed service\n"@,
            Self::DefinitionServiceRestarting => "userspace init: definition-backed service exited; restarting\n"@,
            Self::DefinitionServiceJobDrained => "userspace init: definition-backed service generation job drained\n"@,
            Self::DefinitionServiceReady => "userspace init: definition-backed service ready\n"@,
            Self::DefinitionServiceVerified => "userspace init: definition-backed activation and restart verified\n"@,
            Self::DefinitionServiceFailed => "userspace init: definition-backed service activation failed\n"@,
            Self::DefinitionServiceProtocolFailed => "userspace init: invalid definition-backed service readiness\n"@,
            Self::NullfsRestartProbeCommand => "/vfs-probe nullfs-restart"@,
            Self::NullfsRestartProbeReady => "nullfs-restart: live descriptor and persistent mutation ready"@,
            Self::NullfsRestartProbeReplacement => "nullfs-restart: replacement registered"@,
            Self::NullfsRestartProbePassed => "userspace init: NullFS restart persistent VFS mutation and stale descriptors verified\n"@,
            Self::NullfsRestartProbeFailed => "userspace init: NullFS restart probe failed\n"@,
            Self::LoggingLifecycleTestPassed => "userspace init: logging live start, stop, route withdrawal, restart fencing, and generation replacement verified\n"@,
            Self::LoggingLifecycleTestFailed => "userspace init: logging lifecycle test failed\n"@,
            Self::BootModePath => "/BOOTMODE"@,
            Self::BootModeProbeFailed => "userspace init: unable to read boot mode\n"@,
            Self::NullfsUnavailableRecoveryHandoff => "userspace init: configured primary NullFS volume unavailable; entering recovery\n"@,
            Self::NullfsUnavailableTestFailed => "userspace init: unavailable-primary recovery test failed\n"@,
            Self::ShellCommand => "/ush"@,
            Self::ShellLaunched => "userspace init launched /ush\n"@,
            Self::ShellRestarting => "userspace init: /ush exited; restarting\n"@,
            Self::WrongProcessId => "userspace init: expected process id 1\n"@,
            Self::ShellSpawnFailed => "userspace init: failed to launch /ush\n"@,
            Self::ShellWaitFailed => "userspace init: failed while waiting for /ush\n"@,
            Self::ShellForegroundFailed => "userspace init: failed to restore /ush to the foreground\n"@,
            Self::NullfsForcingDirtyRecovery => "userspace init: NullFS quiesce failed; forcing dirty recovery\n"@,
            Self::SvStatusNullfsPassed => "userspace init: sv status nullfs passed\n"@,
            Self::NullfsDirtyRecoveryPassed => "userspace init: NullFS dirty recovery restart passed\n"@,
            Self::CleanupDiagnosticFailed => "init: cleanup diagnostic encoding failed\n"@,
            Self::LoggingName => "logging"@,
            Self::NullfsName => "nullfs"@,
            Self::TmpfsName => "tmpfs"@,
            Self::VfsName => "vfs"@,
            Self::Nothing => ""@,
        }
    }

    /// The bytes of the text.
    pub open spec fn bytes(self) -> Seq<u8> {
        service_cleanup::ascii(self.chars())
    }

    pub fn as_str(self) -> (text: &'static str)
        ensures
            text@ == self.chars(),
    {
        match self {
            Self::InitReady => "userspace init ready: pid=1\n",
            Self::LoggingServiceCommand => "/logging-service",
            Self::LoggingServiceIgnoreTerminateCommand => "/logging-service --ignore-terminate",
            Self::LoggingServiceSuppressReadinessCommand => "/logging-service --suppress-readiness",
            Self::LoggingServiceReadyMessage => "service-ready: logging",
            Self::LoggingServiceStarting => "userspace init: starting logging service\n",
            Self::LoggingServiceRestarting => "userspace init: logging service exited; restarting\n",
            Self::LoggingServiceReady => "userspace init: logging service ready\n",
            Self::LoggingServiceFailed => "userspace init: logging service exhausted restart budget\n",
            Self::LoggingServiceForceTerminating => "userspace init: logging service termination grace expired; forcing exit\n",
            Self::LoggingServiceJobDrained => "userspace init: logging service generation job drained\n",
            Self::LoggingServiceReadinessTimeout => "userspace init: logging service readiness deadline expired; forcing exit\n",
            Self::LoggingServiceBootstrapFailed => "userspace init: failed to grant logging capabilities\n",
            Self::LoggingServiceProtocolFailed => "userspace init: invalid logging readiness message\n",
            Self::LoggingProbeCommand => "/logging-probe",
            Self::LoggingStressProbeCommand => "/logging-probe collector-stress",
            Self::LoggingRestartProbeCommand => "/logging-probe after-restart",
            Self::LoggingProbeBound => "logging-probe: bound",
            Self::LoggingProbeFillQueue => "logging-probe: fill queue",
            Self::LoggingProbeBackpressure => "logging-probe: backpressure verified",
            Self::LoggingProbeFailed => "userspace init: native NSWP logging probe failed\n",
            Self::LoggingProbePassed => "userspace init: native NSWP logging probe passed\n",
            Self::LogctlCommand => "/logctl show",
            Self::LogctlFailed => "userspace init: logctl show failed\n",
            Self::LogctlPassed => "userspace init: logctl show passed\n",
            Self::SvListCommand => "/sv list",
            Self::SvStatusLoggingCommand => "/sv status logging",
            Self::SvStatusNullfsCommand => "/sv status nullfs",
            Self::SvStartLoggingCommand => "/sv start logging",
            Self::SvStopLoggingCommand => "/sv stop logging",
            Self::SvRestartLoggingCommand => "/sv restart logging",
            Self::SvRestartNullfsCommand => "/sv restart nullfs",
            Self::SvRestartTmpfsCommand => "/sv restart tmpfs",
            Self::SvRestartVfsCommand => "/sv restart vfs",
            Self::SvListPassed => "userspace init: sv list passed\n",
            Self::SvStatusLoggingPassed => "userspace init: sv status logging passed\n",
            Self::ServiceControlBootstrapFailed => "userspace init: failed to create service-control observation endpoint\n",
            Self::ServiceControlProbeFailed => "userspace init: service-control probe failed\n",
            Self::ServiceControlProtocolFailed => "userspace init: service-control state invalid\n",
            Self::LoggingCollectorTestPassed => "userspace init: logging collector ring, backpressure, redaction, and route generation isolation verified\n",
            Self::LoggingCollectorExitWaitFailed => "userspace init: logging collector service exit wait failed\n",
            Self::LoggingCollectorExitNoChild => "userspace init: logging collector exit reported no child\n",
            Self::LoggingCollectorRestartPolicyFailed => "userspace init: logging collector restart policy failed\n",
            Self::BlockDeviceProbeCommand => "/block-device-probe",
            Self::BlockDeviceProbeFailed => "userspace init: read-only block-device probe failed\n",
            Self::BlockDeviceProbePassed => "userspace init: read-only block-device probe passed\n",
            Self::WritableNullfsBlockDeviceProbeCommand => "/block-device-probe nullfs-writable",
            Self::WritableNullfsBlockDeviceProbeFailed => "userspace init: writable NullFS partition probe failed\n",
            Self::WritableNullfsBlockDeviceProbePassed => "userspace init: writable NullFS partition probe passed\n",
            Self::NullfsBootGenerationProbeCommand => "/nullfs-boot-generation-probe",
            Self::NullfsBootGenerationProbeFailed => "userspace init: NullFS boot-generation probe failed\n",
            Self::NullfsBootGenerationProbePassed => "userspace init: NullFS boot-generation probe passed\n",
            Self::BlockDeviceBootstrapFailed => "userspace init: failed to acquire block-device endpoint\n",
            Self::NullfsServiceCommand => "/nullfs-service --writable",
            Self::NullfsContainmentTestServiceCommand => "/nullfs-service --writable --containment-test",
            Self::NullfsCrashContainmentTestServiceCommand => "/nullfs-service --writable --crash-test --containment-test",
            Self::NullfsServiceReadyMessage => "service-ready: nullfs",
            Self::NullfsServiceStarting => "userspace init: starting NullFS service\n",
            Self::NullfsServiceRestarting => "userspace init: NullFS service exited; restarting\n",
            Self::NullfsServiceReady => "userspace init: writable NullFS service ready\n",
            Self::NullfsServiceFailed => "userspace init: NullFS service exhausted restart budget\n",
            Self::NullfsServiceBootstrapFailed => "userspace init: failed to grant NullFS capabilities\n",
            Self::NullfsServiceProtocolFailed => "userspace init: invalid NullFS readiness message\n",
            Self::NullfsServiceJobDrained => "userspace init: NullFS service generation job drained\n",
            Self::NullfsReadinessProbeCommand => "/nullfs-probe readiness",
            Self::NullfsReadinessProbeFailed => "userspace init: NullFS readiness failed\n",
            Self::NullfsReadinessProbePassed => "userspace init: NullFS readiness passed\n",
            Self::NullfsFullProbeCommand => "/nullfs-probe full",
            Self::NullfsFullProbeFailed => "userspace init: full NullFS probe failed\n",
            Self::NullfsFullProbePassed => "userspace init: full NullFS probe passed\n",
            Self::TmpfsServiceCommand => "/tmpfs-service",
            Self::TmpfsContainmentTestCommand => "/tmpfs-service --containment-test",
            Self::TmpfsServiceReadyMessage => "service-ready: tmpfs",
            Self::TmpfsServiceStarting => "userspace init: starting tmpfs service\n",
            Self::TmpfsServiceRestarting => "userspace init: tmpfs service exited; restarting\n",
            Self::TmpfsServiceReady => "userspace init: tmpfs service ready\n",
            Self::TmpfsServiceFailed => "userspace init: tmpfs service exhausted restart budget\n",
            Self::TmpfsServiceBootstrapFailed => "userspace init: failed to grant tmpfs capabilities\n",
            Self::TmpfsServiceProtocolFailed => "userspace init: invalid tmpfs readiness message\n",
            Self::TmpfsServiceJobDrained => "userspace init: tmpfs service generation job drained\n",
            Self::TmpfsProbeCommand => "/tmpfs-probe",
            Self::TmpfsProbeFailed => "userspace init: userspace tmpfs probe failed\n",
            Self::TmpfsProbePassed => "userspace init: userspace tmpfs probe passed\n",
            Self::VfsServiceCommand => "/vfs-service",
            Self::VfsContainmentTestCommand => "/vfs-service --containment-test",
            Self::VfsServiceReadyMessage => "service-ready: vfs",
            Self::VfsServiceStarting => "userspace init: starting vfs service\n",
            Self::VfsServiceRestarting => "userspace init: vfs service exited; restarting\n",
            Self::VfsServiceReady => "userspace init: vfs service ready\n",
            Self::VfsServiceFailed => "userspace init: vfs service exhausted restart budget\n",
            Self::VfsServiceBootstrapFailed => "userspace init: failed to grant vfs capabilities\n",
            Self::VfsServiceProtocolFailed => "userspace init: invalid vfs readiness message\n",
            Self::VfsServiceJobDrained => "userspace init: vfs service generation job drained\n",
            Self::VfsReadinessProbeCommand => "/vfs-probe readiness",
            Self::VfsReadinessProbeFailed => "userspace init: vfs readiness failed\n",
            Self::VfsReadinessProbePassed => "userspace init: vfs readiness passed\n",
            Self::VfsFullProbeCommand => "/vfs-probe full",
            Self::VfsFullProbeFailed => "userspace init: full vfs probe failed\n",
            Self::VfsFullProbePassed => "userspace init: full vfs probe passed\n",
            Self::VfsBootstrapProbeCommand => "/vfs-probe bootstrap",
            Self::VfsBootstrapProbePassed => "userspace init: bootstrap VFS remained available while NullFS was offline\n",
            Self::VfsOutOfSpaceProbeCommand => "/vfs-probe out-of-space",
            Self::VfsOutOfSpaceProbeFailed => "userspace init: NullFS out-of-space probe failed\n",
            Self::VfsOutOfSpaceProbePassed => "userspace init: NullFS data and inode exhaustion, service continuity, and resource reclamation verified\n",
            Self::VfsBlockDeviceLossProbeCommand => "/vfs-probe block-device-loss",
            Self::VfsBlockDeviceLossProbeReady => "block-device-loss: mutation prepared",
            Self::VfsBlockDeviceLossProviderOfflined => "block-device-loss: provider offlined",
            Self::VfsBlockDeviceLossMutationFailed => "block-device-loss: uncertain mutation failed",
            Self::VfsBlockDeviceLossFilesystemOfflined => "block-device-loss: filesystem generation offlined",
            Self::VfsBlockDeviceLossInjected => "userspace init: writable NullFS block endpoint loss injected\n",
            Self::VfsBlockDeviceLossProbeFailed => "userspace init: NullFS block-device-loss probe failed\n",
            Self::VfsBlockDeviceLossProbePassed => "userspace init: NullFS block-device loss, uncertain mutation fail-stop, stale VFS errors, and bootstrap continuity verified\n",
            Self::VfsCrashRecoveryProbeCommand => "/vfs-probe crash-recovery",
            Self::VfsCrashRecoveryReady => "crash-recovery: baseline ready",
            Self::VfsCrashRecoveryGo => "crash-recovery: mutation armed",
            Self::VfsCrashRecoveryMutationFailed => "crash-recovery: uncertain mutation failed",
            Self::VfsCrashRecoveryReplacement => "crash-recovery: replacement registered",
            Self::VfsCrashRecoveryInjected => "userspace init: NullFS service-backed mutation crash injected\n",
            Self::VfsCrashRecoveryProbeFailed => "userspace init: NullFS crash-recovery probe failed\n",
            Self::VfsCrashRecoveryProbePassed => "userspace init: NullFS service crash, uncertain VFS failure, dirty remount recovery, stale descriptors, and durable single mutation verified\n",
            Self::DefinitionServiceLoading => "userspace init: loading service definition from /System/services\n",
            Self::DefinitionServiceStarting => "userspace init: starting definition-backed service\n",
            Self::DefinitionServiceRestarting => "userspace init: definition-backed service exited; restarting\n",
            Self::DefinitionServiceJobDrained => "userspace init: definition-backed service generation job drained\n",
            Self::DefinitionServiceReady => "userspace init: definition-backed service ready\n",
            Self::DefinitionServiceVerified => "userspace init: definition-backed activation and restart verified\n",
            Self::DefinitionServiceFailed => "userspace init: definition-backed service activation failed\n",
            Self::DefinitionServiceProtocolFailed => "userspace init: invalid definition-backed service readiness\n",
            Self::NullfsRestartProbeCommand => "/vfs-probe nullfs-restart",
            Self::NullfsRestartProbeReady => "nullfs-restart: live descriptor and persistent mutation ready",
            Self::NullfsRestartProbeReplacement => "nullfs-restart: replacement registered",
            Self::NullfsRestartProbePassed => "userspace init: NullFS restart persistent VFS mutation and stale descriptors verified\n",
            Self::NullfsRestartProbeFailed => "userspace init: NullFS restart probe failed\n",
            Self::LoggingLifecycleTestPassed => "userspace init: logging live start, stop, route withdrawal, restart fencing, and generation replacement verified\n",
            Self::LoggingLifecycleTestFailed => "userspace init: logging lifecycle test failed\n",
            Self::BootModePath => "/BOOTMODE",
            Self::BootModeProbeFailed => "userspace init: unable to read boot mode\n",
            Self::NullfsUnavailableRecoveryHandoff => "userspace init: configured primary NullFS volume unavailable; entering recovery\n",
            Self::NullfsUnavailableTestFailed => "userspace init: unavailable-primary recovery test failed\n",
            Self::ShellCommand => "/ush",
            Self::ShellLaunched => "userspace init launched /ush\n",
            Self::ShellRestarting => "userspace init: /ush exited; restarting\n",
            Self::WrongProcessId => "userspace init: expected process id 1\n",
            Self::ShellSpawnFailed => "userspace init: failed to launch /ush\n",
            Self::ShellWaitFailed => "userspace init: failed while waiting for /ush\n",
            Self::ShellForegroundFailed => "userspace init: failed to restore /ush to the foreground\n",
            Self::NullfsForcingDirtyRecovery => "userspace init: NullFS quiesce failed; forcing dirty recovery\n",
            Self::SvStatusNullfsPassed => "userspace init: sv status nullfs passed\n",
            Self::NullfsDirtyRecoveryPassed => "userspace init: NullFS dirty recovery restart passed\n",
            Self::CleanupDiagnosticFailed => "init: cleanup diagnostic encoding failed\n",
            Self::LoggingName => "logging",
            Self::NullfsName => "nullfs",
            Self::TmpfsName => "tmpfs",
            Self::VfsName => "vfs",
            Self::Nothing => "",
        }
    }

    pub fn as_bytes(self) -> (bytes: &'static [u8])
        ensures
            bytes@ == self.bytes(),
    {
        self.as_str().as_bytes()
    }
}

} // verus!
