//! What the first process is booted for.

use crate::bytes::equal;
use crate::init_run;
use crate::init_run::{need, Halt, Run};
use crate::init_text::Text;
use crate::ipc;
use crate::kernel;
use crate::kernel::{Kernel, Op};
use crate::service_cleanup;
use crate::syscall;
use vstd::prelude::*;

verus! {

/// How much of the file that names the mode is read.
pub const BOOT_MODE_BYTES: usize = 32;

#[derive(Clone, Copy, Debug, PartialEq, Eq, Structural)]
pub enum InitBootMode {
    Normal,
    SmokeTest,
    NullfsRestartTest,
    NullfsOutOfSpaceTest,
    NullfsBlockDeviceLossTest,
    NullfsCrashRecoveryTest,
    NullfsBootGenerationTest,
    NullfsUnavailableTest,
    LoggingLifecycleTest,
}

impl InitBootMode {
    /// The name of the mode.
    pub open spec fn spelled(self) -> Seq<char> {
        match self {
            InitBootMode::Normal => "normal"@,
            InitBootMode::SmokeTest => "smoke-test"@,
            InitBootMode::NullfsRestartTest => "nullfs-restart-test"@,
            InitBootMode::NullfsOutOfSpaceTest => "nullfs-out-of-space-test"@,
            InitBootMode::NullfsBlockDeviceLossTest => "nullfs-block-device-loss-test"@,
            InitBootMode::NullfsCrashRecoveryTest => "nullfs-crash-recovery-test"@,
            InitBootMode::NullfsBootGenerationTest => "nullfs-boot-generation-test"@,
            InitBootMode::NullfsUnavailableTest => "nullfs-unavailable-test"@,
            InitBootMode::LoggingLifecycleTest => "logging-lifecycle-test"@,
        }
    }

    /// Whether bytes name the mode: its name, with at most one line end behind it.
    pub open spec fn named_by(self, bytes: Seq<u8>) -> bool {
        ||| bytes == service_cleanup::ascii(self.spelled())
        ||| bytes == service_cleanup::ascii(self.spelled()).push(10)
    }

    fn name(self) -> (name: &'static str)
        ensures
            name@ == self.spelled(),
    {
        match self {
            InitBootMode::Normal => "normal",
            InitBootMode::SmokeTest => "smoke-test",
            InitBootMode::NullfsRestartTest => "nullfs-restart-test",
            InitBootMode::NullfsOutOfSpaceTest => "nullfs-out-of-space-test",
            InitBootMode::NullfsBlockDeviceLossTest => "nullfs-block-device-loss-test",
            InitBootMode::NullfsCrashRecoveryTest => "nullfs-crash-recovery-test",
            InitBootMode::NullfsBootGenerationTest => "nullfs-boot-generation-test",
            InitBootMode::NullfsUnavailableTest => "nullfs-unavailable-test",
            InitBootMode::LoggingLifecycleTest => "logging-lifecycle-test",
        }
    }

    fn is_named_by(self, bytes: &[u8]) -> (named: bool)
        ensures
            named == self.named_by(bytes@),
    {
        let name = self.name().as_bytes();
        if equal(bytes, name) {
            return true;
        }
        let length: usize = bytes.len();
        if length == 0 || bytes[length - 1] != 10 {
            assert(bytes@ != name@.push(10) || bytes@.last() == 10);
            return false;
        }
        let front = vstd::slice::slice_subrange(bytes, 0, length - 1);
        let same = equal(front, name);
        proof {
            assert(front@.push(10) =~= bytes@);
            if bytes@ == name@.push(10) {
                assert(front@ =~= name@);
            }
        }
        same
    }
}

/// The mode that bytes name.
pub open spec fn mode_named(bytes: Seq<u8>) -> Option<InitBootMode> {
    if InitBootMode::Normal.named_by(bytes) {
        Some(InitBootMode::Normal)
    } else if InitBootMode::SmokeTest.named_by(bytes) {
        Some(InitBootMode::SmokeTest)
    } else if InitBootMode::NullfsRestartTest.named_by(bytes) {
        Some(InitBootMode::NullfsRestartTest)
    } else if InitBootMode::NullfsOutOfSpaceTest.named_by(bytes) {
        Some(InitBootMode::NullfsOutOfSpaceTest)
    } else if InitBootMode::NullfsBlockDeviceLossTest.named_by(bytes) {
        Some(InitBootMode::NullfsBlockDeviceLossTest)
    } else if InitBootMode::NullfsCrashRecoveryTest.named_by(bytes) {
        Some(InitBootMode::NullfsCrashRecoveryTest)
    } else if InitBootMode::NullfsBootGenerationTest.named_by(bytes) {
        Some(InitBootMode::NullfsBootGenerationTest)
    } else if InitBootMode::NullfsUnavailableTest.named_by(bytes) {
        Some(InitBootMode::NullfsUnavailableTest)
    } else if InitBootMode::LoggingLifecycleTest.named_by(bytes) {
        Some(InitBootMode::LoggingLifecycleTest)
    } else {
        None
    }
}

/// Tells which mode bytes name.
pub fn parse_boot_mode(bytes: &[u8]) -> (mode: Option<InitBootMode>)
    ensures
        mode == mode_named(bytes@),
{
    if InitBootMode::Normal.is_named_by(bytes) {
        Some(InitBootMode::Normal)
    } else if InitBootMode::SmokeTest.is_named_by(bytes) {
        Some(InitBootMode::SmokeTest)
    } else if InitBootMode::NullfsRestartTest.is_named_by(bytes) {
        Some(InitBootMode::NullfsRestartTest)
    } else if InitBootMode::NullfsOutOfSpaceTest.is_named_by(bytes) {
        Some(InitBootMode::NullfsOutOfSpaceTest)
    } else if InitBootMode::NullfsBlockDeviceLossTest.is_named_by(bytes) {
        Some(InitBootMode::NullfsBlockDeviceLossTest)
    } else if InitBootMode::NullfsCrashRecoveryTest.is_named_by(bytes) {
        Some(InitBootMode::NullfsCrashRecoveryTest)
    } else if InitBootMode::NullfsBootGenerationTest.is_named_by(bytes) {
        Some(InitBootMode::NullfsBootGenerationTest)
    } else if InitBootMode::NullfsUnavailableTest.is_named_by(bytes) {
        Some(InitBootMode::NullfsUnavailableTest)
    } else if InitBootMode::LoggingLifecycleTest.is_named_by(bytes) {
        Some(InitBootMode::LoggingLifecycleTest)
    } else {
        None
    }
}

/// What tells a name from the others: a few of its bytes, and how many there are.
spec fn told_apart(mode: InitBootMode) -> (int, u8, u8) {
    match mode {
        InitBootMode::Normal => (6, 110, 111),
        InitBootMode::SmokeTest => (10, 115, 109),
        InitBootMode::NullfsRestartTest => (19, 110, 117),
        InitBootMode::NullfsOutOfSpaceTest => (24, 110, 117),
        InitBootMode::NullfsBlockDeviceLossTest => (29, 110, 117),
        InitBootMode::NullfsCrashRecoveryTest => (26, 110, 117),
        InitBootMode::NullfsBootGenerationTest => (27, 110, 117),
        InitBootMode::NullfsUnavailableTest => (23, 110, 117),
        InitBootMode::LoggingLifecycleTest => (22, 108, 111),
    }
}

proof fn lemma_name(mode: InitBootMode)
    ensures
        ({
            let name = service_cleanup::ascii(mode.spelled());
            &&& name.len() == told_apart(mode).0
            &&& name[0] == told_apart(mode).1
            &&& name[1] == told_apart(mode).2
            &&& name.last() == if mode == InitBootMode::Normal {
                108u8
            } else {
                116u8
            }
        }),
{
    reveal_strlit("normal");
    reveal_strlit("smoke-test");
    reveal_strlit("nullfs-restart-test");
    reveal_strlit("nullfs-out-of-space-test");
    reveal_strlit("nullfs-block-device-loss-test");
    reveal_strlit("nullfs-crash-recovery-test");
    reveal_strlit("nullfs-boot-generation-test");
    reveal_strlit("nullfs-unavailable-test");
    reveal_strlit("logging-lifecycle-test");
    let name = mode.spelled();
    assert(vstd::utf8::is_ascii_chars(name));
    vstd::utf8::is_ascii_chars_encode_utf8(name);
    assert(name[0] as u8 == service_cleanup::ascii(name)[0]);
    assert(name[1] as u8 == service_cleanup::ascii(name)[1]);
    assert(name[name.len() - 1] as u8 == service_cleanup::ascii(name)[name.len() - 1]);
}

proof fn lemma_names_differ(mode: InitBootMode, other: InitBootMode, bytes: Seq<u8>)
    requires
        mode.named_by(bytes),
        other.named_by(bytes),
    ensures
        mode == other,
{
    lemma_name(mode);
    lemma_name(other);
    let name = service_cleanup::ascii(mode.spelled());
    let second = service_cleanup::ascii(other.spelled());
    if bytes == name.push(10) {
        assert(bytes.last() == 10);
        assert(bytes == second.push(10));
        assert(bytes.len() == second.len() + 1);
    } else {
        assert(bytes.last() != 10);
        if bytes == second.push(10) {
            assert(second.push(10).last() == 10);
        }
    }
}

/// No bytes name two modes, and the mode that they name is the one that is found.
pub proof fn lemma_names_are_distinct(mode: InitBootMode, bytes: Seq<u8>)
    ensures
        mode.named_by(bytes) <==> mode_named(bytes) == Some(mode),
{
    if let Some(found) = mode_named(bytes) {
        if mode.named_by(bytes) {
            lemma_names_differ(mode, found, bytes);
        }
    }
}

/// Reading the mode that the process is booted for.
pub open spec fn boot_mode_run(k: kernel::Transcript) -> Run<InitBootMode> {
    let text = Text::BootModeProbeFailed;
    init_run::bind(
        init_run::need_run(
            syscall::value_bytes_run(k, Op::Open, Text::BootModePath.bytes()),
            text,
        ),
        |k: kernel::Transcript, descriptor: u64|
            init_run::bind(
                init_run::need_run(syscall::read_run(k, descriptor, BOOT_MODE_BYTES), text),
                |k: kernel::Transcript, bytes: Seq<u8>|
                    init_run::bind(
                        init_run::need_run(
                            ipc::unit_run(k, Op::CloseFile { descriptor }, seq![]),
                            text,
                        ),
                        |k: kernel::Transcript, closed: ()|
                            match mode_named(bytes) {
                                None => init_run::giving_up(k, text),
                                Some(mode) => init_run::end(k, mode),
                            },
                    ),
            ),
    )
}

pub fn init_boot_mode(k: &mut Kernel) -> (result: Result<InitBootMode, Halt>)
    ensures
        (final(k)@, result) == boot_mode_run(old(k)@),
{
    let text = Text::BootModeProbeFailed;
    let descriptor: u64 = need(syscall::open(k, Text::BootModePath.as_bytes()), text)?;
    let bytes = need(syscall::read(k, descriptor, BOOT_MODE_BYTES), text)?;
    need(syscall::close(k, descriptor), text)?;
    match parse_boot_mode(bytes.as_slice()) {
        None => Err(Halt::Failed(text)),
        Some(mode) => Ok(mode),
    }
}

} // verus!
