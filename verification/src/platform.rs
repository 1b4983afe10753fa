//! The platform calls of a userspace process.

use crate::abi;
use crate::bytes::to_vec;
use crate::kernel;
use crate::kernel::{Kernel, Op};
use vstd::prelude::*;

verus! {

pub type FileDescriptor = u64;

pub type ProcessId = u64;

/// A platform error, by its positive code.
#[derive(Debug, Clone, Copy, PartialEq, Eq, Structural)]
pub struct Errno {
    pub raw: i32,
}

impl Errno {
    #[verifier::allow_in_spec]
    pub fn no_entry() -> Self
        returns
            (Errno { raw: abi::ERRNO_NO_ENTRY }),
    {
        Errno { raw: abi::ERRNO_NO_ENTRY }
    }

    #[verifier::allow_in_spec]
    pub fn no_process() -> Self
        returns
            (Errno { raw: abi::ERRNO_NO_PROCESS }),
    {
        Errno { raw: abi::ERRNO_NO_PROCESS }
    }

    #[verifier::allow_in_spec]
    pub fn permission() -> Self
        returns
            (Errno { raw: abi::ERRNO_PERMISSION }),
    {
        Errno { raw: abi::ERRNO_PERMISSION }
    }

    #[verifier::allow_in_spec]
    pub fn bad_file_descriptor() -> Self
        returns
            (Errno { raw: abi::ERRNO_BAD_FILE_DESCRIPTOR }),
    {
        Errno { raw: abi::ERRNO_BAD_FILE_DESCRIPTOR }
    }

    #[verifier::allow_in_spec]
    pub fn bad_address() -> Self
        returns
            (Errno { raw: abi::ERRNO_BAD_ADDRESS }),
    {
        Errno { raw: abi::ERRNO_BAD_ADDRESS }
    }

    #[verifier::allow_in_spec]
    pub fn not_directory() -> Self
        returns
            (Errno { raw: abi::ERRNO_NOT_DIRECTORY }),
    {
        Errno { raw: abi::ERRNO_NOT_DIRECTORY }
    }

    #[verifier::allow_in_spec]
    pub fn invalid_argument() -> Self
        returns
            (Errno { raw: abi::ERRNO_INVALID_ARGUMENT }),
    {
        Errno { raw: abi::ERRNO_INVALID_ARGUMENT }
    }

    #[verifier::allow_in_spec]
    pub fn too_many_open_files() -> Self
        returns
            (Errno { raw: abi::ERRNO_TOO_MANY_OPEN_FILES }),
    {
        Errno { raw: abi::ERRNO_TOO_MANY_OPEN_FILES }
    }

    #[verifier::allow_in_spec]
    pub fn range() -> Self
        returns
            (Errno { raw: abi::ERRNO_RANGE }),
    {
        Errno { raw: abi::ERRNO_RANGE }
    }

    #[verifier::allow_in_spec]
    pub fn name_too_long() -> Self
        returns
            (Errno { raw: abi::ERRNO_NAME_TOO_LONG }),
    {
        Errno { raw: abi::ERRNO_NAME_TOO_LONG }
    }

    #[verifier::allow_in_spec]
    pub fn not_implemented() -> Self
        returns
            (Errno { raw: abi::ERRNO_NOT_IMPLEMENTED }),
    {
        Errno { raw: abi::ERRNO_NOT_IMPLEMENTED }
    }

    #[verifier::allow_in_spec]
    pub fn try_again() -> Self
        returns
            (Errno { raw: abi::ERRNO_TRY_AGAIN }),
    {
        Errno { raw: abi::ERRNO_TRY_AGAIN }
    }

    #[verifier::allow_in_spec]
    pub fn io() -> Self
        returns
            (Errno { raw: abi::ERRNO_IO }),
    {
        Errno { raw: abi::ERRNO_IO }
    }

    pub fn code(self) -> (code: i32)
        ensures
            code == self.raw,
    {
        self.raw
    }
}

/// What a result register says: a negative value, read as a signed integer, is an error.
pub open spec fn decoded(raw: u64) -> Result<u64, Errno> {
    if raw >= 0x8000_0000_0000_0000 {
        Err(Errno { raw: ((u64::MAX - raw + 1) as u64) as i32 })
    } else {
        Ok(raw)
    }
}

fn decode(raw: u64) -> (result: Result<u64, Errno>)
    ensures
        result == decoded(raw),
{
    if raw >= 0x8000_0000_0000_0000 {
        let code: u64 = u64::MAX - raw + 1;
        Err(Errno { raw: code as i32 })
    } else {
        Ok(raw)
    }
}

/// A record about the system, in the kernel's words.
#[derive(Debug, Clone, Copy, PartialEq, Eq)]
pub struct SystemInfo {
    pub words: [u64; 4],
}

/// A record about a file, in the kernel's words.
#[derive(Debug, Clone, Copy, PartialEq, Eq)]
pub struct Stat {
    pub words: [u64; 4],
}

/// A call whose answer is its result register.
pub open spec fn value_run(k: kernel::Transcript, op: Op) -> (
    kernel::Transcript,
    Option<Result<u64, Errno>>,
) {
    (
        k.call(op),
        match k.reply() {
            Some(reply) => Some(decoded(reply.result)),
            None => None,
        },
    )
}

/// A call whose answer is success or an error.
pub open spec fn unit_run(k: kernel::Transcript, op: Op, bytes: Seq<u8>) -> (
    kernel::Transcript,
    Option<Result<(), Errno>>,
) {
    (
        k.ask(op, bytes),
        match k.reply() {
            Some(reply) => Some(
                match decoded(reply.result) {
                    Ok(_) => Ok(()),
                    Err(error) => Err(error),
                },
            ),
            None => None,
        },
    )
}

/// A call whose answer is the record that the kernel filled in.
pub open spec fn record_run(k: kernel::Transcript, op: Op, bytes: Seq<u8>) -> (
    kernel::Transcript,
    Option<Result<Seq<u64>, Errno>>,
) {
    (
        k.ask(op, bytes),
        match k.reply() {
            Some(reply) => Some(
                match decoded(reply.result) {
                    Ok(_) => Ok(reply.words),
                    Err(error) => Err(error),
                },
            ),
            None => None,
        },
    )
}

fn value_call(k: &mut Kernel, op: Op) -> (result: Option<Result<u64, Errno>>)
    ensures
        (final(k)@, result) == value_run(old(k)@, op),
{
    let answer = k.call(op)?;
    Some(decode(answer.result))
}

fn unit_call(k: &mut Kernel, op: Op, bytes: Vec<u8>) -> (result: Option<Result<(), Errno>>)
    ensures
        (final(k)@, result) == unit_run(old(k)@, op, bytes@),
{
    let answer = k.ask(op, bytes)?;
    match decode(answer.result) {
        Ok(_) => Some(Ok(())),
        Err(error) => Some(Err(error)),
    }
}

/// What a record is to the contracts.
pub open spec fn words_view(result: Option<Result<[u64; 4], Errno>>) -> Option<
    Result<Seq<u64>, Errno>,
> {
    match result {
        None => None,
        Some(Ok(words)) => Some(Ok(words@)),
        Some(Err(error)) => Some(Err(error)),
    }
}

fn record_call(k: &mut Kernel, op: Op, bytes: Vec<u8>) -> (result: Option<Result<[u64; 4], Errno>>)
    ensures
        (final(k)@, words_view(result)) == record_run(old(k)@, op, bytes@),
{
    let answer = k.ask(op, bytes)?;
    match decode(answer.result) {
        Ok(_) => Some(Ok(answer.words)),
        Err(error) => Some(Err(error)),
    }
}

pub fn system_info(k: &mut Kernel) -> (result: Option<Result<SystemInfo, Errno>>)
    ensures
        ({
            let (asked, record) = record_run(old(k)@, Op::SystemInfo, seq![]);
            &&& final(k)@ == asked
            &&& match (result, record) {
                (None, None) => true,
                (Some(Ok(info)), Some(Ok(words))) => info.words@ == words,
                (Some(Err(error)), Some(Err(expected))) => error == expected,
                _ => false,
            }
        }),
{
    match record_call(k, Op::SystemInfo, Vec::new())? {
        Ok(words) => Some(Ok(SystemInfo { words })),
        Err(error) => Some(Err(error)),
    }
}

/// Whether a file record is what came out.
pub open spec fn stat_of(
    result: Option<Result<Stat, Errno>>,
    record: Option<Result<Seq<u64>, Errno>>,
) -> bool {
    match (result, record) {
        (None, None) => true,
        (Some(Ok(stat)), Some(Ok(words))) => stat.words@ == words,
        (Some(Err(error)), Some(Err(expected))) => error == expected,
        _ => false,
    }
}

pub fn stat(k: &mut Kernel, path: &[u8]) -> (result: Option<Result<Stat, Errno>>)
    ensures
        final(k)@ == record_run(old(k)@, Op::PathStatus, path@).0,
        stat_of(result, record_run(old(k)@, Op::PathStatus, path@).1),
{
    match record_call(k, Op::PathStatus, to_vec(path))? {
        Ok(words) => Some(Ok(Stat { words })),
        Err(error) => Some(Err(error)),
    }
}

pub fn fstat(k: &mut Kernel, descriptor: FileDescriptor) -> (result: Option<Result<Stat, Errno>>)
    ensures
        final(k)@ == record_run(old(k)@, Op::FileStatus { descriptor }, seq![]).0,
        stat_of(result, record_run(old(k)@, Op::FileStatus { descriptor }, seq![]).1),
{
    match record_call(k, Op::FileStatus { descriptor }, Vec::new())? {
        Ok(words) => Some(Ok(Stat { words })),
        Err(error) => Some(Err(error)),
    }
}

/// Lists at most `capacity` entries of a directory from `start_index` on. The entries stand, in
/// the kernel's layout, in the bytes beside the count.
pub fn read_directory(k: &mut Kernel, path: &[u8], start_index: usize, capacity: usize) -> (result:
    Option<Result<(usize, Vec<u8>), Errno>>)
    ensures
        final(k)@ == old(k)@.ask(
            Op::ReadDirectory { start: start_index as u64, capacity: capacity as u64 },
            path@,
        ),
        match (result, old(k)@.reply()) {
            (None, None) => true,
            (Some(Ok((count, entries))), Some(reply)) => {
                &&& decoded(reply.result) matches Ok(raw) && count == raw as usize
                &&& entries@ == reply.bytes
            },
            (Some(Err(error)), Some(reply)) => decoded(reply.result) == Err::<u64, _>(error),
            _ => false,
        },
{
    let answer = k.ask(
        Op::ReadDirectory { start: start_index as u64, capacity: capacity as u64 },
        to_vec(path),
    )?;
    match decode(answer.result) {
        Ok(count) => Some(Ok((count as usize, answer.bytes))),
        Err(error) => Some(Err(error)),
    }
}

pub fn chdir(k: &mut Kernel, path: &[u8]) -> (result: Option<Result<(), Errno>>)
    ensures
        (final(k)@, result) == unit_run(old(k)@, Op::ChangeDirectory, path@),
{
    unit_call(k, Op::ChangeDirectory, to_vec(path))
}

/// The working directory, if it fits `capacity` bytes.
pub open spec fn getcwd_run(k: kernel::Transcript, capacity: usize) -> (
    kernel::Transcript,
    Option<Result<Seq<u8>, Errno>>,
) {
    (
        k.call(Op::WorkingDirectory { capacity: capacity as u64 }),
        match k.reply() {
            Some(reply) => Some(
                match decoded(reply.result) {
                    Err(error) => Err(error),
                    Ok(length) => if length > capacity || reply.bytes.len() != length {
                        Err(Errno::range())
                    } else {
                        Ok(reply.bytes)
                    },
                },
            ),
            None => None,
        },
    )
}

/// What a path is to the contracts.
pub open spec fn path_view(result: Option<Result<Vec<u8>, Errno>>) -> Option<
    Result<Seq<u8>, Errno>,
> {
    match result {
        None => None,
        Some(Ok(path)) => Some(Ok(path@)),
        Some(Err(error)) => Some(Err(error)),
    }
}

pub fn getcwd(k: &mut Kernel, capacity: usize) -> (result: Option<Result<Vec<u8>, Errno>>)
    ensures
        (final(k)@, path_view(result)) == getcwd_run(old(k)@, capacity),
{
    let answer = k.call(Op::WorkingDirectory { capacity: capacity as u64 })?;
    match decode(answer.result) {
        Err(error) => Some(Err(error)),
        Ok(length) => {
            if length > capacity as u64 || answer.bytes.len() as u64 != length {
                Some(Err(Errno::range()))
            } else {
                Some(Ok(answer.bytes))
            }
        },
    }
}

pub fn dup(k: &mut Kernel, descriptor: FileDescriptor) -> (result: Option<
    Result<FileDescriptor, Errno>,
>)
    ensures
        (final(k)@, result) == value_run(old(k)@, Op::DuplicateDescriptor { descriptor }),
{
    value_call(k, Op::DuplicateDescriptor { descriptor })
}

pub fn dup2(k: &mut Kernel, descriptor: FileDescriptor, target_descriptor: FileDescriptor) -> (result:
    Option<Result<FileDescriptor, Errno>>)
    ensures
        (final(k)@, result) == value_run(
            old(k)@,
            Op::DuplicateDescriptorTo { descriptor, target: target_descriptor },
        ),
{
    value_call(k, Op::DuplicateDescriptorTo { descriptor, target: target_descriptor })
}

pub fn getppid(k: &mut Kernel) -> (result: Option<Result<ProcessId, Errno>>)
    ensures
        (final(k)@, result) == value_run(old(k)@, Op::GetParentProcessId),
{
    value_call(k, Op::GetParentProcessId)
}

pub fn monotonic_time_ns(k: &mut Kernel) -> (result: Option<Result<u64, Errno>>)
    ensures
        (final(k)@, result) == value_run(old(k)@, Op::MonotonicTime),
{
    value_call(k, Op::MonotonicTime)
}

pub fn kill(k: &mut Kernel, process_id: ProcessId, signal: u64) -> (result: Option<
    Result<(), Errno>,
>)
    ensures
        (final(k)@, result) == unit_run(old(k)@, Op::Kill { process_id, signal }, seq![]),
{
    unit_call(k, Op::Kill { process_id, signal }, Vec::new())
}

/// What provides a filesystem.
#[derive(Debug, Clone, Copy, PartialEq, Eq, Structural)]
pub enum FilesystemProvider {
    Nullfs,
    Tmpfs,
    Vfs,
}

impl FilesystemProvider {
    #[verifier::allow_in_spec]
    pub fn raw(self) -> u64
        returns
            (match self {
                Self::Nullfs => 1u64,
                Self::Tmpfs => 2u64,
                Self::Vfs => 3u64,
            }),
    {
        match self {
            Self::Nullfs => 1,
            Self::Tmpfs => 2,
            Self::Vfs => 3,
        }
    }
}

pub open spec fn register_run(
    k: kernel::Transcript,
    provider: FilesystemProvider,
    endpoint: u64,
    generation: u32,
) -> (kernel::Transcript, Option<Result<(), Errno>>) {
    unit_run(
        k,
        Op::RegisterFilesystem {
            provider: provider.raw(),
            endpoint,
            generation: generation as u64,
        },
        seq![],
    )
}

/// Makes an endpoint the one over which a filesystem is reached.
pub fn register_filesystem(
    k: &mut Kernel,
    provider: FilesystemProvider,
    endpoint: u64,
    generation: u32,
) -> (result: Option<Result<(), Errno>>)
    ensures
        (final(k)@, result) == register_run(old(k)@, provider, endpoint, generation),
{
    unit_call(
        k,
        Op::RegisterFilesystem {
            provider: provider.raw(),
            endpoint,
            generation: generation as u64,
        },
        Vec::new(),
    )
}

pub open spec fn offline_run(
    k: kernel::Transcript,
    provider: FilesystemProvider,
    generation: u32,
) -> (kernel::Transcript, Option<Result<(), Errno>>) {
    unit_run(
        k,
        Op::OfflineFilesystem { provider: provider.raw(), generation: generation as u64 },
        seq![],
    )
}

/// Takes one generation of a filesystem offline.
pub fn offline_filesystem_provider(
    k: &mut Kernel,
    provider: FilesystemProvider,
    generation: u32,
) -> (result: Option<Result<(), Errno>>)
    ensures
        (final(k)@, result) == offline_run(old(k)@, provider, generation),
{
    unit_call(
        k,
        Op::OfflineFilesystem { provider: provider.raw(), generation: generation as u64 },
        Vec::new(),
    )
}

/// Opens a read-only block device.
pub fn open_block_device_endpoint(k: &mut Kernel, device: u64) -> (result: Option<
    Result<u64, Errno>,
>)
    ensures
        (final(k)@, result) == value_run(old(k)@, Op::OpenBlockDevice { device }),
{
    value_call(k, Op::OpenBlockDevice { device })
}

/// A call that hands bytes over and whose answer is its result register.
pub open spec fn value_bytes_run(k: kernel::Transcript, op: Op, bytes: Seq<u8>) -> (
    kernel::Transcript,
    Option<Result<u64, Errno>>,
) {
    (
        k.ask(op, bytes),
        match k.reply() {
            Some(reply) => Some(decoded(reply.result)),
            None => None,
        },
    )
}

/// Opens the writable partition of the volume with this identity.
pub fn open_writable_nullfs_block_device_endpoint(k: &mut Kernel, volume: &[u8]) -> (result: Option<
    Result<u64, Errno>,
>)
    ensures
        (final(k)@, result) == value_bytes_run(old(k)@, Op::OpenWritableBlockDevice, volume@),
{
    let answer = k.ask(Op::OpenWritableBlockDevice, to_vec(volume))?;
    Some(decode(answer.result))
}

/// Takes one generation of the writable partition offline.
pub fn offline_writable_nullfs_block_device_endpoint(
    k: &mut Kernel,
    volume: &[u8],
    generation: u64,
) -> (result: Option<Result<(), Errno>>)
    ensures
        (final(k)@, result) == unit_run(
            old(k)@,
            Op::OfflineWritableBlockDevice { generation },
            volume@,
        ),
{
    unit_call(k, Op::OfflineWritableBlockDevice { generation }, to_vec(volume))
}

/// A connection to a temporary filesystem: its number, and the generation that serves it.
#[derive(Debug, Clone, Copy, PartialEq, Eq, Structural)]
pub struct Mount {
    pub number: u64,
    pub generation: u64,
}

/// Connecting to a temporary filesystem.
pub open spec fn connect_run(k: kernel::Transcript, endpoint: u64) -> (
    kernel::Transcript,
    Option<Result<Mount, Errno>>,
) {
    (
        k.call(Op::ConnectMount { endpoint }),
        match k.reply() {
            None => None,
            Some(reply) => Some(
                match decoded(reply.result) {
                    Ok(number) => Ok(Mount { number, generation: reply.words[0] }),
                    Err(error) => Err(error),
                },
            ),
        },
    )
}

impl Mount {
    pub fn connect(k: &mut Kernel, endpoint: u64) -> (result: Option<Result<Self, Errno>>)
        ensures
            (final(k)@, result) == connect_run(old(k)@, endpoint),
    {
        let answer = k.call(Op::ConnectMount { endpoint })?;
        match decode(answer.result) {
            Ok(number) => Some(Ok(Mount { number, generation: answer.words[0] })),
            Err(error) => Some(Err(error)),
        }
    }

    pub fn disconnect(self, k: &mut Kernel) -> (result: Option<Result<(), Errno>>)
        ensures
            (final(k)@, result) == unit_run(
                old(k)@,
                Op::DisconnectMount { mount: self.number },
                seq![],
            ),
    {
        unit_call(k, Op::DisconnectMount { mount: self.number }, Vec::new())
    }
}

} // verus!
