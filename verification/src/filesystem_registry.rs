//! How the filesystem services are made known to the kernel, and taken away again.

use crate::identity::ProviderGeneration;
use crate::init_run;
use crate::init_run::{hear, need, rest, Halt, Run};
use crate::init_text::Text;
use crate::ipc::CapabilityHandle;
use crate::kernel;
use crate::kernel::{Kernel, Op};
use crate::platform;
use crate::platform::{Errno, FilesystemProvider, Mount};
use vstd::prelude::*;

verus! {

/// How often a registration is tried.
pub const REGISTER_ATTEMPTS: usize = 8;

/// The generation as the kernel counts it, if it can.
#[verifier::allow_in_spec]
pub fn kernel_generation(generation: ProviderGeneration) -> Option<u32>
    returns
        (if generation.raw <= u32::MAX {
            Some(generation.raw as u32)
        } else {
            None
        }),
{
    if generation.raw <= u32::MAX as u64 {
        Some(generation.raw as u32)
    } else {
        None
    }
}

/// Taking one generation of a filesystem offline, without which the process gives up.
pub open spec fn offline_run(
    k: kernel::Transcript,
    provider: FilesystemProvider,
    generation: ProviderGeneration,
    text: Text,
) -> Run<()> {
    match kernel_generation(generation) {
        None => init_run::giving_up(k, text),
        Some(number) => init_run::need_run(platform::offline_run(k, provider, number), text),
    }
}

pub fn offline_filesystem_provider(
    k: &mut Kernel,
    provider: FilesystemProvider,
    service_generation: ProviderGeneration,
    failure_message: Text,
) -> (result: Result<(), Halt>)
    ensures
        (final(k)@, result) == offline_run(
            old(k)@,
            provider,
            service_generation,
            failure_message,
        ),
{
    match kernel_generation(service_generation) {
        None => Err(Halt::Failed(failure_message)),
        Some(number) => need(
            platform::offline_filesystem_provider(k, provider, number),
            failure_message,
        ),
    }
}

/// Registering the NullFS service, again and again while the kernel is busy.
pub open spec fn register_nullfs_tries(
    k: kernel::Transcript,
    generation: u32,
    endpoint: CapabilityHandle,
    tries: nat,
) -> Run<()>
    decreases tries,
{
    if tries == 0 {
        init_run::giving_up(k, Text::NullfsServiceBootstrapFailed)
    } else {
        let (asked, result) = platform::register_run(
            k,
            FilesystemProvider::Nullfs,
            endpoint,
            generation,
        );
        match result {
            None => (asked, Err(Halt::Waiting)),
            Some(Ok(_)) => init_run::end(asked, ()),
            Some(Err(error)) => if error == Errno::try_again() {
                let (rested, yielded) = init_run::rest_run(
                    asked,
                    Text::NullfsServiceBootstrapFailed,
                );
                match yielded {
                    Err(halt) => (rested, Err(halt)),
                    Ok(_) => register_nullfs_tries(
                        rested,
                        generation,
                        endpoint,
                        (tries - 1) as nat,
                    ),
                }
            } else {
                init_run::giving_up(asked, Text::NullfsServiceBootstrapFailed)
            },
        }
    }
}

pub open spec fn register_nullfs_run(
    k: kernel::Transcript,
    generation: ProviderGeneration,
    endpoint: CapabilityHandle,
) -> Run<()> {
    match kernel_generation(generation) {
        None => init_run::giving_up(k, Text::NullfsServiceProtocolFailed),
        Some(number) => register_nullfs_tries(k, number, endpoint, REGISTER_ATTEMPTS as nat),
    }
}

pub fn register_nullfs_proxy(
    k: &mut Kernel,
    service_generation: ProviderGeneration,
    request_endpoint: CapabilityHandle,
) -> (result: Result<(), Halt>)
    ensures
        (final(k)@, result) == register_nullfs_run(old(k)@, service_generation, request_endpoint),
{
    let number = match kernel_generation(service_generation) {
        None => {
            return Err(Halt::Failed(Text::NullfsServiceProtocolFailed));
        },
        Some(number) => number,
    };
    let mut tries: usize = REGISTER_ATTEMPTS;
    while tries > 0
        invariant
            register_nullfs_tries(old(k)@, number, request_endpoint, REGISTER_ATTEMPTS as nat)
                == register_nullfs_tries(k@, number, request_endpoint, tries as nat),
            kernel_generation(service_generation) == Some(number),
        decreases tries,
    {
        match hear(
            platform::register_filesystem(
                k,
                FilesystemProvider::Nullfs,
                request_endpoint,
                number,
            ),
        )? {
            Ok(_) => {
                return Ok(());
            },
            Err(error) => {
                if error != Errno::try_again() {
                    return Err(Halt::Failed(Text::NullfsServiceBootstrapFailed));
                }
                rest(k, Text::NullfsServiceBootstrapFailed)?;
            },
        }
        tries -= 1;
    }
    Err(Halt::Failed(Text::NullfsServiceBootstrapFailed))
}

/// Registering the temporary filesystem: a first connection shows that the generation is the one
/// that serves it.
pub open spec fn register_tmpfs_run(
    k: kernel::Transcript,
    generation: ProviderGeneration,
    endpoint: CapabilityHandle,
) -> Run<()> {
    init_run::bind(
        init_run::need_run(platform::connect_run(k, endpoint), Text::TmpfsServiceProtocolFailed),
        |k: kernel::Transcript, mount: Mount|
            match kernel_generation(generation) {
                None => init_run::giving_up(k, Text::TmpfsServiceProtocolFailed),
                Some(number) => if mount.generation != number as u64 {
                    init_run::giving_up(k, Text::TmpfsServiceProtocolFailed)
                } else {
                    init_run::bind(
                        init_run::need_run(
                            platform::unit_run(
                                k,
                                Op::DisconnectMount { mount: mount.number },
                                seq![],
                            ),
                            Text::TmpfsServiceProtocolFailed,
                        ),
                        |k: kernel::Transcript, parted: ()|
                            init_run::need_run(
                                platform::register_run(
                                    k,
                                    FilesystemProvider::Tmpfs,
                                    endpoint,
                                    number,
                                ),
                                Text::TmpfsServiceBootstrapFailed,
                            ),
                    )
                },
            },
    )
}

pub fn register_tmpfs_proxy(
    k: &mut Kernel,
    service_generation: ProviderGeneration,
    request_endpoint: CapabilityHandle,
) -> (result: Result<(), Halt>)
    ensures
        (final(k)@, result) == register_tmpfs_run(old(k)@, service_generation, request_endpoint),
{
    let mount = need(Mount::connect(k, request_endpoint), Text::TmpfsServiceProtocolFailed)?;
    let number = match kernel_generation(service_generation) {
        None => {
            return Err(Halt::Failed(Text::TmpfsServiceProtocolFailed));
        },
        Some(number) => number,
    };
    if mount.generation != number as u64 {
        return Err(Halt::Failed(Text::TmpfsServiceProtocolFailed));
    }
    need(mount.disconnect(k), Text::TmpfsServiceProtocolFailed)?;
    need(
        platform::register_filesystem(k, FilesystemProvider::Tmpfs, request_endpoint, number),
        Text::TmpfsServiceBootstrapFailed,
    )
}

/// Registering the filesystem router.
pub open spec fn register_vfs_run(
    k: kernel::Transcript,
    generation: ProviderGeneration,
    endpoint: CapabilityHandle,
) -> Run<()> {
    match kernel_generation(generation) {
        None => init_run::giving_up(k, Text::VfsServiceProtocolFailed),
        Some(number) => init_run::need_run(
            platform::register_run(k, FilesystemProvider::Vfs, endpoint, number),
            Text::VfsServiceBootstrapFailed,
        ),
    }
}

pub fn register_vfs_router(
    k: &mut Kernel,
    service_generation: ProviderGeneration,
    request_endpoint: CapabilityHandle,
) -> (result: Result<(), Halt>)
    ensures
        (final(k)@, result) == register_vfs_run(old(k)@, service_generation, request_endpoint),
{
    match kernel_generation(service_generation) {
        None => Err(Halt::Failed(Text::VfsServiceProtocolFailed)),
        Some(number) => need(
            platform::register_filesystem(k, FilesystemProvider::Vfs, request_endpoint, number),
            Text::VfsServiceBootstrapFailed,
        ),
    }
}

} // verus!
