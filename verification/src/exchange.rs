//! Private reply endpoints: a client asks over a granted endpoint and hands over the sending side
//! of an endpoint of its own, on which exactly one answer comes back.

use crate::ipc;
use crate::ipc::{CapabilityHandle, CapabilityInfo, ObjectKind, Rights, Transfer};
use crate::kernel;
use crate::kernel::{Kernel, Op};
use crate::procedure;
use crate::procedure::{close_pair_quietly, close_quietly};
use vstd::prelude::*;

verus! {

/// Why a capability does not have the exact endpoint shape that is required.
#[allow(inconsistent_fields)]
#[derive(Clone, Copy, Debug, PartialEq, Eq, Structural)]
pub enum EndpointShapeError {
    ZeroObjectId,
    WrongKind { actual: ObjectKind },
    WrongRights { expected: Rights, actual: Rights },
    NonEmptyQueue { messages: u64 },
    ObjectMismatch { expected: u64, actual: u64 },
    SameObject { object_id: u64 },
}

/// Whether a capability is an endpoint with exactly these rights, and without messages if they
/// are not wanted.
#[verifier::allow_in_spec]
pub fn validate_endpoint(
    info: CapabilityInfo,
    expected_rights: Rights,
    require_empty: bool,
) -> Result<(), EndpointShapeError>
    returns
        (if info.object_id == 0 {
            Err(EndpointShapeError::ZeroObjectId)
        } else if info.kind != ObjectKind::Endpoint {
            Err(EndpointShapeError::WrongKind { actual: info.kind })
        } else if info.rights != expected_rights {
            Err(EndpointShapeError::WrongRights { expected: expected_rights, actual: info.rights })
        } else if require_empty && info.size != 0 {
            Err(EndpointShapeError::NonEmptyQueue { messages: info.size })
        } else {
            Ok(())
        }),
{
    if info.object_id == 0 {
        return Err(EndpointShapeError::ZeroObjectId);
    }
    if info.kind != ObjectKind::Endpoint {
        return Err(EndpointShapeError::WrongKind { actual: info.kind });
    }
    if info.rights != expected_rights {
        return Err(
            EndpointShapeError::WrongRights { expected: expected_rights, actual: info.rights },
        );
    }
    if require_empty && info.size != 0 {
        return Err(EndpointShapeError::NonEmptyQueue { messages: info.size });
    }
    Ok(())
}

/// Why a request could not be sent with a private reply endpoint.
#[derive(Clone, Copy, Debug, PartialEq, Eq, Structural)]
pub enum ExchangeError {
    InspectGrant(ipc::Error),
    InvalidGrant(EndpointShapeError),
    CreateReplyEndpoint(ipc::Error),
    InspectReplyEndpoint(ipc::Error),
    InvalidReplyEndpoint(EndpointShapeError),
    DuplicateReplyReceiver(ipc::Error),
    InspectReplyReceiver(ipc::Error),
    InvalidReplyReceiver(EndpointShapeError),
    Send(ipc::Error),
    CloseReplySource(ipc::Error),
}

/// The receiving side of a private reply endpoint, whose owner has to close it.
#[derive(Clone, Copy, Debug, PartialEq, Eq, Structural)]
pub struct PrivateReply {
    pub receive: CapabilityHandle,
    pub object_id: u64,
}

/// What the source of a reply endpoint must be, beside the grant over which it will travel.
#[verifier::allow_in_spec]
pub fn source_shape(
    source: CapabilityInfo,
    grant: CapabilityInfo,
    apart_from_grant: bool,
) -> Result<(), EndpointShapeError>
    returns
        (match validate_endpoint(source, Rights::endpoint(), true) {
            Err(error) => Err(error),
            Ok(_) => if apart_from_grant && source.object_id == grant.object_id {
                Err(EndpointShapeError::SameObject { object_id: source.object_id })
            } else {
                Ok(())
            },
        }),
{
    if let Err(error) = validate_endpoint(source, Rights::endpoint(), true) {
        return Err(error);
    }
    if apart_from_grant && source.object_id == grant.object_id {
        return Err(EndpointShapeError::SameObject { object_id: source.object_id });
    }
    Ok(())
}

/// What the receiving side of a reply endpoint must be.
#[verifier::allow_in_spec]
pub fn receiver_shape(receiver: CapabilityInfo, source: CapabilityInfo) -> Result<
    (),
    EndpointShapeError,
>
    returns
        (match validate_endpoint(receiver, Rights::receive(), true) {
            Err(error) => Err(error),
            Ok(_) => if receiver.object_id != source.object_id {
                Err(
                    EndpointShapeError::ObjectMismatch {
                        expected: source.object_id,
                        actual: receiver.object_id,
                    },
                )
            } else {
                Ok(())
            },
        }),
{
    if let Err(error) = validate_endpoint(receiver, Rights::receive(), true) {
        return Err(error);
    }
    if receiver.object_id != source.object_id {
        return Err(
            EndpointShapeError::ObjectMismatch {
                expected: source.object_id,
                actual: receiver.object_id,
            },
        );
    }
    Ok(())
}

pub type ExchangeRun = (kernel::Transcript, Option<Result<PrivateReply, ExchangeError>>);

/// Sending the request and closing the source of the reply endpoint.
pub open spec fn request_run(
    k: kernel::Transcript,
    grant: CapabilityHandle,
    source: CapabilityHandle,
    reply: PrivateReply,
    bytes: Seq<u8>,
) -> ExchangeRun {
    let transfer = Transfer { handle: source, rights: Rights::send() };
    procedure::after(
        ipc::send_run(k, grant, bytes, Some(transfer)),
        |k: kernel::Transcript, sent: Result<(), ipc::Error>|
            match sent {
                Err(error) => procedure::fail_after(
                    procedure::quiet_pair_run(k, reply.receive, source),
                    ExchangeError::Send(error),
                ),
                Ok(_) => procedure::after(
                    ipc::close_run(k, source),
                    |k: kernel::Transcript, closed: Result<(), ipc::Error>|
                        match closed {
                            Err(error) => procedure::fail_after(
                                procedure::quiet_run(k, reply.receive),
                                ExchangeError::CloseReplySource(error),
                            ),
                            Ok(_) => procedure::done(k, Ok(reply)),
                        },
                ),
            },
    )
}

/// Splitting the receiving side off a reply endpoint, then sending the request.
pub open spec fn receiver_run(
    k: kernel::Transcript,
    grant: CapabilityHandle,
    source: CapabilityHandle,
    source_info: CapabilityInfo,
    bytes: Seq<u8>,
) -> ExchangeRun {
    procedure::after(
        ipc::value_run(k, Op::Duplicate { handle: source, rights: Rights::receive().raw }),
        |k: kernel::Transcript, duplicated: Result<u64, ipc::Error>|
            match duplicated {
                Err(error) => procedure::fail_after(
                    procedure::quiet_run(k, source),
                    ExchangeError::DuplicateReplyReceiver(error),
                ),
                Ok(receive) => procedure::after(
                    ipc::info_run(k, receive),
                    |k: kernel::Transcript, inspected: Result<CapabilityInfo, ipc::Error>|
                        match inspected {
                            Err(error) => procedure::fail_after(
                                procedure::quiet_pair_run(k, receive, source),
                                ExchangeError::InspectReplyReceiver(error),
                            ),
                            Ok(info) => match receiver_shape(info, source_info) {
                                Err(error) => procedure::fail_after(
                                    procedure::quiet_pair_run(k, receive, source),
                                    ExchangeError::InvalidReplyReceiver(error),
                                ),
                                Ok(_) => request_run(
                                    k,
                                    grant,
                                    source,
                                    PrivateReply { receive, object_id: info.object_id },
                                    bytes,
                                ),
                            },
                        },
                ),
            },
    )
}

/// Making a reply endpoint, then sending the request.
pub open spec fn reply_run(
    k: kernel::Transcript,
    grant: CapabilityHandle,
    grant_info: CapabilityInfo,
    bytes: Seq<u8>,
    apart_from_grant: bool,
) -> ExchangeRun {
    procedure::after(
        ipc::value_run(k, Op::EndpointCreate),
        |k: kernel::Transcript, created: Result<u64, ipc::Error>|
            match created {
                Err(error) => procedure::done(k, Err(ExchangeError::CreateReplyEndpoint(error))),
                Ok(source) => procedure::after(
                    ipc::info_run(k, source),
                    |k: kernel::Transcript, inspected: Result<CapabilityInfo, ipc::Error>|
                        match inspected {
                            Err(error) => procedure::fail_after(
                                procedure::quiet_run(k, source),
                                ExchangeError::InspectReplyEndpoint(error),
                            ),
                            Ok(info) => match source_shape(info, grant_info, apart_from_grant) {
                                Err(error) => procedure::fail_after(
                                    procedure::quiet_run(k, source),
                                    ExchangeError::InvalidReplyEndpoint(error),
                                ),
                                Ok(_) => receiver_run(k, grant, source, info, bytes),
                            },
                        },
                ),
            },
    )
}

/// Sending a request over a granted endpoint with a private reply endpoint. Whatever was made is
/// closed again unless the request was sent; the grant stays with its owner.
pub open spec fn exchange_run(
    k: kernel::Transcript,
    grant: CapabilityHandle,
    bytes: Seq<u8>,
    apart_from_grant: bool,
) -> ExchangeRun {
    procedure::after(
        ipc::info_run(k, grant),
        |k: kernel::Transcript, inspected: Result<CapabilityInfo, ipc::Error>|
            match inspected {
                Err(error) => procedure::done(k, Err(ExchangeError::InspectGrant(error))),
                Ok(info) => match validate_endpoint(info, Rights::send(), false) {
                    Err(error) => procedure::done(k, Err(ExchangeError::InvalidGrant(error))),
                    Ok(_) => reply_run(k, grant, info, bytes, apart_from_grant),
                },
            },
    )
}

/// Sends a request over a granted endpoint with a private reply endpoint.
pub(crate) fn open_exchange(
    k: &mut Kernel,
    grant: CapabilityHandle,
    bytes: &[u8],
    apart_from_grant: bool,
) -> (result: Option<Result<PrivateReply, ExchangeError>>)
    ensures
        (final(k)@, result) == exchange_run(old(k)@, grant, bytes@, apart_from_grant),
{
    let grant_info = match ipc::info(k, grant)? {
        Ok(info) => info,
        Err(error) => {
            return Some(Err(ExchangeError::InspectGrant(error)));
        },
    };
    if let Err(error) = validate_endpoint(grant_info, Rights::send(), false) {
        return Some(Err(ExchangeError::InvalidGrant(error)));
    }
    let source = match ipc::endpoint_create(k)? {
        Ok(source) => source,
        Err(error) => {
            return Some(Err(ExchangeError::CreateReplyEndpoint(error)));
        },
    };
    let source_info = match ipc::info(k, source)? {
        Ok(info) => info,
        Err(error) => {
            close_quietly(k, source)?;
            return Some(Err(ExchangeError::InspectReplyEndpoint(error)));
        },
    };
    if let Err(error) = source_shape(source_info, grant_info, apart_from_grant) {
        close_quietly(k, source)?;
        return Some(Err(ExchangeError::InvalidReplyEndpoint(error)));
    }
    let receive = match ipc::duplicate(k, source, Rights::receive())? {
        Ok(receive) => receive,
        Err(error) => {
            close_quietly(k, source)?;
            return Some(Err(ExchangeError::DuplicateReplyReceiver(error)));
        },
    };
    let receive_info = match ipc::info(k, receive)? {
        Ok(info) => info,
        Err(error) => {
            close_pair_quietly(k, receive, source)?;
            return Some(Err(ExchangeError::InspectReplyReceiver(error)));
        },
    };
    if let Err(error) = receiver_shape(receive_info, source_info) {
        close_pair_quietly(k, receive, source)?;
        return Some(Err(ExchangeError::InvalidReplyReceiver(error)));
    }
    let transfer = Transfer { handle: source, rights: Rights::send() };
    if let Err(error) = ipc::send(k, grant, bytes, Some(transfer))? {
        close_pair_quietly(k, receive, source)?;
        return Some(Err(ExchangeError::Send(error)));
    }
    if let Err(error) = ipc::close(k, source)? {
        close_quietly(k, receive)?;
        return Some(Err(ExchangeError::CloseReplySource(error)));
    }
    Some(Ok(PrivateReply { receive, object_id: receive_info.object_id }))
}

/// The reply endpoint of a request that was sent is a real object, and apart from the grant where
/// that was asked for.
pub proof fn lemma_sent_exchange_has_a_reply_endpoint(
    k: kernel::Transcript,
    grant: CapabilityHandle,
    bytes: Seq<u8>,
    apart_from_grant: bool,
)
    requires
        exchange_run(k, grant, bytes, apart_from_grant).1 matches Some(Ok(_)),
    ensures
        exchange_run(k, grant, bytes, apart_from_grant).1->0->Ok_0.object_id != 0,
        apart_from_grant ==> ipc::info_run(k, grant).1->0->Ok_0.object_id != exchange_run(
            k,
            grant,
            bytes,
            apart_from_grant,
        ).1->0->Ok_0.object_id,
{
}

/// A request that was sent went over the grant, once, together with the sending end of an endpoint
/// that was made for its answer. The receiving end is kept open, and the grant stays with its
/// owner; only the end that travelled is closed.
pub proof fn lemma_sent_exchange_keeps_its_receiver(
    k: kernel::Transcript,
    grant: CapabilityHandle,
    bytes: Seq<u8>,
    apart_from_grant: bool,
)
    requires
        exchange_run(k, grant, bytes, apart_from_grant).1 matches Some(Ok(_)),
    ensures
        ({
            let (after, outcome) = exchange_run(k, grant, bytes, apart_from_grant);
            let reply = outcome->0->Ok_0;
            &&& after.follows(k)
            &&& exists|source: CapabilityHandle|
                {
                    &&& #[trigger] ipc::given(k, after, Op::EndpointCreate, source)
                    &&& ipc::given(
                        k,
                        after,
                        Op::Duplicate { handle: source, rights: Rights::receive().raw },
                        reply.receive,
                    )
                    &&& after.asked_since(
                        k,
                        Op::Send { endpoint: grant, handle: source, rights: Rights::send().raw },
                    )
                    &&& forall|i: int|
                        k.asked.len() <= i < after.asked.len() ==> {
                            &&& (#[trigger] after.asked[i]).op is Send ==> after.asked[i].bytes
                                == bytes
                            &&& after.asked[i].op is Close ==> after.asked[i].op == Op::Close {
                                handle: source,
                            }
                        }
                }
        }),
{
    let (after, outcome) = exchange_run(k, grant, bytes, apart_from_grant);
    let n = k.asked.len() as int;
    let source = ipc::decoded(k.replies[n + 1].result)->Ok_0;
    assert(ipc::answered(after, n + 1, Op::EndpointCreate, source));
    assert(ipc::answered(
        after,
        n + 3,
        Op::Duplicate { handle: source, rights: Rights::receive().raw },
        outcome->0->Ok_0.receive,
    ));
    assert(after.asked[n + 5].op == Op::Send {
        endpoint: grant,
        handle: source,
        rights: Rights::send().raw,
    });
    assert(ipc::given(k, after, Op::EndpointCreate, source));
}

/// A request that was not sent leaves nothing behind: whatever endpoint or end of one was made is
/// closed again.
pub proof fn lemma_failed_exchange_leaves_no_handle(
    k: kernel::Transcript,
    grant: CapabilityHandle,
    bytes: Seq<u8>,
    apart_from_grant: bool,
    source: CapabilityHandle,
    receive: CapabilityHandle,
)
    requires
        exchange_run(k, grant, bytes, apart_from_grant).1 matches Some(Err(_)),
    ensures
        ({
            let after = exchange_run(k, grant, bytes, apart_from_grant).0;
            &&& after.follows(k)
            &&& ipc::given(k, after, Op::EndpointCreate, source) ==> after.asked_since(
                k,
                Op::Close { handle: source },
            )
            &&& ipc::given(k, after, Op::EndpointCreate, source) && ipc::given(
                k,
                after,
                Op::Duplicate { handle: source, rights: Rights::receive().raw },
                receive,
            ) ==> after.asked_since(k, Op::Close { handle: receive })
        }),
{
    let after = exchange_run(k, grant, bytes, apart_from_grant).0;
    let n = k.asked.len() as int;
    let m = after.asked.len() as int;
    if ipc::given(k, after, Op::EndpointCreate, source) {
        let i = choose|i: int|
            k.asked.len() <= i && #[trigger] ipc::answered(after, i, Op::EndpointCreate, source);
        assert(i == n + 1);
        assert(after.asked[m - 1].op == Op::Close { handle: source } || after.asked[m - 2].op
            == Op::Close { handle: source });
        let op = Op::Duplicate { handle: source, rights: Rights::receive().raw };
        if ipc::given(k, after, op, receive) {
            let j = choose|j: int|
                k.asked.len() <= j && #[trigger] ipc::answered(after, j, op, receive);
            assert(j == n + 3);
            assert(after.asked[m - 1].op == Op::Close { handle: receive } || after.asked[m - 2].op
                == Op::Close { handle: receive });
        }
    }
}

} // verus!
