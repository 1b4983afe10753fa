//! What a service protocol declares of itself, and when the declaration is acceptable.

use crate::abi::{MAX_IPC_MESSAGE_BYTES, MAX_IPC_MESSAGE_HANDLES};
use crate::bytes::contains;
use crate::ipc::Rights;
use vstd::prelude::*;

verus! {

/// The largest body a connection can carry.
pub const MAX_BODY_BYTES: usize = 216;

/// The largest number of requests a connection can have open.
pub const MAX_OUTSTANDING: usize = 16;

/// Why a protocol identity was rejected.
#[derive(Debug, Clone, Copy, PartialEq, Eq, Structural)]
pub enum ProtocolIdError {
    NotCanonical,
}

/// Sixteen bytes that identify a protocol: a random UUID.
#[derive(Debug, Clone, Copy, PartialEq, Eq)]
pub struct ProtocolId {
    bytes: [u8; 16],
}

/// Whether sixteen bytes are a random UUID, by their version and variant bits.
pub open spec fn is_uuid_v4(bytes: Seq<u8>) -> bool {
    bytes[6] / 16 == 4 && bytes[8] / 64 == 2
}

impl ProtocolId {
    pub closed spec fn spec_bytes(self) -> Seq<u8> {
        self.bytes@
    }

    pub fn from_bytes(bytes: [u8; 16]) -> (result: Result<Self, ProtocolIdError>)
        ensures
            match result {
                Ok(id) => is_uuid_v4(bytes@) && id.spec_bytes() == bytes@,
                Err(_) => !is_uuid_v4(bytes@),
            },
    {
        if bytes[6] / 16 == 4 && bytes[8] / 64 == 2 {
            Ok(ProtocolId { bytes })
        } else {
            Err(ProtocolIdError::NotCanonical)
        }
    }

    pub fn bytes(&self) -> (bytes: &[u8; 16])
        ensures
            bytes@ == self.spec_bytes(),
    {
        &self.bytes
    }
}

/// Bounds of one connection.
#[derive(Debug, Clone, Copy, PartialEq, Eq, Structural)]
pub struct ConnectionLimits {
    pub max_body_bytes: u32,
    pub max_handles: u16,
    pub max_outstanding: u16,
}

/// What one minor version needs at least.
#[derive(Debug, Clone, Copy, PartialEq, Eq, Structural)]
pub struct MinorVersionProfile {
    pub minor: u16,
    pub minimum_body_bytes: u32,
    pub minimum_handles: u16,
}

/// A feature that a client asks for.
#[derive(Debug, Clone, Copy, PartialEq, Eq, Structural)]
pub struct RequestedFeature {
    pub id: u16,
    pub required: bool,
}

/// A feature that a server offers.
#[derive(Debug, Clone, Copy, PartialEq, Eq, Structural)]
pub struct AvailableFeature {
    pub id: u16,
    pub since_minor: u16,
}

/// A method of the protocol.
#[derive(Debug, Clone, Copy, PartialEq, Eq, Structural)]
pub struct MethodDescriptor {
    pub ordinal: u32,
}

/// What a protocol declares of itself.
#[derive(Debug, Clone, Copy)]
pub struct ProtocolDescriptor {
    pub protocol_id: ProtocolId,
    pub major: u16,
    pub min_minor: u16,
    pub max_minor: u16,
    pub limits: ConnectionLimits,
    pub requested_features: &'static [RequestedFeature],
    pub available_features: &'static [AvailableFeature],
    pub versions: &'static [MinorVersionProfile],
    pub methods: &'static [MethodDescriptor],
}

/// Why a declaration was rejected.
#[derive(Debug, Clone, Copy, PartialEq, Eq, Structural)]
pub enum ConformanceError {
    InvalidName,
    InvalidVersion,
    InvalidVersionProfiles,
    InvalidFeatures,
    InvalidMethods,
    MessageLimit,
    HandleLimit,
    OutstandingLimit,
    EmptyRights,
    InvalidEndpointRights,
}

/// A letter, digit or hyphen of a protocol name.
pub open spec fn name_byte(byte: u8) -> bool {
    ||| 0x61 <= byte <= 0x7a
    ||| 0x30 <= byte <= 0x39
    ||| byte == 0x2d
}

/// Whether the bytes are a protocol name: at least two segments of lower-case letters, digits
/// and hyphens, parted by single dots, and at most 64 bytes in all.
pub open spec fn protocol_name(name: Seq<u8>) -> bool {
    &&& 0 < name.len() <= 64
    &&& name.contains(0x2e)
    &&& name[0] != 0x2e
    &&& name.last() != 0x2e
    &&& forall|i: int| 0 <= i < name.len() ==> name_byte(#[trigger] name[i]) || name[i] == 0x2e
    &&& forall|i: int|
        0 < i < name.len() && #[trigger] name[i] == 0x2e ==> name[i - 1] != 0x2e
}

/// What the loop over a name has seen so far: no empty segment and no foreign byte.
spec fn name_prefix(name: Seq<u8>, end: int) -> bool {
    &&& end > 0 ==> name[0] != 0x2e
    &&& forall|i: int| 0 <= i < end ==> name_byte(#[trigger] name[i]) || name[i] == 0x2e
    &&& forall|i: int| 0 < i < end && #[trigger] name[i] == 0x2e ==> name[i - 1] != 0x2e
}

/// Whether `name` is a protocol name.
pub fn valid_protocol_name(name: &[u8]) -> (valid: bool)
    ensures
        valid == protocol_name(name@),
{
    if name.len() == 0 || name.len() > 64 || !contains(name, 0x2e) {
        return false;
    }
    let mut segment_start = true;
    let mut index: usize = 0;
    while index < name.len()
        invariant
            index <= name@.len(),
            segment_start == (index == 0 || name@[index - 1] == 0x2e),
            name_prefix(name@, index as int),
        decreases name@.len() - index,
    {
        let byte: u8 = name[index];
        if byte == 0x2e {
            if segment_start {
                return false;
            }
            segment_start = true;
        } else {
            if !((0x61 <= byte && byte <= 0x7a) || (0x30 <= byte && byte <= 0x39) || byte == 0x2d) {
                assert(!name_byte(name@[index as int]) && name@[index as int] != 0x2e);
                return false;
            }
            segment_start = false;
        }
        index += 1;
    }
    !segment_start
}

impl ProtocolDescriptor {
    /// One version profile within the connection's bounds.
    pub open spec fn profile_fits(self, profile: MinorVersionProfile) -> bool {
        &&& 0 < profile.minimum_body_bytes <= self.limits.max_body_bytes
        &&& profile.minimum_handles <= self.limits.max_handles
    }

    /// Profiles for every minor version, in order, none asking for less than the one before.
    pub open spec fn profiles_valid(self) -> bool {
        let versions = self.versions@;
        &&& versions.len() > 0
        &&& versions[0].minor == self.min_minor
        &&& versions.last().minor == self.max_minor
        &&& forall|i: int| 0 <= i < versions.len() ==> self.profile_fits(#[trigger] versions[i])
        &&& forall|i: int| 0 < i < versions.len() ==> follows(versions, i)
    }

    /// Features with growing, nonzero identities, offered within the versions.
    pub open spec fn features_valid(self) -> bool {
        let requested = self.requested_features@;
        let available = self.available_features@;
        &&& forall|i: int| 0 <= i < requested.len() ==> (#[trigger] requested[i]).id != 0
        &&& forall|i: int, j: int|
            0 <= i < j < requested.len() ==> (#[trigger] requested[i]).id < (
            #[trigger] requested[j]).id
        &&& forall|i: int|
            0 <= i < available.len() ==> (#[trigger] available[i]).id != 0 && self.min_minor
                <= available[i].since_minor <= self.max_minor
        &&& forall|i: int, j: int|
            0 <= i < j < available.len() ==> (#[trigger] available[i]).id < (
            #[trigger] available[j]).id
    }

    /// Methods with growing, nonzero ordinals.
    pub open spec fn methods_valid(self) -> bool {
        let methods = self.methods@;
        &&& forall|i: int| 0 <= i < methods.len() ==> (#[trigger] methods[i]).ordinal != 0
        &&& forall|i: int, j: int|
            0 <= i < j < methods.len() ==> (#[trigger] methods[i]).ordinal < (
            #[trigger] methods[j]).ordinal
    }
}

/// Whether a profile follows the one before it.
pub open spec fn follows(versions: Seq<MinorVersionProfile>, i: int) -> bool {
    &&& versions[i].minor == versions[i - 1].minor + 1
    &&& versions[i - 1].minimum_body_bytes <= versions[i].minimum_body_bytes
    &&& versions[i - 1].minimum_handles <= versions[i].minimum_handles
}

/// What is wrong with the rights of one side, if anything is.
pub open spec fn rights_error(rights: Rights) -> Option<ConformanceError> {
    if rights == Rights::empty() {
        Some(ConformanceError::EmptyRights)
    } else if rights.raw & !Rights::endpoint().raw != 0 || !(rights.contains(Rights::send())
        || rights.contains(Rights::receive())) {
        Some(ConformanceError::InvalidEndpointRights)
    } else {
        None
    }
}

/// What is wrong with a declaration: the first thing, in this order.
pub open spec fn conformance(
    name: Seq<u8>,
    descriptor: ProtocolDescriptor,
    client: Rights,
    server: Rights,
) -> Result<(), ConformanceError> {
    let limits = descriptor.limits;
    if !protocol_name(name) {
        Err(ConformanceError::InvalidName)
    } else if descriptor.major == 0 || descriptor.min_minor > descriptor.max_minor {
        Err(ConformanceError::InvalidVersion)
    } else if !descriptor.profiles_valid() {
        Err(ConformanceError::InvalidVersionProfiles)
    } else if !descriptor.features_valid() {
        Err(ConformanceError::InvalidFeatures)
    } else if !descriptor.methods_valid() {
        Err(ConformanceError::InvalidMethods)
    } else if limits.max_body_bytes == 0 || limits.max_body_bytes > MAX_BODY_BYTES
        || limits.max_body_bytes > MAX_IPC_MESSAGE_BYTES {
        Err(ConformanceError::MessageLimit)
    } else if limits.max_handles > MAX_IPC_MESSAGE_HANDLES {
        Err(ConformanceError::HandleLimit)
    } else if limits.max_outstanding == 0 || limits.max_outstanding > MAX_OUTSTANDING {
        Err(ConformanceError::OutstandingLimit)
    } else {
        match rights_error(client) {
            Some(error) => Err(error),
            None => match rights_error(server) {
                Some(error) => Err(error),
                None => Ok(()),
            },
        }
    }
}

fn check_profiles(descriptor: &ProtocolDescriptor) -> (valid: bool)
    ensures
        valid == descriptor.profiles_valid(),
{
    let versions = descriptor.versions;
    if versions.len() == 0 {
        return false;
    }
    if versions[0].minor != descriptor.min_minor || versions[versions.len() - 1].minor
        != descriptor.max_minor {
        return false;
    }
    let mut index: usize = 0;
    while index < versions.len()
        invariant
            index <= versions@.len(),
            versions@ == descriptor.versions@,
            forall|i: int| 0 <= i < index ==> descriptor.profile_fits(#[trigger] versions@[i]),
            forall|i: int| 0 < i < index ==> follows(versions@, i),
        decreases versions@.len() - index,
    {
        let version = versions[index];
        if version.minimum_body_bytes == 0 || version.minimum_body_bytes
            > descriptor.limits.max_body_bytes || version.minimum_handles
            > descriptor.limits.max_handles {
            assert(!descriptor.profile_fits(versions@[index as int]));
            return false;
        }
        if index > 0 {
            let previous = versions[index - 1];
            if previous.minor == u16::MAX || previous.minor + 1 != version.minor
                || previous.minimum_body_bytes > version.minimum_body_bytes
                || previous.minimum_handles > version.minimum_handles {
                assert(!follows(versions@, index as int));
                return false;
            }
        }
        index += 1;
    }
    true
}

fn check_features(descriptor: &ProtocolDescriptor) -> (valid: bool)
    ensures
        valid == descriptor.features_valid(),
{
    let requested = descriptor.requested_features;
    let available = descriptor.available_features;
    let mut index: usize = 0;
    while index < requested.len()
        invariant
            index <= requested@.len(),
            requested@ == descriptor.requested_features@,
            forall|i: int| 0 <= i < index ==> (#[trigger] requested@[i]).id != 0,
            forall|i: int, j: int|
                0 <= i < j < index ==> (#[trigger] requested@[i]).id < (#[trigger] requested@[j]).id,
        decreases requested@.len() - index,
    {
        let feature = requested[index];
        if feature.id == 0 {
            return false;
        }
        if index > 0 && requested[index - 1].id >= feature.id {
            assert(requested@[index - 1].id >= requested@[index as int].id);
            return false;
        }
        index += 1;
    }
    index = 0;
    while index < available.len()
        invariant
            index <= available@.len(),
            available@ == descriptor.available_features@,
            forall|i: int|
                0 <= i < index ==> (#[trigger] available@[i]).id != 0 && descriptor.min_minor
                    <= available@[i].since_minor <= descriptor.max_minor,
            forall|i: int, j: int|
                0 <= i < j < index ==> (#[trigger] available@[i]).id < (#[trigger] available@[j]).id,
        decreases available@.len() - index,
    {
        let feature = available[index];
        if feature.id == 0 || feature.since_minor < descriptor.min_minor || feature.since_minor
            > descriptor.max_minor {
            assert(available@[index as int] == feature);
            return false;
        }
        if index > 0 && available[index - 1].id >= feature.id {
            assert(available@[index - 1].id >= available@[index as int].id);
            return false;
        }
        index += 1;
    }
    true
}

fn check_methods(descriptor: &ProtocolDescriptor) -> (valid: bool)
    ensures
        valid == descriptor.methods_valid(),
{
    let methods = descriptor.methods;
    let mut index: usize = 0;
    while index < methods.len()
        invariant
            index <= methods@.len(),
            methods@ == descriptor.methods@,
            forall|i: int| 0 <= i < index ==> (#[trigger] methods@[i]).ordinal != 0,
            forall|i: int, j: int|
                0 <= i < j < index ==> (#[trigger] methods@[i]).ordinal < (
                #[trigger] methods@[j]).ordinal,
        decreases methods@.len() - index,
    {
        let method = methods[index];
        if method.ordinal == 0 {
            assert(methods@[index as int] == method);
            return false;
        }
        if index > 0 && methods[index - 1].ordinal >= method.ordinal {
            assert(methods@[index - 1].ordinal >= methods@[index as int].ordinal);
            return false;
        }
        index += 1;
    }
    true
}

fn check_rights(rights: Rights) -> (error: Option<ConformanceError>)
    ensures
        error == rights_error(rights),
{
    if rights == Rights::empty() {
        Some(ConformanceError::EmptyRights)
    } else if rights.bits() & !Rights::endpoint().bits() != 0 || !(rights.contains(Rights::send())
        || rights.contains(Rights::receive())) {
        Some(ConformanceError::InvalidEndpointRights)
    } else {
        None
    }
}

/// Checks a declaration.
pub fn check_protocol(
    name: &[u8],
    descriptor: &ProtocolDescriptor,
    client: Rights,
    server: Rights,
) -> (result: Result<(), ConformanceError>)
    ensures
        result == conformance(name@, *descriptor, client, server),
{
    if !valid_protocol_name(name) {
        return Err(ConformanceError::InvalidName);
    }
    if descriptor.major == 0 || descriptor.min_minor > descriptor.max_minor {
        return Err(ConformanceError::InvalidVersion);
    }
    if !check_profiles(descriptor) {
        return Err(ConformanceError::InvalidVersionProfiles);
    }
    if !check_features(descriptor) {
        return Err(ConformanceError::InvalidFeatures);
    }
    if !check_methods(descriptor) {
        return Err(ConformanceError::InvalidMethods);
    }
    let body: usize = descriptor.limits.max_body_bytes as usize;
    if body == 0 || body > MAX_BODY_BYTES || body > MAX_IPC_MESSAGE_BYTES {
        return Err(ConformanceError::MessageLimit);
    }
    if descriptor.limits.max_handles as usize > MAX_IPC_MESSAGE_HANDLES {
        return Err(ConformanceError::HandleLimit);
    }
    if descriptor.limits.max_outstanding == 0 || descriptor.limits.max_outstanding as usize
        > MAX_OUTSTANDING {
        return Err(ConformanceError::OutstandingLimit);
    }
    if let Some(error) = check_rights(client) {
        return Err(error);
    }
    if let Some(error) = check_rights(server) {
        return Err(error);
    }
    Ok(())
}

/// What is wrong with the shape of a message: it must fit the declared bounds.
pub open spec fn shape_error(limits: ConnectionLimits, bytes: usize, handles: usize) -> Result<
    (),
    ConformanceError,
> {
    if bytes > limits.max_body_bytes {
        Err(ConformanceError::MessageLimit)
    } else if handles > limits.max_handles {
        Err(ConformanceError::HandleLimit)
    } else {
        Ok(())
    }
}

/// Checks the shape of a message against the declared bounds.
pub fn check_shape(limits: ConnectionLimits, bytes: usize, handles: usize) -> (result: Result<
    (),
    ConformanceError,
>)
    ensures
        result == shape_error(limits, bytes, handles),
{
    if bytes > limits.max_body_bytes as usize {
        return Err(ConformanceError::MessageLimit);
    }
    if handles > limits.max_handles as usize {
        return Err(ConformanceError::HandleLimit);
    }
    Ok(())
}

/// The service identity and wire contract that types an endpoint. What an implementation declares
/// is the same whenever it is asked; whether it may be declared, [`check_protocol`] says.
pub trait ServiceProtocol {
    const NAME: &'static str;

    const CLIENT_RIGHTS: Rights;

    const SERVER_RIGHTS: Rights;

    /// The declared wire contract.
    spec fn contract() -> ProtocolDescriptor;

    fn descriptor() -> (descriptor: ProtocolDescriptor)
        ensures
            descriptor == Self::contract(),
    ;
}

/// What is wrong with what a protocol declares.
pub open spec fn declared<P: ServiceProtocol>() -> Result<(), ConformanceError> {
    conformance(
        vstd::utf8::encode_utf8(P::NAME@),
        P::contract(),
        P::CLIENT_RIGHTS,
        P::SERVER_RIGHTS,
    )
}

/// Checks what a protocol declares.
pub fn validate_protocol<P: ServiceProtocol>() -> (result: Result<(), ConformanceError>)
    ensures
        result == declared::<P>(),
{
    let descriptor = P::descriptor();
    check_protocol(P::NAME.as_bytes(), &descriptor, P::CLIENT_RIGHTS, P::SERVER_RIGHTS)
}

/// What is wrong with a message shape: first with the declaration, then with the shape.
pub open spec fn declared_shape(
    declared: Result<(), ConformanceError>,
    limits: ConnectionLimits,
    bytes: usize,
    handles: usize,
) -> Result<(), ConformanceError> {
    match declared {
        Err(error) => Err(error),
        Ok(_) => shape_error(limits, bytes, handles),
    }
}

/// Checks the shape of a message against what a protocol declares.
pub fn validate_message_shape<P: ServiceProtocol>(bytes: usize, handles: usize) -> (result: Result<
    (),
    ConformanceError,
>)
    ensures
        result == declared_shape(declared::<P>(), P::contract().limits, bytes, handles),
{
    if let Err(error) = validate_protocol::<P>() {
        return Err(error);
    }
    let descriptor = P::descriptor();
    check_shape(descriptor.limits, bytes, handles)
}

} // verus!
