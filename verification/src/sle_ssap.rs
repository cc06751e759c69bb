//! Service database of the service access protocol.
//!
//! A service is a run of handles: the handle of the service itself, followed by
//! the handles of its properties, methods and events. Handles are given out in
//! ascending order and never again.

use vstd::prelude::*;

use crate::bytes;
use crate::errno::Errno;
use crate::ssap_pdu;
use crate::ssap_pdu::{EntryCategory, EntryInfo, EntryModel, SsapUuid, UuidModel};

verus! {

/// Longest value that can be written to a property.
pub const PROPERTY_VALUE_MAX: usize = 512;

/// First handle that is given out.
pub const FIRST_HANDLE: u16 = 0x0010;

/// What may be done with a property, as a set of flags.
#[derive(Clone, Copy, Debug, PartialEq, Eq, Structural)]
pub struct OpIndicator {
    bits: u32,
}

impl OpIndicator {
    /// The value can be read.
    pub const READ: u32 = 0x001;

    /// The value can be written without a response.
    pub const WRITE_NO_RSP: u32 = 0x002;

    /// The value can be written with a response.
    pub const WRITE_WITH_RSP: u32 = 0x004;

    /// Changes can be notified.
    pub const NOTIFY: u32 = 0x008;

    /// Changes can be indicated.
    pub const INDICATE: u32 = 0x010;

    /// The value goes into broadcasts.
    pub const BROADCAST: u32 = 0x020;

    /// The description can be written.
    pub const DESC_WRITABLE: u32 = 0x100;

    /// The client configuration can be written.
    pub const CLIENT_CFG_WR: u32 = 0x200;

    /// The server configuration can be written.
    pub const SERVER_CFG_WR: u32 = 0x400;

    /// The flags as a number.
    pub closed spec fn view(self) -> u32 {
        self.bits
    }

    /// No flag at all.
    pub fn empty() -> (r: Self)
        ensures
            r@ == 0,
    {
        OpIndicator { bits: 0 }
    }

    /// Whether all flags of `flags` are set.
    pub fn contains(self, flags: u32) -> (r: bool)
        ensures
            r == has_op(self@, flags),
    {
        (self.bits & flags) == flags
    }

    /// The flags as a number.
    pub fn bits(self) -> (r: u32)
        ensures
            r == self@,
    {
        self.bits
    }

    /// The flags of a number.
    pub fn from_raw(v: u32) -> (r: Self)
        ensures
            r@ == v,
    {
        OpIndicator { bits: v }
    }

    /// The flags set here or in `other`.
    pub fn bitor(self, other: Self) -> (r: Self)
        ensures
            r@ == self@ | other@,
    {
        OpIndicator { bits: self.bits | other.bits }
    }

    /// The flags set here and in `other`.
    pub fn bitand(self, other: Self) -> (r: Self)
        ensures
            r@ == self@ & other@,
    {
        OpIndicator { bits: self.bits & other.bits }
    }
}

/// Whether all flags of `flags` are set in `ops`.
pub open spec fn has_op(ops: u32, flags: u32) -> bool {
    ops & flags == flags
}

/// Joined flags hold those of both sides, and common flags are held by both.
pub proof fn op_sets(a: u32, b: u32)
    ensures
        has_op(a | b, a),
        has_op(a | b, b),
        has_op(a, a & b),
        has_op(b, a & b),
{
    assert((a | b) & a == a && (a | b) & b == b && a & (a & b) == a & b && b & (a & b) == a & b)
        by (bit_vector);
}

/// Descriptors of a property.
#[derive(Clone, Copy, Debug, PartialEq, Eq, Structural)]
pub enum DescriptorType {
    /// Text that describes the property.
    PropertyDesc,
    /// Notification settings of a client.
    ClientConfig,
    /// Broadcast settings of the server.
    ServerConfig,
    /// Format of the value.
    PropertyFormat,
}

impl DescriptorType {
    /// The descriptor type byte.
    #[verifier::allow_in_spec]
    pub fn code(self) -> u8
        returns
            (match self {
                DescriptorType::PropertyDesc => 0x01u8,
                DescriptorType::ClientConfig => 0x02u8,
                DescriptorType::ServerConfig => 0x03u8,
                DescriptorType::PropertyFormat => 0x04u8,
            }),
    {
        match self {
            DescriptorType::PropertyDesc => 0x01,
            DescriptorType::ClientConfig => 0x02,
            DescriptorType::ServerConfig => 0x03,
            DescriptorType::PropertyFormat => 0x04,
        }
    }
}

/// Data types of a format descriptor.
#[derive(Clone, Copy, Debug, PartialEq, Eq, Structural)]
pub enum DataType {
    Uint8,
    Uint16,
    Uint32,
    Uint64,
    Int8,
    Int16,
    Int32,
    Int64,
    Boolean,
    Float32,
    Float64,
    Utf8String,
    Utf16String,
    Array,
    Structure,
}

impl DataType {
    /// The data type byte.
    #[verifier::allow_in_spec]
    pub fn code(self) -> u8
        returns
            (match self {
                DataType::Uint8 => 0x01u8,
                DataType::Uint16 => 0x02u8,
                DataType::Uint32 => 0x03u8,
                DataType::Uint64 => 0x04u8,
                DataType::Int8 => 0x05u8,
                DataType::Int16 => 0x06u8,
                DataType::Int32 => 0x07u8,
                DataType::Int64 => 0x08u8,
                DataType::Boolean => 0x09u8,
                DataType::Float32 => 0x0Au8,
                DataType::Float64 => 0x0Bu8,
                DataType::Utf8String => 0x0Cu8,
                DataType::Utf16String => 0x0Du8,
                DataType::Array => 0x0Eu8,
                DataType::Structure => 0x0Fu8,
            }),
    {
        match self {
            DataType::Uint8 => 0x01,
            DataType::Uint16 => 0x02,
            DataType::Uint32 => 0x03,
            DataType::Uint64 => 0x04,
            DataType::Int8 => 0x05,
            DataType::Int16 => 0x06,
            DataType::Int32 => 0x07,
            DataType::Int64 => 0x08,
            DataType::Boolean => 0x09,
            DataType::Float32 => 0x0A,
            DataType::Float64 => 0x0B,
            DataType::Utf8String => 0x0C,
            DataType::Utf16String => 0x0D,
            DataType::Array => 0x0E,
            DataType::Structure => 0x0F,
        }
    }
}

/// Flags of a client configuration.
#[derive(Clone, Copy, Debug, PartialEq, Eq, Structural)]
pub enum ClientConfigFlag {
    /// Neither notifications nor indications.
    Disabled,
    /// Notifications are wanted.
    Notification,
    /// Indications are wanted.
    Indication,
}

impl ClientConfigFlag {
    /// The flag as a number.
    #[verifier::allow_in_spec]
    pub fn code(self) -> u16
        returns
            (match self {
                ClientConfigFlag::Disabled => 0x0000u16,
                ClientConfigFlag::Notification => 0x0001u16,
                ClientConfigFlag::Indication => 0x0002u16,
            }),
    {
        match self {
            ClientConfigFlag::Disabled => 0x0000,
            ClientConfigFlag::Notification => 0x0001,
            ClientConfigFlag::Indication => 0x0002,
        }
    }
}

/// A descriptor of a property.
pub struct Descriptor {
    /// What the descriptor describes.
    pub dtype: DescriptorType,
    /// Contents of the descriptor.
    pub data: Vec<u8>,
}

impl View for Descriptor {
    type V = (DescriptorType, Seq<u8>);

    open spec fn view(&self) -> (DescriptorType, Seq<u8>) {
        (self.dtype, self.data@)
    }
}

/// A property: a value that clients read and write.
pub struct PropertyEntry {
    /// Handle of the property.
    pub handle: u16,
    /// UUID of the property.
    pub uuid: SsapUuid,
    /// What may be done with it.
    pub ops: OpIndicator,
    /// The value.
    pub value: Vec<u8>,
    /// Its descriptors.
    pub descriptors: Vec<Descriptor>,
    /// Client configuration.
    pub client_cfg: u16,
}

/// A property as a value.
#[verifier::ext_equal]
pub struct PropertyModel {
    /// Handle of the property.
    pub handle: u16,
    /// UUID of the property.
    pub uuid: UuidModel,
    /// What may be done with it.
    pub ops: u32,
    /// The value.
    pub value: Seq<u8>,
    /// Its descriptors.
    pub descriptors: Seq<(DescriptorType, Seq<u8>)>,
    /// Client configuration.
    pub client_cfg: u16,
}

impl View for PropertyEntry {
    type V = PropertyModel;

    open spec fn view(&self) -> PropertyModel {
        PropertyModel {
            handle: self.handle,
            uuid: self.uuid@,
            ops: self.ops@,
            value: self.value@,
            descriptors: self.descriptors@.map_values(|d: Descriptor| d@),
            client_cfg: self.client_cfg,
        }
    }
}

/// A method that clients call.
pub struct MethodEntry {
    /// Handle of the method.
    pub handle: u16,
    /// UUID of the method.
    pub uuid: SsapUuid,
    /// Input of the last call.
    pub input: Vec<u8>,
    /// Output of the last call.
    pub output: Vec<u8>,
}

/// A method as a value.
#[verifier::ext_equal]
pub struct MethodModel {
    /// Handle of the method.
    pub handle: u16,
    /// UUID of the method.
    pub uuid: UuidModel,
    /// Input of the last call.
    pub input: Seq<u8>,
    /// Output of the last call.
    pub output: Seq<u8>,
}

impl View for MethodEntry {
    type V = MethodModel;

    open spec fn view(&self) -> MethodModel {
        MethodModel {
            handle: self.handle,
            uuid: self.uuid@,
            input: self.input@,
            output: self.output@,
        }
    }
}

/// An event that the server raises.
pub struct EventEntry {
    /// Handle of the event.
    pub handle: u16,
    /// UUID of the event.
    pub uuid: SsapUuid,
    /// Whether the client wants it.
    pub enabled: bool,
    /// Data of the last event.
    pub data: Vec<u8>,
}

/// An event as a value.
#[verifier::ext_equal]
pub struct EventModel {
    /// Handle of the event.
    pub handle: u16,
    /// UUID of the event.
    pub uuid: UuidModel,
    /// Whether the client wants it.
    pub enabled: bool,
    /// Data of the last event.
    pub data: Seq<u8>,
}

impl View for EventEntry {
    type V = EventModel;

    open spec fn view(&self) -> EventModel {
        EventModel {
            handle: self.handle,
            uuid: self.uuid@,
            enabled: self.enabled,
            data: self.data@,
        }
    }
}

/// A service.
pub struct ServiceEntry {
    /// Handle of the service.
    pub start_handle: u16,
    /// Last handle of the service.
    pub end_handle: u16,
    /// UUID of the service.
    pub uuid: SsapUuid,
    /// Primary or secondary service.
    pub primary: bool,
    /// Its properties.
    pub properties: Vec<PropertyEntry>,
    /// Its methods.
    pub methods: Vec<MethodEntry>,
    /// Its events.
    pub events: Vec<EventEntry>,
}

/// A service as a value.
#[verifier::ext_equal]
pub struct ServiceModel {
    /// Handle of the service.
    pub start_handle: u16,
    /// Last handle of the service.
    pub end_handle: u16,
    /// UUID of the service.
    pub uuid: UuidModel,
    /// Primary or secondary service.
    pub primary: bool,
    /// Its properties.
    pub properties: Seq<PropertyModel>,
    /// Its methods.
    pub methods: Seq<MethodModel>,
    /// Its events.
    pub events: Seq<EventModel>,
}

impl View for ServiceEntry {
    type V = ServiceModel;

    open spec fn view(&self) -> ServiceModel {
        ServiceModel {
            start_handle: self.start_handle,
            end_handle: self.end_handle,
            uuid: self.uuid@,
            primary: self.primary,
            properties: self.properties@.map_values(|p: PropertyEntry| p@),
            methods: self.methods@.map_values(|m: MethodEntry| m@),
            events: self.events@.map_values(|e: EventEntry| e@),
        }
    }
}

/// A change that waits to be told to the client.
pub struct PendingNotification {
    /// Handle of the property.
    pub handle: u16,
    /// Indication or notification.
    pub indication: bool,
    /// The new value.
    pub data: Vec<u8>,
}

/// A waiting change as a value.
#[verifier::ext_equal]
pub struct NotificationModel {
    /// Handle of the property.
    pub handle: u16,
    /// Indication or notification.
    pub indication: bool,
    /// The new value.
    pub data: Seq<u8>,
}

impl View for PendingNotification {
    type V = NotificationModel;

    open spec fn view(&self) -> NotificationModel {
        NotificationModel { handle: self.handle, indication: self.indication, data: self.data@ }
    }
}

/// Parameters agreed on with the peer.
#[derive(Clone, Copy, Debug)]
pub struct SsapNegotiated {
    /// Longest message.
    pub mtu: u16,
    /// Protocol version, major and minor.
    pub version: (u8, u8),
    /// Whether reliable transport is used.
    pub reliable_mode: bool,
}

impl Default for SsapNegotiated {
    fn default() -> (r: Self)
        ensures
            r == (SsapNegotiated { mtu: 247, version: (1, 0), reliable_mode: false }),
    {
        SsapNegotiated { mtu: 247, version: (1, 0), reliable_mode: false }
    }
}

/// The service database as a value.
#[verifier::ext_equal]
pub struct SsapModel {
    /// The services in the order in which they were registered.
    pub services: Seq<ServiceModel>,
    /// The handle that is given out next.
    pub next_handle: u16,
    /// Parameters agreed on with the peer.
    pub negotiated: SsapNegotiated,
    /// Changes that wait to be told, oldest first.
    pub notifications: Seq<NotificationModel>,
}

/// Whether property `j` of service `i` is the first one with handle `h`.
pub open spec fn prop_at(s: Seq<ServiceModel>, h: u16, i: int, j: int) -> bool {
    &&& 0 <= i < s.len()
    &&& 0 <= j < s[i].properties.len()
    &&& s[i].properties[j].handle == h
    &&& forall|b: int| 0 <= b < j ==> (#[trigger] s[i].properties[b]).handle != h
    &&& forall|a: int, b: int|
        0 <= a < i && 0 <= b < s[a].properties.len() ==> (
        #[trigger] s[a].properties[b]).handle != h
}

/// Whether some property has handle `h`.
pub open spec fn has_prop(s: Seq<ServiceModel>, h: u16) -> bool {
    exists|i: int, j: int| prop_at(s, h, i, j)
}

/// Service and place of the first property with handle `h`.
pub open spec fn prop_pos(s: Seq<ServiceModel>, h: u16) -> (int, int) {
    choose|i: int, j: int| prop_at(s, h, i, j)
}

/// The first property with handle `h`.
pub open spec fn prop_of(s: Seq<ServiceModel>, h: u16) -> PropertyModel {
    s[prop_pos(s, h).0].properties[prop_pos(s, h).1]
}

/// The services with the first property of handle `h` replaced by `p`.
pub open spec fn with_prop(s: Seq<ServiceModel>, h: u16, p: PropertyModel) -> Seq<ServiceModel> {
    let (i, j) = prop_pos(s, h);
    s.update(i, ServiceModel { properties: s[i].properties.update(j, p), ..s[i] })
}

/// Whether method `j` of service `i` is the first one with handle `h`.
pub open spec fn method_at(s: Seq<ServiceModel>, h: u16, i: int, j: int) -> bool {
    &&& 0 <= i < s.len()
    &&& 0 <= j < s[i].methods.len()
    &&& s[i].methods[j].handle == h
    &&& forall|b: int| 0 <= b < j ==> (#[trigger] s[i].methods[b]).handle != h
    &&& forall|a: int, b: int|
        0 <= a < i && 0 <= b < s[a].methods.len() ==> (#[trigger] s[a].methods[b]).handle != h
}

/// Whether some method has handle `h`.
pub open spec fn has_method(s: Seq<ServiceModel>, h: u16) -> bool {
    exists|i: int, j: int| method_at(s, h, i, j)
}

/// Service and place of the first method with handle `h`.
pub open spec fn method_pos(s: Seq<ServiceModel>, h: u16) -> (int, int) {
    choose|i: int, j: int| method_at(s, h, i, j)
}

/// Whether property `j` of service `i` is the first readable one with UUID `u`.
pub open spec fn readable_at(s: Seq<ServiceModel>, u: UuidModel, i: int, j: int) -> bool {
    &&& 0 <= i < s.len()
    &&& 0 <= j < s[i].properties.len()
    &&& readable_as(s[i].properties[j], u)
    &&& forall|b: int| 0 <= b < j ==> !readable_as(#[trigger] s[i].properties[b], u)
    &&& forall|a: int, b: int|
        0 <= a < i && 0 <= b < s[a].properties.len() ==> !readable_as(
            #[trigger] s[a].properties[b],
            u,
        )
}

/// Whether no service has UUID `u`.
pub open spec fn none_is(s: Seq<ServiceModel>, u: UuidModel) -> bool {
    forall|k: int| 0 <= k < s.len() ==> (#[trigger] s[k]).uuid != u
}

/// Whether a property has UUID `u` and can be read.
pub open spec fn readable_as(p: PropertyModel, u: UuidModel) -> bool {
    p.uuid == u && has_op(p.ops, OpIndicator::READ)
}

/// The entry of a service itself.
pub open spec fn service_entry(s: ServiceModel) -> EntryModel {
    EntryModel {
        handle: s.start_handle,
        category: if s.primary {
            EntryCategory::PrimaryService
        } else {
            EntryCategory::SecondaryService
        },
        uuid: s.uuid,
    }
}

/// The entry of a property.
pub open spec fn property_entry(p: PropertyModel) -> EntryModel {
    EntryModel { handle: p.handle, category: EntryCategory::Property, uuid: p.uuid }
}

/// The entry of a method.
pub open spec fn method_entry(m: MethodModel) -> EntryModel {
    EntryModel { handle: m.handle, category: EntryCategory::Method, uuid: m.uuid }
}

/// The entry of an event.
pub open spec fn event_entry(e: EventModel) -> EntryModel {
    EntryModel { handle: e.handle, category: EntryCategory::Event, uuid: e.uuid }
}

/// All entries of a service: itself, its properties, its methods, its events.
pub open spec fn service_entries(s: ServiceModel) -> Seq<EntryModel> {
    seq![service_entry(s)] + s.properties.map_values(|p: PropertyModel| property_entry(p))
        + s.methods.map_values(|m: MethodModel| method_entry(m)) + s.events.map_values(
        |e: EventModel| event_entry(e),
    )
}

/// All entries of a list of services.
pub open spec fn all_entries(s: Seq<ServiceModel>) -> Seq<EntryModel>
    decreases s.len(),
{
    if s.len() == 0 {
        Seq::empty()
    } else {
        all_entries(s.drop_last()) + service_entries(s.last())
    }
}

/// Those of the entries whose handle lies between `start` and `end`.
pub open spec fn in_range(s: Seq<EntryModel>, start: u16, end: u16) -> Seq<EntryModel>
    decreases s.len(),
{
    if s.len() == 0 {
        Seq::empty()
    } else if start <= s.last().handle <= end {
        in_range(s.drop_last(), start, end).push(s.last())
    } else {
        in_range(s.drop_last(), start, end)
    }
}

/// First handle, last handle and UUID of every primary service.
pub open spec fn primaries(s: Seq<ServiceModel>) -> Seq<(u16, u16, UuidModel)>
    decreases s.len(),
{
    if s.len() == 0 {
        Seq::empty()
    } else if s.last().primary {
        primaries(s.drop_last()).push((s.last().start_handle, s.last().end_handle, s.last().uuid))
    } else {
        primaries(s.drop_last())
    }
}

/// Number of properties of all services.
pub open spec fn total_properties(s: Seq<ServiceModel>) -> nat
    decreases s.len(),
{
    if s.len() == 0 {
        0
    } else {
        total_properties(s.drop_last()) + s.last().properties.len()
    }
}

/// Number of handles that a service uses.
pub open spec fn service_size(s: ServiceModel) -> nat {
    1 + s.properties.len() + s.methods.len() + s.events.len()
}

/// Number of handles that all services use.
pub open spec fn total_size(s: Seq<ServiceModel>) -> nat
    decreases s.len(),
{
    if s.len() == 0 {
        0
    } else {
        total_size(s.drop_last()) + service_size(s.last())
    }
}

/// The handles of a service lie in its range, no two of its entries share one, and no
/// value is too long.
pub open spec fn service_wf(s: ServiceModel) -> bool {
    &&& forall|i: int|
        0 <= i < s.properties.len() ==> (#[trigger] s.properties[i]).value.len()
            <= PROPERTY_VALUE_MAX
    &&& FIRST_HANDLE <= s.start_handle <= s.end_handle
    &&& service_size(s) <= s.end_handle - s.start_handle + 1
    &&& forall|i: int|
        0 <= i < s.properties.len() ==> s.start_handle < (#[trigger] s.properties[i]).handle
            <= s.end_handle
    &&& forall|i: int|
        0 <= i < s.methods.len() ==> s.start_handle < (#[trigger] s.methods[i]).handle
            <= s.end_handle
    &&& forall|i: int|
        0 <= i < s.events.len() ==> s.start_handle < (#[trigger] s.events[i]).handle
            <= s.end_handle
    &&& forall|i: int, j: int|
        0 <= i < j < s.properties.len() ==> (#[trigger] s.properties[i]).handle < (
        #[trigger] s.properties[j]).handle
    &&& forall|i: int, j: int|
        0 <= i < j < s.methods.len() ==> (#[trigger] s.methods[i]).handle < (
        #[trigger] s.methods[j]).handle
    &&& forall|i: int, j: int|
        0 <= i < j < s.events.len() ==> (#[trigger] s.events[i]).handle < (
        #[trigger] s.events[j]).handle
    &&& forall|i: int, j: int|
        0 <= i < s.properties.len() && 0 <= j < s.methods.len() ==> (
        #[trigger] s.properties[i]).handle != (#[trigger] s.methods[j]).handle
    &&& forall|i: int, j: int|
        0 <= i < s.properties.len() && 0 <= j < s.events.len() ==> (
        #[trigger] s.properties[i]).handle != (#[trigger] s.events[j]).handle
    &&& forall|i: int, j: int|
        0 <= i < s.methods.len() && 0 <= j < s.events.len() ==> (#[trigger] s.methods[i]).handle
            != (#[trigger] s.events[j]).handle
}

impl SsapModel {
    /// Services lie in ascending, disjoint ranges of handles below the next handle.
    pub open spec fn wf(self) -> bool {
        &&& FIRST_HANDLE <= self.next_handle
        &&& forall|i: int|
            0 <= i < self.services.len() ==> service_wf(#[trigger] self.services[i])
                && self.services[i].end_handle < self.next_handle
        &&& forall|i: int, j: int|
            0 <= i < j < self.services.len() ==> (#[trigger] self.services[i]).end_handle < (
            #[trigger] self.services[j]).start_handle
    }

    /// One handle was given out.
    pub open spec fn bumped(self) -> SsapModel {
        SsapModel { next_handle: (self.next_handle + 1) as u16, ..self }
    }

    /// A service was registered.
    pub open spec fn with_service(self, uuid: UuidModel, primary: bool) -> SsapModel {
        SsapModel {
            services: self.services.push(
                ServiceModel {
                    start_handle: self.next_handle,
                    end_handle: self.next_handle,
                    uuid,
                    primary,
                    properties: Seq::empty(),
                    methods: Seq::empty(),
                    events: Seq::empty(),
                },
            ),
            ..self.bumped()
        }
    }

    /// The last service was replaced.
    pub open spec fn with_last(self, s: ServiceModel) -> SsapModel {
        SsapModel { services: self.services.update(self.services.len() - 1, s), ..self.bumped() }
    }

    /// A property was added to the last service.
    pub open spec fn with_property(self, uuid: UuidModel, ops: u32, value: Seq<u8>) -> SsapModel {
        let s = self.services.last();
        self.with_last(
            ServiceModel {
                end_handle: self.next_handle,
                properties: s.properties.push(
                    PropertyModel {
                        handle: self.next_handle,
                        uuid,
                        ops,
                        value,
                        descriptors: Seq::empty(),
                        client_cfg: 0,
                    },
                ),
                ..s
            },
        )
    }

    /// A method was added to the last service.
    pub open spec fn with_method(self, uuid: UuidModel) -> SsapModel {
        let s = self.services.last();
        self.with_last(
            ServiceModel {
                end_handle: self.next_handle,
                methods: s.methods.push(
                    MethodModel {
                        handle: self.next_handle,
                        uuid,
                        input: Seq::empty(),
                        output: Seq::empty(),
                    },
                ),
                ..s
            },
        )
    }

    /// An event was added to the last service.
    pub open spec fn with_event(self, uuid: UuidModel) -> SsapModel {
        let s = self.services.last();
        self.with_last(
            ServiceModel {
                end_handle: self.next_handle,
                events: s.events.push(
                    EventModel {
                        handle: self.next_handle,
                        uuid,
                        enabled: false,
                        data: Seq::empty(),
                    },
                ),
                ..s
            },
        )
    }

    /// A descriptor was added to the last property of the last service.
    pub open spec fn with_descriptor(self, dtype: DescriptorType, data: Seq<u8>) -> SsapModel {
        let s = self.services.last();
        let p = s.properties.last();
        let p2 = PropertyModel { descriptors: p.descriptors.push((dtype, data)), ..p };
        SsapModel {
            services: self.services.update(
                self.services.len() - 1,
                ServiceModel {
                    properties: s.properties.update(s.properties.len() - 1, p2),
                    ..s
                },
            ),
            ..self
        }
    }

    /// What reading the property of handle `h` gives.
    pub open spec fn read(self, h: u16) -> Result<Seq<u8>, Errno> {
        if !has_prop(self.services, h) {
            Err(Errno::ENOENT)
        } else if !has_op(prop_of(self.services, h).ops, OpIndicator::READ) {
            Err(Errno::EACCES)
        } else {
            Ok(prop_of(self.services, h).value)
        }
    }

    /// What writing `data` to the property of handle `h` answers.
    pub open spec fn write_result(self, h: u16, data: Seq<u8>) -> Result<(), Errno> {
        if data.len() > PROPERTY_VALUE_MAX {
            Err(Errno::EINVAL)
        } else if !has_prop(self.services, h) {
            Err(Errno::ENOENT)
        } else if !has_op(prop_of(self.services, h).ops, OpIndicator::WRITE_WITH_RSP) && !has_op(
            prop_of(self.services, h).ops,
            OpIndicator::WRITE_NO_RSP,
        ) {
            Err(Errno::EACCES)
        } else {
            Ok(())
        }
    }

    /// `data` was written to the property of handle `h`: its value is replaced, and
    /// the client is told by a notification, an indication or both, as the property
    /// allows it and the client asked for it.
    pub open spec fn written(self, h: u16, data: Seq<u8>) -> SsapModel {
        let p = prop_of(self.services, h);
        let ntf = has_op(p.ops, OpIndicator::NOTIFY) && p.client_cfg & 0x01 != 0;
        let ind = has_op(p.ops, OpIndicator::INDICATE) && p.client_cfg & 0x02 != 0;
        let n0 = self.notifications;
        let n1 = if ntf {
            n0.push(NotificationModel { handle: h, indication: false, data })
        } else {
            n0
        };
        let n2 = if ind {
            n1.push(NotificationModel { handle: h, indication: true, data })
        } else {
            n1
        };
        SsapModel {
            services: with_prop(self.services, h, PropertyModel { value: data, ..p }),
            notifications: n2,
            ..self
        }
    }

    /// What a write does: it changes the database where it succeeds.
    pub open spec fn after_write(self, h: u16, data: Seq<u8>) -> SsapModel {
        if self.write_result(h, data) is Ok {
            self.written(h, data)
        } else {
            self
        }
    }

    /// A notification or indication of the value of handle `h` was queued.
    pub open spec fn with_notification(self, h: u16, indication: bool) -> SsapModel {
        SsapModel {
            notifications: self.notifications.push(
                NotificationModel { handle: h, indication, data: self.read(h)->Ok_0 },
            ),
            ..self
        }
    }

    /// The method of handle `h` was called with `input`, which it echoes.
    pub open spec fn called(self, h: u16, input: Seq<u8>) -> SsapModel {
        let (i, j) = method_pos(self.services, h);
        let s = self.services[i];
        let m = MethodModel { input, output: input, ..s.methods[j] };
        SsapModel {
            services: self.services.update(
                i,
                ServiceModel { methods: s.methods.update(j, m), ..s },
            ),
            ..self
        }
    }
}

/// The name that the device information service gives: "SparkLink Virtual Device".
pub open spec fn device_name() -> Seq<u8> {
    seq![0x53u8, 0x70, 0x61, 0x72, 0x6B, 0x4C, 0x69, 0x6E, 0x6B, 0x20, 0x56, 0x69, 0x72, 0x74, 0x75, 0x61, 0x6C, 0x20, 0x44, 0x65, 0x76, 0x69, 0x63, 0x65]
}

/// The firmware version that the device information service gives: "0.3.0".
pub open spec fn device_firmware() -> Seq<u8> {
    seq![0x30u8, 0x2E, 0x33, 0x2E, 0x30]
}

/// The device information service after its first `k` entries: the service, the
/// name, the firmware version, the status (with its format), an event and a method.
pub open spec fn device_info(m: SsapModel, k: int) -> SsapModel
    decreases k,
{
    if k <= 0 {
        m
    } else {
        let p = device_info(m, k - 1);
        if k == 1 {
            p.with_service(UuidModel::Uuid16(0x0001), true)
        } else if k == 2 {
            p.with_property(UuidModel::Uuid16(0x1001), OpIndicator::READ, device_name())
        } else if k == 3 {
            p.with_property(UuidModel::Uuid16(0x1002), OpIndicator::READ, device_firmware())
        } else if k == 4 {
            p.with_property(
                UuidModel::Uuid16(0x1003),
                OpIndicator::READ | OpIndicator::WRITE_WITH_RSP | OpIndicator::NOTIFY
                    | OpIndicator::CLIENT_CFG_WR,
                seq![0u8],
            ).with_descriptor(
                DescriptorType::PropertyFormat,
                seq![DataType::Uint8.code(), 0u8, 0u8, 0u8, 0u8, 0u8, 0u8],
            )
        } else if k == 5 {
            p.with_event(UuidModel::Uuid16(0x8001))
        } else {
            p.with_method(UuidModel::Uuid16(0x7001))
        }
    }
}

/// There is at most one first property of a handle.
pub proof fn prop_at_unique(s: Seq<ServiceModel>, h: u16, i: int, j: int)
    requires
        prop_at(s, h, i, j),
    ensures
        has_prop(s, h),
        prop_pos(s, h) == (i, j),
{
    let (a, b) = prop_pos(s, h);
    assert(prop_at(s, h, a, b));
    if a < i {
        assert(s[a].properties[b].handle != h);
    } else if i < a {
        assert(s[i].properties[j].handle != h);
    } else if b < j {
        assert(s[i].properties[b].handle != h);
    } else if j < b {
        assert(s[i].properties[j].handle != h);
    }
}

/// There is at most one first method of a handle.
pub proof fn method_at_unique(s: Seq<ServiceModel>, h: u16, i: int, j: int)
    requires
        method_at(s, h, i, j),
    ensures
        has_method(s, h),
        method_pos(s, h) == (i, j),
{
    let (a, b) = method_pos(s, h);
    assert(method_at(s, h, a, b));
    if a < i {
        assert(s[a].methods[b].handle != h);
    } else if i < a {
        assert(s[i].methods[j].handle != h);
    } else if b < j {
        assert(s[i].methods[b].handle != h);
    } else if j < b {
        assert(s[i].methods[j].handle != h);
    }
}

/// The services as values.
pub open spec fn services_view(s: Seq<ServiceEntry>) -> Seq<ServiceModel> {
    s.map_values(|e: ServiceEntry| e@)
}

/// The service database.
pub struct SsapInner {
    /// The services in the order in which they were registered.
    pub services: Vec<ServiceEntry>,
    next_handle: u16,
    /// Parameters agreed on with the peer.
    pub negotiated: SsapNegotiated,
    /// Changes that wait to be told, oldest first.
    pub notifications: Vec<PendingNotification>,
}

impl View for SsapInner {
    type V = SsapModel;

    closed spec fn view(&self) -> SsapModel {
        SsapModel {
            services: services_view(self.services@),
            next_handle: self.next_handle,
            negotiated: self.negotiated,
            notifications: self.notifications@.map_values(|n: PendingNotification| n@),
        }
    }
}

/// The bytes of a result.
pub open spec fn bytes_result(r: Result<Vec<u8>, Errno>) -> Result<Seq<u8>, Errno> {
    match r {
        Ok(v) => Ok(v@),
        Err(e) => Err(e),
    }
}

impl SsapInner {
    /// An empty database.
    pub fn new() -> (r: Self)
        ensures
            r@ == (SsapModel {
                services: Seq::empty(),
                next_handle: FIRST_HANDLE,
                negotiated: SsapNegotiated { mtu: 247, version: (1, 0), reliable_mode: false },
                notifications: Seq::empty(),
            }),
            r@.wf(),
    {
        let r = SsapInner {
            services: Vec::new(),
            next_handle: FIRST_HANDLE,
            negotiated: SsapNegotiated::default(),
            notifications: Vec::new(),
        };
        assert(r@.services == Seq::<ServiceModel>::empty());
        assert(r@.notifications == Seq::<NotificationModel>::empty());
        r
    }

    fn alloc_handle(&mut self) -> (r: Result<u16, Errno>)
        ensures
            old(self)@.next_handle == 0xFFFF ==> r == Err::<u16, Errno>(Errno::ENOSPC)
                && *final(self) == *old(self),
            old(self)@.next_handle < 0xFFFF ==> r == Ok::<u16, Errno>(old(self)@.next_handle)
                && final(self)@ == old(self)@.bumped() && *final(self) == (SsapInner {
                next_handle: final(self).next_handle,
                ..*old(self)
            }),
    {
        let h = self.next_handle;
        match h.checked_add(1) {
            Some(n) => {
                self.next_handle = n;
                Ok(h)
            },
            None => Err(Errno::ENOSPC),
        }
    }

    /// Registers a service and returns its handle. `ENOSPC` where no handle is left.
    pub fn register_service(&mut self, uuid: SsapUuid, primary: bool) -> (r: Result<u16, Errno>)
        ensures
            old(self)@.next_handle == 0xFFFF ==> r == Err::<u16, Errno>(Errno::ENOSPC)
                && final(self)@ == old(self)@,
            old(self)@.next_handle < 0xFFFF ==> r == Ok::<u16, Errno>(old(self)@.next_handle)
                && final(self)@ == old(self)@.with_service(uuid@, primary),
            old(self)@.wf() ==> final(self)@.wf(),
    {
        let start = match self.alloc_handle() {
            Ok(h) => h,
            Err(e) => return Err(e),
        };
        let svc = ServiceEntry {
            start_handle: start,
            end_handle: start,
            uuid,
            primary,
            properties: Vec::new(),
            methods: Vec::new(),
            events: Vec::new(),
        };
        assert(svc@.properties == Seq::<PropertyModel>::empty());
        assert(svc@.methods == Seq::<MethodModel>::empty());
        assert(svc@.events == Seq::<EventModel>::empty());
        self.services.push(svc);
        assert(self@ == old(self)@.with_service(uuid@, primary));
        assert(old(self)@.wf() ==> self@.wf());
        Ok(start)
    }

    /// Adds a property to the last service and returns its handle. `EINVAL` where the
    /// value is too long, `ENOSPC` where no handle is left, `ENODEV` where there is no
    /// service; the last uses up a handle.
    pub fn add_property(&mut self, uuid: SsapUuid, ops: OpIndicator, initial_value: &[u8]) -> (r:
        Result<u16, Errno>)
        ensures
            if initial_value@.len() > PROPERTY_VALUE_MAX {
                r == Err::<u16, Errno>(Errno::EINVAL) && final(self)@ == old(self)@
            } else if old(self)@.next_handle == 0xFFFF {
                r == Err::<u16, Errno>(Errno::ENOSPC) && final(self)@ == old(self)@
            } else if old(self)@.services.len() == 0 {
                r == Err::<u16, Errno>(Errno::ENODEV) && final(self)@ == old(self)@.bumped()
            } else {
                r == Ok::<u16, Errno>(old(self)@.next_handle) && final(self)@
                    == old(self)@.with_property(uuid@, ops@, initial_value@)
            },
            old(self)@.wf() ==> final(self)@.wf(),
    {
        if initial_value.len() > PROPERTY_VALUE_MAX {
            return Err(Errno::EINVAL);
        }
        let handle = match self.alloc_handle() {
            Ok(h) => h,
            Err(e) => return Err(e),
        };
        if self.services.len() == 0 {
            assert(self@.services =~= old(self)@.services);
            return Err(Errno::ENODEV);
        }
        let k = self.services.len() - 1;
        let prop = PropertyEntry {
            handle,
            uuid,
            ops,
            value: bytes::to_vec(initial_value),
            descriptors: Vec::new(),
            client_cfg: 0,
        };
        assert(prop@.descriptors == Seq::<(DescriptorType, Seq<u8>)>::empty());
        self.services[k].properties.push(prop);
        self.services[k].end_handle = handle;
        proof {
            let s0 = old(self).services@[k as int];
            let s1 = self.services@[k as int];
            assert(s1@.properties == s0@.properties.push(prop@));
            assert(s1@.methods == s0@.methods);
            assert(s1@.events == s0@.events);
            assert(self@.services == old(self)@.with_property(
                uuid@,
                ops@,
                initial_value@,
            ).services);
            if old(self)@.wf() {
                added_keeps_wf(old(self)@, s1@);
            }
        }
        Ok(handle)
    }

    /// Adds a method to the last service and returns its handle. `ENOSPC` where no
    /// handle is left, `ENODEV` where there is no service; the latter uses up a handle.
    pub fn add_method(&mut self, uuid: SsapUuid) -> (r: Result<u16, Errno>)
        ensures
            old(self)@.next_handle == 0xFFFF ==> r == Err::<u16, Errno>(Errno::ENOSPC)
                && final(self)@ == old(self)@,
            old(self)@.next_handle < 0xFFFF && old(self)@.services.len() == 0 ==> r == Err::<
                u16,
                Errno,
            >(Errno::ENODEV) && final(self)@ == old(self)@.bumped(),
            old(self)@.next_handle < 0xFFFF && old(self)@.services.len() > 0 ==> r == Ok::<
                u16,
                Errno,
            >(old(self)@.next_handle) && final(self)@ == old(self)@.with_method(uuid@),
            old(self)@.wf() ==> final(self)@.wf(),
    {
        let handle = match self.alloc_handle() {
            Ok(h) => h,
            Err(e) => return Err(e),
        };
        if self.services.len() == 0 {
            assert(self@.services =~= old(self)@.services);
            return Err(Errno::ENODEV);
        }
        let k = self.services.len() - 1;
        let method = MethodEntry { handle, uuid, input: Vec::new(), output: Vec::new() };
        self.services[k].methods.push(method);
        self.services[k].end_handle = handle;
        proof {
            let s0 = old(self).services@[k as int];
            let s1 = self.services@[k as int];
            assert(s1@.methods == s0@.methods.push(method@));
            assert(s1@.properties == s0@.properties);
            assert(s1@.events == s0@.events);
            assert(self@.services == old(self)@.with_method(uuid@).services);
            if old(self)@.wf() {
                added_keeps_wf(old(self)@, s1@);
            }
        }
        Ok(handle)
    }

    /// Adds an event to the last service and returns its handle. `ENOSPC` where no
    /// handle is left, `ENODEV` where there is no service; the latter uses up a handle.
    pub fn add_event(&mut self, uuid: SsapUuid) -> (r: Result<u16, Errno>)
        ensures
            old(self)@.next_handle == 0xFFFF ==> r == Err::<u16, Errno>(Errno::ENOSPC)
                && final(self)@ == old(self)@,
            old(self)@.next_handle < 0xFFFF && old(self)@.services.len() == 0 ==> r == Err::<
                u16,
                Errno,
            >(Errno::ENODEV) && final(self)@ == old(self)@.bumped(),
            old(self)@.next_handle < 0xFFFF && old(self)@.services.len() > 0 ==> r == Ok::<
                u16,
                Errno,
            >(old(self)@.next_handle) && final(self)@ == old(self)@.with_event(uuid@),
            old(self)@.wf() ==> final(self)@.wf(),
    {
        let handle = match self.alloc_handle() {
            Ok(h) => h,
            Err(e) => return Err(e),
        };
        if self.services.len() == 0 {
            assert(self@.services =~= old(self)@.services);
            return Err(Errno::ENODEV);
        }
        let k = self.services.len() - 1;
        let event = EventEntry { handle, uuid, enabled: false, data: Vec::new() };
        self.services[k].events.push(event);
        self.services[k].end_handle = handle;
        proof {
            let s0 = old(self).services@[k as int];
            let s1 = self.services@[k as int];
            assert(s1@.events == s0@.events.push(event@));
            assert(s1@.properties == s0@.properties);
            assert(s1@.methods == s0@.methods);
            assert(self@.services == old(self)@.with_event(uuid@).services);
            if old(self)@.wf() {
                added_keeps_wf(old(self)@, s1@);
            }
        }
        Ok(handle)
    }

    /// Adds a descriptor to the last property of the last service, or returns
    /// `ENODEV` where there is none.
    pub fn add_descriptor(&mut self, dtype: DescriptorType, data: &[u8]) -> (r: Result<(), Errno>)
        ensures
            old(self)@.services.len() == 0 || old(self)@.services.last().properties.len() == 0
                ==> r == Err::<(), Errno>(Errno::ENODEV) && final(self)@ == old(self)@,
            old(self)@.services.len() > 0 && old(self)@.services.last().properties.len() > 0
                ==> r == Ok::<(), Errno>(()) && final(self)@ == old(self)@.with_descriptor(
                dtype,
                data@,
            ),
            old(self)@.wf() ==> final(self)@.wf(),
    {
        if self.services.len() == 0 {
            return Err(Errno::ENODEV);
        }
        let k = self.services.len() - 1;
        if self.services[k].properties.len() == 0 {
            return Err(Errno::ENODEV);
        }
        let j = self.services[k].properties.len() - 1;
        let desc = Descriptor { dtype, data: bytes::to_vec(data) };
        self.services[k].properties[j].descriptors.push(desc);
        proof {
            let s0 = old(self).services@[k as int];
            let s1 = self.services@[k as int];
            let p0 = s0.properties@[j as int];
            let p1 = s1.properties@[j as int];
            assert(p1@.descriptors == p0@.descriptors.push(desc@));
            assert(s1@.properties == s0@.properties.update(
                j as int,
                PropertyModel { descriptors: p0@.descriptors.push(desc@), ..p0@ },
            ));
            assert(self@.services == old(self)@.with_descriptor(dtype, data@).services);
        }
        Ok(())
    }

    /// Removes the service of handle `start_handle`, or returns `ENOENT`.
    pub fn remove_service(&mut self, start_handle: u16) -> (r: Result<(), Errno>)
        ensures
            match r {
                Ok(_) => exists|i: int|
                    {
                        &&& 0 <= i < old(self)@.services.len()
                        &&& (#[trigger] old(self)@.services[i]).start_handle == start_handle
                        &&& forall|k: int|
                            0 <= k < i ==> (#[trigger] old(self)@.services[k]).start_handle
                                != start_handle
                        &&& final(self)@ == (SsapModel {
                            services: old(self)@.services.remove(i),
                            ..old(self)@
                        })
                    },
                Err(e) => e == Errno::ENOENT && final(self)@ == old(self)@ && forall|k: int|
                    0 <= k < old(self)@.services.len() ==> (
                    #[trigger] old(self)@.services[k]).start_handle != start_handle,
            },
            old(self)@.wf() ==> final(self)@.wf(),
    {
        let mut i: usize = 0;
        while i < self.services.len()
            invariant
                i <= self.services.len(),
                *self == *old(self),
                forall|k: int|
                    0 <= k < i ==> (#[trigger] self@.services[k]).start_handle != start_handle,
            decreases self.services.len() - i,
        {
            assert(self@.services[i as int] == self.services@[i as int]@);
            if self.services[i].start_handle == start_handle {
                let _ = self.services.remove(i);
                assert(self@.services == old(self)@.services.remove(i as int));
                assert(old(self)@.services[i as int].start_handle == start_handle);
                return Ok(());
            }
            i = i + 1;
        }
        Err(Errno::ENOENT)
    }

    /// First handle, last handle and UUID of every primary service.
    pub fn find_primary_services(&self) -> (r: Vec<(u16, u16, SsapUuid)>)
        ensures
            r@.map_values(|t: (u16, u16, SsapUuid)| (t.0, t.1, t.2@)) == primaries(self@.services),
    {
        let mut result: Vec<(u16, u16, SsapUuid)> = Vec::new();
        let mut i: usize = 0;
        assert(result@.map_values(|t: (u16, u16, SsapUuid)| (t.0, t.1, t.2@)) == primaries(
            services_view(self.services@.take(0)),
        ));
        while i < self.services.len()
            invariant
                i <= self.services.len(),
                result@.map_values(|t: (u16, u16, SsapUuid)| (t.0, t.1, t.2@)) == primaries(
                    services_view(self.services@.take(i as int)),
                ),
            decreases self.services.len() - i,
        {
            let svc = &self.services[i];
            let ghost before = result@.map_values(|t: (u16, u16, SsapUuid)| (t.0, t.1, t.2@));
            let ghost s = services_view(self.services@.take(i + 1));
            assert(s.drop_last() == services_view(self.services@.take(i as int)));
            assert(s.last() == svc@);
            if svc.primary {
                result.push((svc.start_handle, svc.end_handle, svc.uuid));
                assert(result@.map_values(|t: (u16, u16, SsapUuid)| (t.0, t.1, t.2@))
                    == before.push((svc@.start_handle, svc@.end_handle, svc@.uuid)));
            }
            i = i + 1;
        }
        assert(self.services@.take(i as int) == self.services@);
        result
    }

    /// The first service with UUID `uuid`.
    pub fn find_service_by_uuid(&self, uuid: &SsapUuid) -> (r: Option<&ServiceEntry>)
        ensures
            match r {
                Some(s) => exists|i: int|
                    {
                        &&& 0 <= i < self@.services.len()
                        &&& #[trigger] self@.services[i] == s@
                        &&& s@.uuid == uuid@
                        &&& forall|k: int|
                            0 <= k < i ==> (#[trigger] self@.services[k]).uuid != uuid@
                    },
                None => none_is(self@.services, uuid@),
            },
    {
        let mut i: usize = 0;
        while i < self.services.len()
            invariant
                i <= self.services.len(),
                forall|k: int| 0 <= k < i ==> (#[trigger] self@.services[k]).uuid != uuid@,
            decreases self.services.len() - i,
        {
            assert(self@.services[i as int] == self.services@[i as int]@);
            if self.services[i].uuid.same(uuid) {
                return Some(&self.services[i]);
            }
            i = i + 1;
        }
        None
    }

    /// All entries whose handle lies between `start` and `end`: service by service,
    /// and within a service its properties, its methods and its events.
    pub fn find_in_range(&self, start: u16, end: u16) -> (r: Vec<EntryInfo>)
        ensures
            ssap_pdu::entries_view(r@) == in_range(all_entries(self@.services), start, end),
    {
        let mut result: Vec<EntryInfo> = Vec::new();
        let mut i: usize = 0;
        let ghost mut acc: Seq<EntryModel> = Seq::empty();
        assert(ssap_pdu::entries_view(result@) == in_range(acc, start, end));
        assert(services_view(self.services@.take(0)) == Seq::<ServiceModel>::empty());
        while i < self.services.len()
            invariant
                i <= self.services.len(),
                acc == all_entries(services_view(self.services@.take(i as int))),
                ssap_pdu::entries_view(result@) == in_range(acc, start, end),
            decreases self.services.len() - i,
        {
            let svc = &self.services[i];
            let ghost base = acc;
            let cat = if svc.primary {
                EntryCategory::PrimaryService
            } else {
                EntryCategory::SecondaryService
            };
            push_in_range(
                &mut result,
                EntryInfo { handle: svc.start_handle, category: cat, uuid: svc.uuid },
                start,
                end,
                Ghost(acc),
            );
            proof {
                acc = acc.push(service_entry(svc@));
            }
            let mut j: usize = 0;
            assert(acc == base + seq![service_entry(svc@)] + svc@.properties.take(0).map_values(
                |p: PropertyModel| property_entry(p),
            ));
            while j < svc.properties.len()
                invariant
                    j <= svc.properties.len(),
                    acc == base + seq![service_entry(svc@)] + svc@.properties.take(
                        j as int,
                    ).map_values(|p: PropertyModel| property_entry(p)),
                    ssap_pdu::entries_view(result@) == in_range(acc, start, end),
                decreases svc.properties.len() - j,
            {
                let p = &svc.properties[j];
                push_in_range(
                    &mut result,
                    EntryInfo { handle: p.handle, category: EntryCategory::Property, uuid: p.uuid },
                    start,
                    end,
                    Ghost(acc),
                );
                proof {
                    acc = acc.push(property_entry(p@));
                }
                j = j + 1;
                assert(svc@.properties.take(j as int) == svc@.properties.take(j - 1).push(p@));
                assert(acc == base + seq![service_entry(svc@)] + svc@.properties.take(
                    j as int,
                ).map_values(|p: PropertyModel| property_entry(p)));
            }
            assert(svc@.properties.take(j as int) == svc@.properties);
            let ghost base2 = acc;
            let mut k: usize = 0;
            assert(acc == base2 + svc@.methods.take(0).map_values(
                |m: MethodModel| method_entry(m),
            ));
            while k < svc.methods.len()
                invariant
                    k <= svc.methods.len(),
                    acc == base2 + svc@.methods.take(k as int).map_values(
                        |m: MethodModel| method_entry(m),
                    ),
                    ssap_pdu::entries_view(result@) == in_range(acc, start, end),
                decreases svc.methods.len() - k,
            {
                let m = &svc.methods[k];
                push_in_range(
                    &mut result,
                    EntryInfo { handle: m.handle, category: EntryCategory::Method, uuid: m.uuid },
                    start,
                    end,
                    Ghost(acc),
                );
                proof {
                    acc = acc.push(method_entry(m@));
                }
                k = k + 1;
                assert(svc@.methods.take(k as int) == svc@.methods.take(k - 1).push(m@));
                assert(acc == base2 + svc@.methods.take(k as int).map_values(
                    |m: MethodModel| method_entry(m),
                ));
            }
            assert(svc@.methods.take(k as int) == svc@.methods);
            let ghost base3 = acc;
            let mut l: usize = 0;
            assert(acc == base3 + svc@.events.take(0).map_values(|e: EventModel| event_entry(e)));
            while l < svc.events.len()
                invariant
                    l <= svc.events.len(),
                    acc == base3 + svc@.events.take(l as int).map_values(
                        |e: EventModel| event_entry(e),
                    ),
                    ssap_pdu::entries_view(result@) == in_range(acc, start, end),
                decreases svc.events.len() - l,
            {
                let e = &svc.events[l];
                push_in_range(
                    &mut result,
                    EntryInfo { handle: e.handle, category: EntryCategory::Event, uuid: e.uuid },
                    start,
                    end,
                    Ghost(acc),
                );
                proof {
                    acc = acc.push(event_entry(e@));
                }
                l = l + 1;
                assert(svc@.events.take(l as int) == svc@.events.take(l - 1).push(e@));
                assert(acc == base3 + svc@.events.take(l as int).map_values(
                    |e: EventModel| event_entry(e),
                ));
            }
            assert(svc@.events.take(l as int) == svc@.events);
            assert(acc == base + service_entries(svc@));
            i = i + 1;
            let ghost s = services_view(self.services@.take(i as int));
            assert(s.drop_last() == services_view(self.services@.take(i - 1)));
            assert(s.last() == svc@);
        }
        assert(self.services@.take(i as int) == self.services@);
        result
    }

    fn locate_property(&self, handle: u16) -> (r: Option<(usize, usize)>)
        ensures
            match r {
                Some(t) => prop_at(self@.services, handle, t.0 as int, t.1 as int),
                None => !has_prop(self@.services, handle),
            },
    {
        let mut i: usize = 0;
        while i < self.services.len()
            invariant
                i <= self.services.len(),
                forall|a: int, b: int|
                    0 <= a < i && 0 <= b < self@.services[a].properties.len() ==> (
                    #[trigger] self@.services[a].properties[b]).handle != handle,
            decreases self.services.len() - i,
        {
            let svc = &self.services[i];
            assert(self@.services[i as int] == svc@);
            let mut j: usize = 0;
            while j < svc.properties.len()
                invariant
                    i < self.services.len(),
                    svc@ == self@.services[i as int],
                    j <= svc.properties.len(),
                    forall|a: int, b: int|
                        0 <= a < i && 0 <= b < self@.services[a].properties.len() ==> (
                        #[trigger] self@.services[a].properties[b]).handle != handle,
                    forall|b: int|
                        0 <= b < j ==> (#[trigger] self@.services[i as int].properties[b]).handle
                            != handle,
                decreases svc.properties.len() - j,
            {
                assert(self@.services[i as int].properties[j as int]
                    == svc.properties@[j as int]@);
                if svc.properties[j].handle == handle {
                    return Some((i, j));
                }
                j = j + 1;
            }
            i = i + 1;
        }
        None
    }

    /// The value of the property of handle `handle`. `ENOENT` where there is none,
    /// `EACCES` where it cannot be read.
    pub fn read_property(&self, handle: u16) -> (r: Result<Vec<u8>, Errno>)
        ensures
            bytes_result(r) == self@.read(handle),
    {
        match self.locate_property(handle) {
            Some((i, j)) => {
                proof {
                    prop_at_unique(self@.services, handle, i as int, j as int);
                    assert(prop_of(self@.services, handle)
                        == self.services@[i as int].properties@[j as int]@);
                }
                if !self.services[i].properties[j].ops.contains(OpIndicator::READ) {
                    return Err(Errno::EACCES);
                }
                Ok(bytes::to_vec(self.services[i].properties[j].value.as_slice()))
            },
            None => Err(Errno::ENOENT),
        }
    }

    /// Handle and value of the first readable property with UUID `uuid`, or `ENOENT`.
    pub fn read_by_uuid(&self, uuid: &SsapUuid) -> (r: Result<(u16, Vec<u8>), Errno>)
        ensures
            match r {
                Ok(t) => exists|i: int, j: int|
                    {
                        &&& #[trigger] readable_at(self@.services, uuid@, i, j)
                        &&& t.0 == self@.services[i].properties[j].handle
                        &&& t.1@ == self@.services[i].properties[j].value
                    },
                Err(e) => e == Errno::ENOENT && forall|i: int, j: int|
                    0 <= i < self@.services.len() && 0 <= j < self@.services[i].properties.len()
                        ==> !readable_as(#[trigger] self@.services[i].properties[j], uuid@),
            },
    {
        let mut i: usize = 0;
        while i < self.services.len()
            invariant
                i <= self.services.len(),
                forall|a: int, b: int|
                    0 <= a < i && 0 <= b < self@.services[a].properties.len() ==> !readable_as(
                        #[trigger] self@.services[a].properties[b],
                        uuid@,
                    ),
            decreases self.services.len() - i,
        {
            let svc = &self.services[i];
            assert(self@.services[i as int] == svc@);
            let mut j: usize = 0;
            while j < svc.properties.len()
                invariant
                    i < self.services.len(),
                    svc@ == self@.services[i as int],
                    j <= svc.properties.len(),
                    forall|a: int, b: int|
                        0 <= a < i && 0 <= b < self@.services[a].properties.len()
                            ==> !readable_as(#[trigger] self@.services[a].properties[b], uuid@),
                    forall|b: int|
                        0 <= b < j ==> !readable_as(
                            #[trigger] self@.services[i as int].properties[b],
                            uuid@,
                        ),
                decreases svc.properties.len() - j,
            {
                let p = &svc.properties[j];
                assert(self@.services[i as int].properties[j as int] == p@);
                if p.uuid.same(uuid) && p.ops.contains(OpIndicator::READ) {
                    assert(readable_at(self@.services, uuid@, i as int, j as int));
                    return Ok((p.handle, bytes::to_vec(p.value.as_slice())));
                }
                j = j + 1;
            }
            i = i + 1;
        }
        Err(Errno::ENOENT)
    }

    /// Replaces the value of the property of handle `handle` and queues what the
    /// client is to be told. `EINVAL` where the value is too long, `ENOENT` where
    /// there is no such property, `EACCES` where it cannot be written.
    pub fn write_property(&mut self, handle: u16, data: &[u8]) -> (r: Result<(), Errno>)
        ensures
            r == old(self)@.write_result(handle, data@),
            final(self)@ == old(self)@.after_write(handle, data@),
            old(self)@.wf() ==> final(self)@.wf(),
    {
        if data.len() > PROPERTY_VALUE_MAX {
            return Err(Errno::EINVAL);
        }
        let (i, j) = match self.locate_property(handle) {
            Some(t) => t,
            None => return Err(Errno::ENOENT),
        };
        proof {
            prop_at_unique(self@.services, handle, i as int, j as int);
            assert(prop_of(self@.services, handle)
                == self.services@[i as int].properties@[j as int]@);
        }
        let ops = self.services[i].properties[j].ops;
        if !ops.contains(OpIndicator::WRITE_WITH_RSP) && !ops.contains(OpIndicator::WRITE_NO_RSP) {
            return Err(Errno::EACCES);
        }
        let client_cfg = self.services[i].properties[j].client_cfg;
        let do_notify = ops.contains(OpIndicator::NOTIFY) && (client_cfg & 0x01) != 0;
        let do_indicate = ops.contains(OpIndicator::INDICATE) && (client_cfg & 0x02) != 0;
        self.services[i].properties[j].value = bytes::to_vec(data);
        proof {
            let s0 = old(self).services@[i as int];
            let s1 = self.services@[i as int];
            assert(s1@.properties == s0@.properties.update(
                j as int,
                PropertyModel { value: data@, ..s0.properties@[j as int]@ },
            ));
            assert(self@.services == old(self)@.written(handle, data@).services);
            assert(self@.notifications == old(self)@.notifications);
        }
        if do_notify {
            let n = PendingNotification { handle, indication: false, data: bytes::to_vec(data) };
            self.notifications.push(n);
            assert(self@.notifications == old(self)@.notifications.push(n@));
        }
        if do_indicate {
            let ghost before = self@.notifications;
            let n = PendingNotification { handle, indication: true, data: bytes::to_vec(data) };
            self.notifications.push(n);
            assert(self@.notifications == before.push(n@));
        }
        assert(self@ == old(self)@.written(handle, data@));
        proof {
            if old(self)@.wf() {
                value_change_keeps_wf(old(self)@, self@, i as int);
            }
        }
        Ok(())
    }

    /// Sets the client configuration of the property of handle `handle`. `ENOENT`
    /// where there is none, `EACCES` where its configuration cannot be written.
    pub fn set_client_config(&mut self, handle: u16, config: u16) -> (r: Result<(), Errno>)
        ensures
            !has_prop(old(self)@.services, handle) ==> r == Err::<(), Errno>(Errno::ENOENT)
                && final(self)@ == old(self)@,
            has_prop(old(self)@.services, handle) && !has_op(
                prop_of(old(self)@.services, handle).ops,
                OpIndicator::CLIENT_CFG_WR,
            ) ==> r == Err::<(), Errno>(Errno::EACCES) && final(self)@ == old(self)@,
            has_prop(old(self)@.services, handle) && has_op(
                prop_of(old(self)@.services, handle).ops,
                OpIndicator::CLIENT_CFG_WR,
            ) ==> r == Ok::<(), Errno>(()) && final(self)@ == (SsapModel {
                services: with_prop(
                    old(self)@.services,
                    handle,
                    PropertyModel {
                        client_cfg: config,
                        ..prop_of(old(self)@.services, handle)
                    },
                ),
                ..old(self)@
            }),
            old(self)@.wf() ==> final(self)@.wf(),
    {
        match self.locate_property(handle) {
            Some((i, j)) => {
                proof {
                    prop_at_unique(self@.services, handle, i as int, j as int);
                    assert(prop_of(self@.services, handle)
                        == self.services@[i as int].properties@[j as int]@);
                }
                if !self.services[i].properties[j].ops.contains(OpIndicator::CLIENT_CFG_WR) {
                    return Err(Errno::EACCES);
                }
                self.services[i].properties[j].client_cfg = config;
                proof {
                    let s0 = old(self).services@[i as int];
                    let s1 = self.services@[i as int];
                    assert(s1@.properties == s0@.properties.update(
                        j as int,
                        PropertyModel { client_cfg: config, ..s0.properties@[j as int]@ },
                    ));
                    assert(self@.services == with_prop(
                        old(self)@.services,
                        handle,
                        PropertyModel {
                            client_cfg: config,
                            ..prop_of(old(self)@.services, handle)
                        },
                    ));
                    if old(self)@.wf() {
                        value_change_keeps_wf(old(self)@, self@, i as int);
                    }
                }
                Ok(())
            },
            None => Err(Errno::ENOENT),
        }
    }

    fn queue(&mut self, handle: u16, indication: bool) -> (r: Result<(), Errno>)
        ensures
            match old(self)@.read(handle) {
                Ok(v) => r == Ok::<(), Errno>(()) && final(self)@ == old(
                    self,
                )@.with_notification(handle, indication),
                Err(e) => r == Err::<(), Errno>(e) && final(self)@ == old(self)@,
            },
    {
        match self.read_property(handle) {
            Ok(data) => {
                let n = PendingNotification { handle, indication, data };
                self.notifications.push(n);
                assert(self@.notifications == old(self)@.notifications.push(n@));
                Ok(())
            },
            Err(e) => Err(e),
        }
    }

    /// Queues a notification of the value of handle `handle`; fails as a read does.
    pub fn notify(&mut self, handle: u16) -> (r: Result<(), Errno>)
        ensures
            match old(self)@.read(handle) {
                Ok(v) => r == Ok::<(), Errno>(()) && final(self)@ == old(
                    self,
                )@.with_notification(handle, false),
                Err(e) => r == Err::<(), Errno>(e) && final(self)@ == old(self)@,
            },
    {
        self.queue(handle, false)
    }

    /// Queues an indication of the value of handle `handle`; fails as a read does.
    pub fn indicate(&mut self, handle: u16) -> (r: Result<(), Errno>)
        ensures
            match old(self)@.read(handle) {
                Ok(v) => r == Ok::<(), Errno>(()) && final(self)@ == old(
                    self,
                )@.with_notification(handle, true),
                Err(e) => r == Err::<(), Errno>(e) && final(self)@ == old(self)@,
            },
    {
        self.queue(handle, true)
    }

    /// Takes the oldest waiting change.
    pub fn dequeue_notification(&mut self) -> (r: Option<PendingNotification>)
        ensures
            match r {
                Some(n) => old(self)@.notifications.len() > 0 && n@ == old(self)@.notifications[0]
                    && final(self)@ == (SsapModel {
                    notifications: old(self)@.notifications.drop_first(),
                    ..old(self)@
                }),
                None => old(self)@.notifications.len() == 0 && final(self)@ == old(self)@,
            },
    {
        if self.notifications.len() == 0 {
            return None;
        }
        let n = self.notifications.remove(0);
        assert(self@.notifications == old(self)@.notifications.drop_first());
        Some(n)
    }

    /// Number of waiting changes.
    pub fn notification_count(&self) -> (r: usize)
        ensures
            r == self@.notifications.len(),
    {
        self.notifications.len()
    }

    fn locate_method(&self, handle: u16) -> (r: Option<(usize, usize)>)
        ensures
            match r {
                Some(t) => method_at(self@.services, handle, t.0 as int, t.1 as int),
                None => !has_method(self@.services, handle),
            },
    {
        let mut i: usize = 0;
        while i < self.services.len()
            invariant
                i <= self.services.len(),
                forall|a: int, b: int|
                    0 <= a < i && 0 <= b < self@.services[a].methods.len() ==> (
                    #[trigger] self@.services[a].methods[b]).handle != handle,
            decreases self.services.len() - i,
        {
            let svc = &self.services[i];
            assert(self@.services[i as int] == svc@);
            let mut j: usize = 0;
            while j < svc.methods.len()
                invariant
                    i < self.services.len(),
                    svc@ == self@.services[i as int],
                    j <= svc.methods.len(),
                    forall|a: int, b: int|
                        0 <= a < i && 0 <= b < self@.services[a].methods.len() ==> (
                        #[trigger] self@.services[a].methods[b]).handle != handle,
                    forall|b: int|
                        0 <= b < j ==> (#[trigger] self@.services[i as int].methods[b]).handle
                            != handle,
                decreases svc.methods.len() - j,
            {
                assert(self@.services[i as int].methods[j as int] == svc.methods@[j as int]@);
                if svc.methods[j].handle == handle {
                    return Some((i, j));
                }
                j = j + 1;
            }
            i = i + 1;
        }
        None
    }

    /// Calls the method of handle `handle`, which keeps its input and answers it back.
    /// `ENOENT` where there is no such method.
    pub fn call_method(&mut self, handle: u16, input: &[u8]) -> (r: Result<Vec<u8>, Errno>)
        ensures
            has_method(old(self)@.services, handle) ==> bytes_result(r) == Ok::<Seq<u8>, Errno>(
                input@,
            ) && final(self)@ == old(self)@.called(handle, input@),
            !has_method(old(self)@.services, handle) ==> bytes_result(r) == Err::<Seq<u8>, Errno>(
                Errno::ENOENT,
            ) && final(self)@ == old(self)@,
    {
        match self.locate_method(handle) {
            Some((i, j)) => {
                proof {
                    method_at_unique(self@.services, handle, i as int, j as int);
                }
                self.services[i].methods[j].input = bytes::to_vec(input);
                self.services[i].methods[j].output = bytes::to_vec(input);
                proof {
                    let s0 = old(self).services@[i as int];
                    let s1 = self.services@[i as int];
                    assert(s1@.methods == s0@.methods.update(
                        j as int,
                        MethodModel { input: input@, output: input@, ..s0.methods@[j as int]@ },
                    ));
                    assert(self@.services == old(self)@.called(handle, input@).services);
                }
                Ok(bytes::to_vec(input))
            },
            None => Err(Errno::ENOENT),
        }
    }

    /// Registers the device information service. `ENOSPC` where its six handles are
    /// not left; the entries that found a handle stay.
    pub fn register_device_info_service(&mut self) -> (r: Result<(), Errno>)
        ensures
            old(self)@.next_handle <= 0xFFF9 ==> r == Ok::<(), Errno>(()) && final(self)@
                == device_info(old(self)@, 6),
            old(self)@.next_handle > 0xFFF9 ==> r == Err::<(), Errno>(Errno::ENOSPC)
                && final(self)@ == device_info(old(self)@, 0xFFFF - old(self)@.next_handle),
            old(self)@.wf() ==> final(self)@.wf(),
    {
        proof {
            reveal_with_fuel(device_info, 7);
        }
        if let Err(e) = self.register_service(SsapUuid::Uuid16(0x0001), true) {
            return Err(e);
        }
        let name = [0x53u8, 0x70, 0x61, 0x72, 0x6B, 0x4C, 0x69, 0x6E, 0x6B, 0x20, 0x56, 0x69, 0x72, 0x74, 0x75, 0x61, 0x6C, 0x20, 0x44, 0x65, 0x76, 0x69, 0x63, 0x65];
        assert(name@ == device_name());
        if let Err(e) = self.add_property(
            SsapUuid::Uuid16(0x1001),
            OpIndicator::from_raw(OpIndicator::READ),
            name.as_slice(),
        ) {
            return Err(e);
        }
        let firmware = [0x30u8, 0x2E, 0x33, 0x2E, 0x30];
        assert(firmware@ == device_firmware());
        if let Err(e) = self.add_property(
            SsapUuid::Uuid16(0x1002),
            OpIndicator::from_raw(OpIndicator::READ),
            firmware.as_slice(),
        ) {
            return Err(e);
        }
        let status = [0u8];
        assert(status@ == seq![0u8]);
        let ops = OpIndicator::from_raw(
            OpIndicator::READ | OpIndicator::WRITE_WITH_RSP | OpIndicator::NOTIFY
                | OpIndicator::CLIENT_CFG_WR,
        );
        if let Err(e) = self.add_property(SsapUuid::Uuid16(0x1003), ops, status.as_slice()) {
            return Err(e);
        }
        let format = [DataType::Uint8.code(), 0u8, 0u8, 0u8, 0u8, 0u8, 0u8];
        assert(format@ == seq![DataType::Uint8.code(), 0u8, 0u8, 0u8, 0u8, 0u8, 0u8]);
        if let Err(e) = self.add_descriptor(DescriptorType::PropertyFormat, format.as_slice()) {
            return Err(e);
        }
        if let Err(e) = self.add_event(SsapUuid::Uuid16(0x8001)) {
            return Err(e);
        }
        match self.add_method(SsapUuid::Uuid16(0x7001)) {
            Ok(_) => Ok(()),
            Err(e) => Err(e),
        }
    }

    /// Number of services.
    pub fn service_count(&self) -> (r: usize)
        ensures
            r == self@.services.len(),
    {
        self.services.len()
    }

    /// Number of properties of all services.
    pub fn property_count(&self) -> (r: usize)
        requires
            self@.wf(),
        ensures
            r == total_properties(self@.services),
    {
        let mut n: usize = 0;
        let mut i: usize = 0;
        while i < self.services.len()
            invariant
                i <= self.services.len(),
                self@.wf(),
                n == total_properties(self@.services.take(i as int)),
                n <= 0x10000,
            decreases self.services.len() - i,
        {
            assert(self@.services[i as int] == self.services@[i as int]@);
            let ghost s = self@.services.take(i + 1);
            proof {
                assert(s.drop_last() == self@.services.take(i as int));
                sizes_bounded(self@, i + 1);
                assert(service_wf(self@.services[i as int]));
            }
            n = n + self.services[i].properties.len();
            i = i + 1;
        }
        assert(self@.services.take(i as int) == self@.services);
        n
    }

    /// Number of handles in use: services, properties, methods and events.
    pub fn total_entries(&self) -> (r: usize)
        requires
            self@.wf(),
        ensures
            r == total_size(self@.services),
    {
        let mut n: usize = 0;
        let mut i: usize = 0;
        while i < self.services.len()
            invariant
                i <= self.services.len(),
                self@.wf(),
                n == total_size(self@.services.take(i as int)),
                n <= 0x10000,
            decreases self.services.len() - i,
        {
            assert(self@.services[i as int] == self.services@[i as int]@);
            let ghost s = self@.services.take(i + 1);
            proof {
                assert(s.drop_last() == self@.services.take(i as int));
                sizes_bounded(self@, i + 1);
                assert(service_wf(self@.services[i as int]));
            }
            let svc = &self.services[i];
            n = n + (1 + svc.properties.len() + svc.methods.len() + svc.events.len());
            i = i + 1;
        }
        assert(self@.services.take(i as int) == self@.services);
        n
    }
}

fn push_in_range(
    result: &mut Vec<EntryInfo>,
    e: EntryInfo,
    start: u16,
    end: u16,
    Ghost(acc): Ghost<Seq<EntryModel>>,
)
    requires
        ssap_pdu::entries_view(old(result)@) == in_range(acc, start, end),
    ensures
        ssap_pdu::entries_view(final(result)@) == in_range(acc.push(e@), start, end),
{
    let ghost before = ssap_pdu::entries_view(result@);
    assert(acc.push(e@).drop_last() == acc);
    if e.handle >= start && e.handle <= end {
        result.push(e);
        assert(ssap_pdu::entries_view(result@) == before.push(e@));
    }
}

/// Growing the last service by one entry of a new handle keeps the ranges apart.
proof fn added_keeps_wf(m: SsapModel, s: ServiceModel)
    requires
        m.wf(),
        m.services.len() > 0,
        m.next_handle < 0xFFFF,
        s.start_handle == m.services.last().start_handle,
        s.end_handle == m.next_handle,
        service_wf(s),
    ensures
        m.with_last(s).wf(),
{
    let n = m.with_last(s);
    let k = m.services.len() - 1;
    assert forall|i: int, j: int| 0 <= i < j < n.services.len() implies (
    #[trigger] n.services[i]).end_handle < (#[trigger] n.services[j]).start_handle by {
        assert(m.services[i].end_handle < m.services[j].start_handle);
    }
    assert forall|i: int| 0 <= i < n.services.len() implies service_wf(#[trigger] n.services[i])
        && n.services[i].end_handle < n.next_handle by {
        if i < k {
            assert(service_wf(m.services[i]));
        }
    }
}

/// Changing a service without touching its handles keeps the ranges apart.
proof fn value_change_keeps_wf(m: SsapModel, n: SsapModel, i: int)
    requires
        m.wf(),
        0 <= i < m.services.len(),
        n.next_handle == m.next_handle,
        n.services == m.services.update(i, n.services[i]),
        n.services[i].start_handle == m.services[i].start_handle,
        n.services[i].end_handle == m.services[i].end_handle,
        n.services[i].methods == m.services[i].methods,
        n.services[i].events == m.services[i].events,
        n.services[i].properties.len() == m.services[i].properties.len(),
        forall|j: int|
            0 <= j < m.services[i].properties.len() ==> (
            #[trigger] n.services[i].properties[j]).handle == m.services[i].properties[j].handle
                && n.services[i].properties[j].value.len() <= PROPERTY_VALUE_MAX,
    ensures
        n.wf(),
{
    assert(service_wf(m.services[i]));
    let s = m.services[i];
    let t = n.services[i];
    assert(service_wf(t)) by {
        assert forall|a: int, b: int| 0 <= a < b < t.properties.len() implies (
        #[trigger] t.properties[a]).handle < (#[trigger] t.properties[b]).handle by {
            assert(s.properties[a].handle < s.properties[b].handle);
        }
        assert forall|a: int| 0 <= a < t.properties.len() implies t.start_handle < (
        #[trigger] t.properties[a]).handle <= t.end_handle by {
            assert(s.properties[a].handle <= s.end_handle);
        }
        assert forall|a: int, b: int|
            0 <= a < t.properties.len() && 0 <= b < t.methods.len() implies (
        #[trigger] t.properties[a]).handle != (#[trigger] t.methods[b]).handle by {
            assert(s.properties[a].handle != s.methods[b].handle);
        }
        assert forall|a: int, b: int|
            0 <= a < t.properties.len() && 0 <= b < t.events.len() implies (
        #[trigger] t.properties[a]).handle != (#[trigger] t.events[b]).handle by {
            assert(s.properties[a].handle != s.events[b].handle);
        }
    }
    assert forall|a: int| 0 <= a < n.services.len() implies service_wf(#[trigger] n.services[a])
        && n.services[a].end_handle < n.next_handle by {
        assert(service_wf(m.services[a]));
    }
    assert forall|a: int, b: int| 0 <= a < b < n.services.len() implies (
    #[trigger] n.services[a]).end_handle < (#[trigger] n.services[b]).start_handle by {
        assert(m.services[a].end_handle < m.services[b].start_handle);
    }
}

/// No two properties of a database share a handle, so that a handle names one
/// property for good.
pub proof fn property_handles_unique(m: SsapModel, i: int, j: int, a: int, b: int)
    requires
        m.wf(),
        0 <= i < m.services.len(),
        0 <= j < m.services[i].properties.len(),
        0 <= a < m.services.len(),
        0 <= b < m.services[a].properties.len(),
        m.services[i].properties[j].handle == m.services[a].properties[b].handle,
    ensures
        i == a,
        j == b,
{
    assert(service_wf(m.services[i]));
    assert(service_wf(m.services[a]));
    if i < a {
        assert(m.services[i].end_handle < m.services[a].start_handle);
    } else if a < i {
        assert(m.services[a].end_handle < m.services[i].start_handle);
    } else if j < b {
        assert(m.services[i].properties[j].handle < m.services[i].properties[b].handle);
    } else if b < j {
        assert(m.services[i].properties[b].handle < m.services[i].properties[j].handle);
    }
}

/// A read gives back what the last write to the same handle wrote, and a write to
/// one handle does not change what a read of another handle gives.
pub proof fn read_after_write(m: SsapModel, h: u16, data: Seq<u8>, other: u16)
    requires
        m.write_result(h, data) is Ok,
        other != h,
    ensures
        has_op(prop_of(m.services, h).ops, OpIndicator::READ) ==> m.written(h, data).read(h)
            == Ok::<Seq<u8>, Errno>(data),
        m.written(h, data).read(other) == m.read(other),
{
    let n = m.written(h, data);
    let (i, j) = prop_pos(m.services, h);
    assert(prop_at(m.services, h, i, j));
    same_handles(m.services, n.services, i);
    assert(prop_at(n.services, h, i, j));
    prop_at_unique(n.services, h, i, j);
    if has_prop(m.services, other) {
        let (a, b) = prop_pos(m.services, other);
        assert(prop_at(m.services, other, a, b));
        assert(prop_at(n.services, other, a, b));
        prop_at_unique(n.services, other, a, b);
        assert(n.services[a].properties[b] == m.services[a].properties[b]);
    } else if has_prop(n.services, other) {
        let (a, b) = prop_pos(n.services, other);
        assert(prop_at(n.services, other, a, b));
        assert(prop_at(m.services, other, a, b));
    }
}

/// Services that differ in one service only, and there in no property handle, have
/// the same first properties.
proof fn same_handles(s: Seq<ServiceModel>, t: Seq<ServiceModel>, i: int)
    requires
        0 <= i < s.len(),
        t == s.update(i, t[i]),
        s[i].properties.len() == t[i].properties.len(),
        forall|j: int|
            0 <= j < s[i].properties.len() ==> (#[trigger] t[i].properties[j]).handle
                == s[i].properties[j].handle,
    ensures
        forall|h: u16, a: int, b: int| prop_at(s, h, a, b) == #[trigger] prop_at(t, h, a, b),
        forall|h: u16, a: int, b: int| #[trigger] prop_at(s, h, a, b) == prop_at(t, h, a, b),
{
    assert forall|h: u16, a: int, b: int| prop_at(s, h, a, b) == #[trigger] prop_at(
        t,
        h,
        a,
        b,
    ) by {
        assert forall|x: int, y: int|
            0 <= x < s.len() && 0 <= y < s[x].properties.len() implies #[trigger] s[x].properties[y].handle
            == t[x].properties[y].handle by {
            if x == i {
                assert(t[i].properties[y].handle == s[i].properties[y].handle);
            } else {
                assert(t[x] == s[x]);
            }
        }
        if prop_at(s, h, a, b) {
            assert(t[a].properties[b].handle == s[a].properties[b].handle);
            assert forall|y: int| 0 <= y < b implies (#[trigger] t[a].properties[y]).handle
                != h by {
                assert(s[a].properties[y].handle != h);
            }
            assert forall|x: int, y: int|
                0 <= x < a && 0 <= y < t[x].properties.len() implies (
            #[trigger] t[x].properties[y]).handle != h by {
                assert(s[x].properties[y].handle != h);
            }
        }
        if prop_at(t, h, a, b) {
            assert(t[a].properties[b].handle == s[a].properties[b].handle);
            assert forall|y: int| 0 <= y < b implies (#[trigger] s[a].properties[y]).handle
                != h by {
                assert(t[a].properties[y].handle != h);
            }
            assert forall|x: int, y: int|
                0 <= x < a && 0 <= y < s[x].properties.len() implies (
            #[trigger] s[x].properties[y]).handle != h by {
                assert(t[x].properties[y].handle != h);
            }
        }
    }
}

/// A property that was just added is found under the handle that the addition
/// returned, with the value it was added with.
pub proof fn read_after_add(m: SsapModel, uuid: UuidModel, ops: u32, value: Seq<u8>)
    requires
        m.wf(),
        m.services.len() > 0,
        m.next_handle < 0xFFFF,
    ensures
        m.with_property(uuid, ops, value).read(m.next_handle) == if has_op(ops, OpIndicator::READ) {
            Ok::<Seq<u8>, Errno>(value)
        } else {
            Err::<Seq<u8>, Errno>(Errno::EACCES)
        },
{
    let n = m.with_property(uuid, ops, value);
    let i = m.services.len() - 1;
    let j = m.services[i].properties.len() as int;
    let h = m.next_handle;
    assert forall|a: int, b: int|
        0 <= a < i && 0 <= b < n.services[a].properties.len() implies (
    #[trigger] n.services[a].properties[b]).handle != h by {
        assert(service_wf(m.services[a]));
        assert(m.services[a].properties[b].handle <= m.services[a].end_handle);
    }
    assert forall|b: int| 0 <= b < j implies (#[trigger] n.services[i].properties[b]).handle
        != h by {
        assert(service_wf(m.services[i]));
        assert(m.services[i].properties[b].handle <= m.services[i].end_handle);
    }
    assert(prop_at(n.services, h, i, j));
    prop_at_unique(n.services, h, i, j);
}

/// Discovery reports an entry if and only if it is there and its handle lies in the
/// range that was asked for.
pub proof fn discovery_exact(s: Seq<EntryModel>, start: u16, end: u16, e: EntryModel)
    ensures
        in_range(s, start, end).contains(e) <==> s.contains(e) && start <= e.handle <= end,
    decreases s.len(),
{
    if s.len() > 0 {
        let t = s.drop_last();
        discovery_exact(t, start, end, e);
        let r = in_range(t, start, end);
        assert(s == t.push(s.last()));
        if s.contains(e) {
            let i = choose|i: int| 0 <= i < s.len() && s[i] == e;
            if i < t.len() {
                assert(t[i] == e);
            }
        }
        if t.contains(e) {
            let i = choose|i: int| 0 <= i < t.len() && t[i] == e;
            assert(s[i] == e);
        }
        if e == s.last() {
            assert(s[s.len() - 1] == e);
        }
        if start <= s.last().handle <= end {
            let q = r.push(s.last());
            if r.contains(e) {
                let i = choose|i: int| 0 <= i < r.len() && r[i] == e;
                assert(q[i] == e);
            }
            if e == s.last() {
                assert(q[q.len() - 1] == e);
            }
            if q.contains(e) {
                let i = choose|i: int| 0 <= i < q.len() && q[i] == e;
                if i < r.len() {
                    assert(r[i] == e);
                }
            }
        }
    }
}

/// The services before the `k`-th use no more handles than were given out.
proof fn sizes_bounded(m: SsapModel, k: int)
    requires
        m.wf(),
        0 <= k <= m.services.len(),
    ensures
        total_size(m.services.take(k)) <= 0x10000,
        total_properties(m.services.take(k)) <= total_size(m.services.take(k)),
        k > 0 ==> total_size(m.services.take(k)) <= m.services[k - 1].end_handle + 1,
    decreases k,
{
    if k > 0 {
        sizes_bounded(m, k - 1);
        let s = m.services.take(k);
        assert(s.drop_last() == m.services.take(k - 1));
        assert(service_wf(m.services[k - 1]));
        if k > 1 {
            assert(m.services[k - 2].end_handle < m.services[k - 1].start_handle);
        }
    }
}

} // verus!
