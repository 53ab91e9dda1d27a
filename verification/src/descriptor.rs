//! Device discovery and interface negotiation over descriptor data.

use vstd::prelude::*;
use crate::error::{TransportError, UsbFailure};
use crate::wire::{Direction, HID_CLASS};

verus! {

/// Vendor and product identifiers of a device.
#[derive(Clone, Copy, Debug, PartialEq, Eq, Structural)]
pub struct DeviceIdentity {
    pub vendor_id: u16,
    pub product_id: u16,
}

/// One endpoint descriptor.
#[derive(Clone, Copy, Debug, PartialEq, Eq, Structural)]
pub struct EndpointInfo {
    pub address: u8,
    pub direction: Direction,
    pub max_packet_size: u16,
}

/// One alternate setting of an interface, with its endpoints in descriptor
/// order.
#[derive(Debug)]
pub struct AlternateSetting {
    pub interface_number: u8,
    pub setting_number: u8,
    pub class_code: u8,
    pub endpoints: Vec<EndpointInfo>,
}

/// One interface, with its alternate settings in descriptor order.
#[derive(Debug)]
pub struct InterfaceInfo {
    pub settings: Vec<AlternateSetting>,
}

/// A configuration descriptor tree.
#[derive(Debug)]
pub struct ConfigInfo {
    pub number: u8,
    pub interfaces: Vec<InterfaceInfo>,
}

/// What the bus reports of one attached device: its identity, where its
/// device descriptor could be read, and its configuration descriptor or the
/// failure to read it.
#[derive(Debug)]
pub struct AttachedDevice {
    pub identity: Option<DeviceIdentity>,
    pub config: Result<ConfigInfo, UsbFailure>,
}

/// The interface and endpoint that carry a session's HID traffic.
#[derive(Clone, Copy, Debug, PartialEq, Eq, Structural)]
pub struct InterfaceDescriptor {
    pub config: u8,
    pub interface_number: u8,
    pub alternate_setting: u8,
    pub endpoint_address: u8,
    pub max_packet_size: u16,
}

/// Position of an endpoint in a configuration tree: interface, alternate
/// setting, endpoint.
#[derive(Clone, Copy, Debug, PartialEq, Eq, Structural)]
pub struct EndpointPath {
    pub interface: usize,
    pub setting: usize,
    pub endpoint: usize,
}

/// The device at `i` carries the wanted identity.
pub open spec fn is_match(attached: Seq<AttachedDevice>, wanted: DeviceIdentity, i: int) -> bool {
    0 <= i < attached.len() && attached[i].identity == Some(wanted)
}

/// `i` is the first device that carries the wanted identity.
pub open spec fn first_match(attached: Seq<AttachedDevice>, wanted: DeviceIdentity, i: int) -> bool {
    is_match(attached, wanted, i) && forall|j: int|
        0 <= j < i ==> !#[trigger] is_match(attached, wanted, j)
}

/// No attached device carries the wanted identity.
pub open spec fn none_match(attached: Seq<AttachedDevice>, wanted: DeviceIdentity) -> bool {
    forall|j: int| !#[trigger] is_match(attached, wanted, j)
}

/// Index of the first device that carries the wanted identity.
pub open spec fn located(attached: Seq<AttachedDevice>, wanted: DeviceIdentity) -> Option<int> {
    if exists|i: int| first_match(attached, wanted, i) {
        Some(choose|i: int| first_match(attached, wanted, i))
    } else {
        None
    }
}

/// `(i, j, k)` names an endpoint of the tree.
pub open spec fn in_tree(c: ConfigInfo, i: int, j: int, k: int) -> bool {
    &&& 0 <= i < c.interfaces@.len()
    &&& 0 <= j < c.interfaces@[i].settings@.len()
    &&& 0 <= k < c.interfaces@[i].settings@[j].endpoints@.len()
}

/// An inbound endpoint whose packets fill the input buffer exactly.
pub open spec fn endpoint_fits(e: EndpointInfo, input_len: usize) -> bool {
    e.direction == Direction::In && e.max_packet_size as int == input_len as int
}

/// The endpoint at `(i, j, k)` can carry the session: its setting is of the
/// HID class and the endpoint fits.
pub open spec fn candidate(c: ConfigInfo, input_len: usize, i: int, j: int, k: int) -> bool {
    &&& in_tree(c, i, j, k)
    &&& c.interfaces@[i].settings@[j].class_code == HID_CLASS
    &&& endpoint_fits(c.interfaces@[i].settings@[j].endpoints@[k], input_len)
}

/// Descriptor order: interfaces, then alternate settings, then endpoints.
pub open spec fn before(i: int, j: int, k: int, i2: int, j2: int, k2: int) -> bool {
    i < i2 || (i == i2 && (j < j2 || (j == j2 && k < k2)))
}

/// `(i, j, k)` is the candidate that comes first in descriptor order.
pub open spec fn first_candidate(c: ConfigInfo, input_len: usize, i: int, j: int, k: int) -> bool {
    candidate(c, input_len, i, j, k) && forall|a: int, b: int, d: int| #[trigger]
        candidate(c, input_len, a, b, d) ==> !before(a, b, d, i, j, k)
}

/// The tree holds no candidate.
pub open spec fn no_candidate(c: ConfigInfo, input_len: usize) -> bool {
    forall|i: int, j: int, k: int| !#[trigger] candidate(c, input_len, i, j, k)
}

/// What is recorded of the endpoint at `(i, j, k)`.
pub open spec fn descriptor_at(c: ConfigInfo, i: int, j: int, k: int) -> InterfaceDescriptor {
    InterfaceDescriptor {
        config: c.number,
        interface_number: c.interfaces@[i].settings@[j].interface_number,
        alternate_setting: c.interfaces@[i].settings@[j].setting_number,
        endpoint_address: c.interfaces@[i].settings@[j].endpoints@[k].address,
        max_packet_size: c.interfaces@[i].settings@[j].endpoints@[k].max_packet_size,
    }
}

/// The descriptor of the first candidate, if the tree holds one.
pub open spec fn negotiated(c: ConfigInfo, input_len: usize) -> Option<InterfaceDescriptor> {
    if exists|i: int, j: int, k: int| first_candidate(c, input_len, i, j, k) {
        let (i, j, k) = choose|i: int, j: int, k: int| first_candidate(c, input_len, i, j, k);
        Some(descriptor_at(c, i, j, k))
    } else {
        None
    }
}

/// At most one device is the first match.
pub proof fn lemma_first_match_unique(
    attached: Seq<AttachedDevice>,
    wanted: DeviceIdentity,
    i: int,
    j: int,
)
    requires
        first_match(attached, wanted, i),
        first_match(attached, wanted, j),
    ensures
        i == j,
{
}

/// At most one endpoint is the first candidate.
pub proof fn lemma_first_candidate_unique(
    c: ConfigInfo,
    input_len: usize,
    i: int,
    j: int,
    k: int,
    a: int,
    b: int,
    d: int,
)
    requires
        first_candidate(c, input_len, i, j, k),
        first_candidate(c, input_len, a, b, d),
    ensures
        i == a && j == b && k == d,
{
}

/// A tree without a setting of the HID class holds no candidate, whatever
/// its endpoints are.
pub proof fn lemma_no_hid_setting_no_candidate(c: ConfigInfo, input_len: usize)
    requires
        forall|i: int, j: int|
            0 <= i < c.interfaces@.len() && 0 <= j < c.interfaces@[i].settings@.len()
                ==> (#[trigger] c.interfaces@[i].settings@[j]).class_code != HID_CLASS,
    ensures
        no_candidate(c, input_len),
        negotiated(c, input_len) is None,
{
}

/// Finds the first attached device that carries the wanted identity.
pub fn locate(attached: &Vec<AttachedDevice>, wanted: DeviceIdentity) -> (r: Result<
    usize,
    TransportError,
>)
    ensures
        match r {
            Ok(i) => first_match(attached@, wanted, i as int) && located(attached@, wanted)
                == Some(i as int),
            Err(e) => e == TransportError::DeviceNotFound && none_match(attached@, wanted)
                && located(attached@, wanted) is None,
        },
{
    let mut i: usize = 0;
    while i < attached.len()
        invariant
            i <= attached.len(),
            forall|j: int| 0 <= j < i ==> !#[trigger] is_match(attached@, wanted, j),
        decreases attached.len() - i,
    {
        let hit: bool = match attached[i].identity {
            Some(id) => id.vendor_id == wanted.vendor_id && id.product_id == wanted.product_id,
            None => false,
        };
        if hit {
            proof {
                assert(first_match(attached@, wanted, i as int));
                let w = choose|w: int| first_match(attached@, wanted, w);
                lemma_first_match_unique(attached@, wanted, i as int, w);
            }
            return Ok(i);
        }
        i += 1;
    }
    Err(TransportError::DeviceNotFound)
}

/// Scans the tree in descriptor order for the first endpoint that can carry
/// the session.
pub fn find_endpoint(config: &ConfigInfo, input_len: usize) -> (r: Option<EndpointPath>)
    ensures
        match r {
            Some(p) => first_candidate(
                *config,
                input_len,
                p.interface as int,
                p.setting as int,
                p.endpoint as int,
            ),
            None => no_candidate(*config, input_len),
        },
{
    let mut i: usize = 0;
    while i < config.interfaces.len()
        invariant
            i <= config.interfaces@.len(),
            forall|a: int, b: int, d: int| #[trigger]
                candidate(*config, input_len, a, b, d) ==> a >= i,
        decreases config.interfaces@.len() - i,
    {
        let interface = &config.interfaces[i];
        let mut j: usize = 0;
        while j < interface.settings.len()
            invariant
                i < config.interfaces@.len(),
                *interface == config.interfaces@[i as int],
                j <= interface.settings@.len(),
                forall|a: int, b: int, d: int| #[trigger]
                    candidate(*config, input_len, a, b, d) ==> a > i || (a == i && b >= j),
            decreases interface.settings@.len() - j,
        {
            let setting = &interface.settings[j];
            if setting.class_code == HID_CLASS {
                let mut k: usize = 0;
                while k < setting.endpoints.len()
                    invariant
                        i < config.interfaces@.len(),
                        *interface == config.interfaces@[i as int],
                        j < interface.settings@.len(),
                        *setting == interface.settings@[j as int],
                        setting.class_code == HID_CLASS,
                        k <= setting.endpoints@.len(),
                        forall|a: int, b: int, d: int| #[trigger]
                            candidate(*config, input_len, a, b, d) ==> a > i || (a == i && (b > j
                                || (b == j && d >= k))),
                    decreases setting.endpoints@.len() - k,
                {
                    let endpoint = &setting.endpoints[k];
                    let inbound: bool = match endpoint.direction {
                        Direction::In => true,
                        Direction::Out => false,
                    };
                    if inbound && endpoint.max_packet_size as usize == input_len {
                        assert(candidate(*config, input_len, i as int, j as int, k as int));
                        return Some(EndpointPath { interface: i, setting: j, endpoint: k });
                    }
                    k += 1;
                }
            }
            j += 1;
        }
        i += 1;
    }
    None
}

/// Selects the interface and endpoint of a session: those of the first
/// candidate in descriptor order.
pub fn negotiate(config: &ConfigInfo, input_len: usize) -> (r: Result<
    InterfaceDescriptor,
    TransportError,
>)
    ensures
        match r {
            Ok(d) => negotiated(*config, input_len) == Some(d) && exists|i: int, j: int, k: int|
                first_candidate(*config, input_len, i, j, k) && d == descriptor_at(
                    *config,
                    i,
                    j,
                    k,
                ),
            Err(e) => e == TransportError::NoMatchingInterface && no_candidate(*config, input_len)
                && negotiated(*config, input_len) is None,
        },
        r matches Ok(d) ==> d.max_packet_size as int == input_len as int,
{
    match find_endpoint(config, input_len) {
        Some(p) => {
            let setting = &config.interfaces[p.interface].settings[p.setting];
            let endpoint = &setting.endpoints[p.endpoint];
            proof {
                let (i, j, k) = choose|i: int, j: int, k: int|
                    first_candidate(*config, input_len, i, j, k);
                lemma_first_candidate_unique(
                    *config,
                    input_len,
                    p.interface as int,
                    p.setting as int,
                    p.endpoint as int,
                    i,
                    j,
                    k,
                );
            }
            Ok(
                InterfaceDescriptor {
                    config: config.number,
                    interface_number: setting.interface_number,
                    alternate_setting: setting.setting_number,
                    endpoint_address: endpoint.address,
                    max_packet_size: endpoint.max_packet_size,
                },
            )
        },
        None => Err(TransportError::NoMatchingInterface),
    }
}

} // verus!
