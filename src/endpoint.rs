//! Finding the bulk endpoint pair of the vendor interface in the device's
//! descriptors.
use vstd::prelude::*;

verus! {

/// Interface class, subclass and protocol of the bootloader's vendor
/// interface.
pub const PICOBOOT_CLASS: u8 = 0xFF;
pub const PICOBOOT_SUBCLASS: u8 = 0;
pub const PICOBOOT_PROTOCOL: u8 = 0;

#[derive(Debug, Clone, Copy, PartialEq, Eq, Structural)]
pub enum EndpointDirection {
    In,
    Out,
}

#[derive(Debug, Clone, Copy, PartialEq, Eq, Structural)]
pub enum TransferKind {
    Control,
    Isochronous,
    Bulk,
    Interrupt,
}

#[derive(Debug, Clone, Copy, PartialEq, Eq, Structural)]
pub struct EndpointInfo {
    pub address: u8,
    pub direction: EndpointDirection,
    pub transfer_kind: TransferKind,
}

/// One alternate setting of one interface of one configuration, with its
/// endpoints, in descriptor order.
#[derive(Debug)]
pub struct AltSettingInfo {
    pub config: u8,
    pub interface: u8,
    pub setting: u8,
    pub class: u8,
    pub subclass: u8,
    pub protocol: u8,
    pub endpoints: Vec<EndpointInfo>,
}

/// Endpoint `j` of `a` matches: `a` has the class triple, and the endpoint
/// has the direction and the transfer kind.
pub open spec fn endpoint_matches(
    a: AltSettingInfo,
    j: int,
    class: u8,
    subclass: u8,
    protocol: u8,
    direction: EndpointDirection,
    kind: TransferKind,
) -> bool {
    &&& a.class == class && a.subclass == subclass && a.protocol == protocol
    &&& 0 <= j < a.endpoints@.len()
    &&& a.endpoints@[j].direction == direction
    &&& a.endpoints@[j].transfer_kind == kind
}

/// No endpoint of the settings `alts[0..n]` matches.
pub open spec fn none_before(
    alts: Seq<AltSettingInfo>,
    n: int,
    class: u8,
    subclass: u8,
    protocol: u8,
    direction: EndpointDirection,
    kind: TransferKind,
) -> bool {
    forall|i: int, j: int|
        0 <= i < n && 0 <= i < alts.len() ==> !#[trigger] endpoint_matches(
            alts[i],
            j,
            class,
            subclass,
            protocol,
            direction,
            kind,
        )
}

/// What the resolver reports for endpoint `j` of setting `i`:
/// configuration, interface, alternate setting and endpoint address.
pub open spec fn located(alts: Seq<AltSettingInfo>, i: int, j: int) -> (u8, u8, u8, u8) {
    (alts[i].config, alts[i].interface, alts[i].setting, alts[i].endpoints@[j].address)
}

/// Endpoint `j` of setting `i` is the first match in scan order.
pub open spec fn is_first_match(
    alts: Seq<AltSettingInfo>,
    i: int,
    j: int,
    class: u8,
    subclass: u8,
    protocol: u8,
    direction: EndpointDirection,
    kind: TransferKind,
) -> bool {
    &&& 0 <= i < alts.len()
    &&& endpoint_matches(alts[i], j, class, subclass, protocol, direction, kind)
    &&& none_before(alts, i, class, subclass, protocol, direction, kind)
    &&& forall|k: int|
        0 <= k < j ==> !#[trigger] endpoint_matches(alts[i], k, class, subclass, protocol, direction, kind)
}

/// What the scan finds: the location of the first match, if there is one.
pub open spec fn first_endpoint(
    alts: Seq<AltSettingInfo>,
    class: u8,
    subclass: u8,
    protocol: u8,
    direction: EndpointDirection,
    kind: TransferKind,
) -> Option<(u8, u8, u8, u8)> {
    if exists|i: int, j: int| is_first_match(alts, i, j, class, subclass, protocol, direction, kind) {
        let (i, j) = choose|i: int, j: int|
            is_first_match(alts, i, j, class, subclass, protocol, direction, kind);
        Some(located(alts, i, j))
    } else {
        None
    }
}

proof fn lemma_first_match_unique(
    alts: Seq<AltSettingInfo>,
    i: int,
    j: int,
    i2: int,
    j2: int,
    class: u8,
    subclass: u8,
    protocol: u8,
    direction: EndpointDirection,
    kind: TransferKind,
)
    requires
        is_first_match(alts, i, j, class, subclass, protocol, direction, kind),
        is_first_match(alts, i2, j2, class, subclass, protocol, direction, kind),
    ensures
        i == i2 && j == j2,
{
    if i < i2 {
        assert(!endpoint_matches(alts[i], j, class, subclass, protocol, direction, kind));
    } else if i2 < i {
        assert(!endpoint_matches(alts[i2], j2, class, subclass, protocol, direction, kind));
    } else if j < j2 {
        assert(!endpoint_matches(alts[i], j, class, subclass, protocol, direction, kind));
    } else if j2 < j {
        assert(!endpoint_matches(alts[i], j2, class, subclass, protocol, direction, kind));
    }
}

/// The first matching endpoint, scanning the settings in order and the
/// endpoints of each in order.
pub fn get_endpoint(
    alts: &Vec<AltSettingInfo>,
    class: u8,
    subclass: u8,
    protocol: u8,
    direction: EndpointDirection,
    kind: TransferKind,
) -> (r: Option<(u8, u8, u8, u8)>)
    ensures
        r is None <==> none_before(alts@, alts@.len() as int, class, subclass, protocol, direction, kind),
        r == first_endpoint(alts@, class, subclass, protocol, direction, kind),
{
    let mut i: usize = 0;
    while i < alts.len()
        invariant
            i <= alts@.len(),
            none_before(alts@, i as int, class, subclass, protocol, direction, kind),
        decreases alts@.len() - i,
    {
        let a = &alts[i];
        if a.class == class && a.subclass == subclass && a.protocol == protocol {
            let mut j: usize = 0;
            while j < a.endpoints.len()
                invariant
                    i < alts@.len(),
                    *a == alts@[i as int],
                    none_before(alts@, i as int, class, subclass, protocol, direction, kind),
                    a.class == class && a.subclass == subclass && a.protocol == protocol,
                    j <= a.endpoints@.len(),
                    forall|k: int| 0 <= k < j ==> !endpoint_matches(*a, k, class, subclass, protocol, direction, kind),
                decreases a.endpoints@.len() - j,
            {
                let e = a.endpoints[j];
                if e.direction == direction && e.transfer_kind == kind {
                    assert(endpoint_matches(alts@[i as int], j as int, class, subclass, protocol, direction, kind));
                    assert(!none_before(alts@, alts@.len() as int, class, subclass, protocol, direction, kind));
                    let r = (a.config, a.interface, a.setting, e.address);
                    assert(r == located(alts@, i as int, j as int));
                    proof {
                        assert(is_first_match(alts@, i as int, j as int, class, subclass, protocol, direction, kind));
                        let (i2, j2) = choose|i2: int, j2: int|
                            is_first_match(alts@, i2, j2, class, subclass, protocol, direction, kind);
                        lemma_first_match_unique(alts@, i as int, j as int, i2, j2, class, subclass, protocol, direction, kind);
                    }
                    return Some(r);
                }
                j = j + 1;
            }
        }
        assert forall|ii: int, jj: int|
            0 <= ii < i + 1 && 0 <= ii < alts@.len() implies !#[trigger] endpoint_matches(
                alts@[ii],
                jj,
                class,
                subclass,
                protocol,
                direction,
                kind,
            ) by {
            if ii < i {
            }
        }
        i = i + 1;
    }
    proof {
        if exists|i: int, j: int| is_first_match(alts@, i, j, class, subclass, protocol, direction, kind) {
            let (i2, j2) = choose|i2: int, j2: int|
                is_first_match(alts@, i2, j2, class, subclass, protocol, direction, kind);
            assert(!endpoint_matches(alts@[i2], j2, class, subclass, protocol, direction, kind));
        }
    }
    None
}

/// The endpoint pair of the vendor interface: a bulk-in and a bulk-out
/// endpoint on one configuration, interface and alternate setting.
#[derive(Debug, Clone, Copy, PartialEq, Eq, Structural)]
pub struct Endpoints {
    pub cfg: u8,
    pub iface: u8,
    pub setting: u8,
    pub in_addr: u8,
    pub out_addr: u8,
}

#[derive(Debug, Clone, Copy, PartialEq, Eq, Structural)]
pub enum EndpointError {
    /// No bulk-in endpoint on a vendor interface.
    NoInEndpoint,
    /// No bulk-out endpoint on a vendor interface.
    NoOutEndpoint,
    /// The two endpoints lie on different configurations, interfaces or
    /// alternate settings.
    Mismatch,
}

/// What the resolver owes for a set of descriptors.
pub open spec fn resolved(alts: Seq<AltSettingInfo>) -> Result<Endpoints, EndpointError> {
    let ep_in = first_endpoint(
        alts,
        PICOBOOT_CLASS,
        PICOBOOT_SUBCLASS,
        PICOBOOT_PROTOCOL,
        EndpointDirection::In,
        TransferKind::Bulk,
    );
    let ep_out = first_endpoint(
        alts,
        PICOBOOT_CLASS,
        PICOBOOT_SUBCLASS,
        PICOBOOT_PROTOCOL,
        EndpointDirection::Out,
        TransferKind::Bulk,
    );
    match (ep_in, ep_out) {
        (None, _) => Err(EndpointError::NoInEndpoint),
        (_, None) => Err(EndpointError::NoOutEndpoint),
        (Some(a), Some(b)) => if a.0 == b.0 && a.1 == b.1 && a.2 == b.2 {
            Ok(Endpoints { cfg: b.0, iface: b.1, setting: b.2, in_addr: a.3, out_addr: b.3 })
        } else {
            Err(EndpointError::Mismatch)
        },
    }
}

/// Resolves the bulk endpoint pair of the vendor interface.
pub fn resolve_endpoints(alts: &Vec<AltSettingInfo>) -> (r: Result<Endpoints, EndpointError>)
    ensures
        r == resolved(alts@),
{
    let ep_in = get_endpoint(
        alts,
        PICOBOOT_CLASS,
        PICOBOOT_SUBCLASS,
        PICOBOOT_PROTOCOL,
        EndpointDirection::In,
        TransferKind::Bulk,
    );
    let ep_out = get_endpoint(
        alts,
        PICOBOOT_CLASS,
        PICOBOOT_SUBCLASS,
        PICOBOOT_PROTOCOL,
        EndpointDirection::Out,
        TransferKind::Bulk,
    );
    match (ep_in, ep_out) {
        (None, _) => Err(EndpointError::NoInEndpoint),
        (_, None) => Err(EndpointError::NoOutEndpoint),
        (Some(a), Some(b)) => if a.0 == b.0 && a.1 == b.1 && a.2 == b.2 {
            Ok(Endpoints { cfg: b.0, iface: b.1, setting: b.2, in_addr: a.3, out_addr: b.3 })
        } else {
            Err(EndpointError::Mismatch)
        },
    }
}

} // verus!
