use picousb::endpoint::{
    get_endpoint, resolve_endpoints, AltSettingInfo, EndpointDirection, EndpointError,
    EndpointInfo, Endpoints, TransferKind,
};

fn ep(address: u8, direction: EndpointDirection, transfer_kind: TransferKind) -> EndpointInfo {
    EndpointInfo { address, direction, transfer_kind }
}

fn alt(config: u8, interface: u8, setting: u8, class: u8, endpoints: Vec<EndpointInfo>) -> AltSettingInfo {
    AltSettingInfo { config, interface, setting, class, subclass: 0, protocol: 0, endpoints }
}

fn rp2040_like() -> Vec<AltSettingInfo> {
    vec![
        alt(1, 0, 0, 0x08, vec![
            ep(0x81, EndpointDirection::In, TransferKind::Bulk),
            ep(0x02, EndpointDirection::Out, TransferKind::Bulk),
        ]),
        alt(1, 1, 0, 0xFF, vec![
            ep(0x03, EndpointDirection::Out, TransferKind::Bulk),
            ep(0x84, EndpointDirection::In, TransferKind::Bulk),
        ]),
    ]
}

#[test]
fn resolves_vendor_interface_pair() {
    assert_eq!(
        resolve_endpoints(&rp2040_like()),
        Ok(Endpoints { cfg: 1, iface: 1, setting: 0, in_addr: 0x84, out_addr: 0x03 })
    );
}

#[test]
fn first_match_wins() {
    let alts = vec![
        alt(1, 2, 0, 0xFF, vec![
            ep(0x85, EndpointDirection::In, TransferKind::Interrupt),
            ep(0x86, EndpointDirection::In, TransferKind::Bulk),
            ep(0x87, EndpointDirection::In, TransferKind::Bulk),
        ]),
        alt(1, 3, 0, 0xFF, vec![ep(0x88, EndpointDirection::In, TransferKind::Bulk)]),
    ];
    assert_eq!(
        get_endpoint(&alts, 0xFF, 0, 0, EndpointDirection::In, TransferKind::Bulk),
        Some((1, 2, 0, 0x86))
    );
    assert_eq!(get_endpoint(&alts, 0xFF, 0, 0, EndpointDirection::Out, TransferKind::Bulk), None);
}

#[test]
fn missing_endpoints_are_reported() {
    let only_out = vec![alt(1, 0, 0, 0xFF, vec![ep(0x01, EndpointDirection::Out, TransferKind::Bulk)])];
    assert_eq!(resolve_endpoints(&only_out), Err(EndpointError::NoInEndpoint));
    let only_in = vec![alt(1, 0, 0, 0xFF, vec![ep(0x81, EndpointDirection::In, TransferKind::Bulk)])];
    assert_eq!(resolve_endpoints(&only_in), Err(EndpointError::NoOutEndpoint));
    assert_eq!(resolve_endpoints(&vec![]), Err(EndpointError::NoInEndpoint));
}

#[test]
fn split_interfaces_are_refused() {
    let alts = vec![
        alt(1, 0, 0, 0xFF, vec![ep(0x81, EndpointDirection::In, TransferKind::Bulk)]),
        alt(1, 0, 1, 0xFF, vec![ep(0x01, EndpointDirection::Out, TransferKind::Bulk)]),
    ];
    assert_eq!(resolve_endpoints(&alts), Err(EndpointError::Mismatch));
}
