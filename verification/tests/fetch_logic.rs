use ddrs::fetch::{
    collect_update, select_fetch_result, select_interface_ip, HttpAttempt, HttpFetchError,
    IpSourceInterface, NetInterface,
};
use ddrs::{IpAddress, IpUpdate, IpVersion};

#[test]
fn collect_fills_each_family_from_its_version() {
    let versions = vec![IpVersion::V4, IpVersion::V6];
    let results = vec![Some(IpAddress::V4(10)), Some(IpAddress::V6(20))];
    let u = collect_update(&versions, &results);
    assert_eq!(u, IpUpdate { v4: Some(10), v6: Some(20) });
}

#[test]
fn collect_skips_failures_and_wrong_families() {
    let versions = vec![IpVersion::V4, IpVersion::V6];
    let results = vec![None, Some(IpAddress::V4(10))];
    let u = collect_update(&versions, &results);
    assert_eq!(u, IpUpdate { v4: None, v6: None });
}

#[test]
fn collect_lets_a_later_result_win() {
    let versions = vec![IpVersion::V4, IpVersion::V4];
    let results = vec![Some(IpAddress::V4(1)), Some(IpAddress::V4(2))];
    let u = collect_update(&versions, &results);
    assert_eq!(u, IpUpdate { v4: Some(2), v6: None });
}

#[test]
fn first_parsed_attempt_wins() {
    let attempts = vec![
        HttpAttempt::ParseFailed,
        HttpAttempt::Parsed(IpAddress::V4(5)),
        HttpAttempt::Parsed(IpAddress::V4(6)),
    ];
    assert_eq!(select_fetch_result(&attempts), Ok(IpAddress::V4(5)));
}

#[test]
fn transport_failures_dominate_unparsed_bodies() {
    let attempts = vec![HttpAttempt::ParseFailed, HttpAttempt::SendFailed];
    assert_eq!(select_fetch_result(&attempts), Err(HttpFetchError::Transport));
    let attempts = vec![HttpAttempt::BodyFailed];
    assert_eq!(select_fetch_result(&attempts), Err(HttpFetchError::Transport));
}

#[test]
fn all_unparsed_bodies_report_no_address() {
    let attempts = vec![HttpAttempt::ParseFailed, HttpAttempt::ParseFailed];
    assert_eq!(select_fetch_result(&attempts), Err(HttpFetchError::NoAddress));
    let none: Vec<HttpAttempt> = vec![];
    assert_eq!(select_fetch_result(&none), Err(HttpFetchError::NoAddress));
}

#[test]
fn interface_lookup_matches_name_and_family() {
    let interfaces = vec![
        NetInterface { name: "lo".to_string(), addr: IpAddress::V4(0x7F00_0001) },
        NetInterface { name: "eth0".to_string(), addr: IpAddress::V6(99) },
        NetInterface { name: "eth0".to_string(), addr: IpAddress::V4(42) },
        NetInterface { name: "eth0".to_string(), addr: IpAddress::V4(43) },
    ];
    let wanted = IpSourceInterface { name: "eth0".to_string() };
    let v4 = select_interface_ip(&interfaces, &wanted, &IpVersion::V4);
    assert_eq!(v4, Some(IpAddress::V4(42)));
    let v6 = select_interface_ip(&interfaces, &wanted, &IpVersion::V6);
    assert_eq!(v6, Some(IpAddress::V6(99)));
}

#[test]
fn missing_interface_yields_nothing() {
    let interfaces = vec![NetInterface { name: "lo".to_string(), addr: IpAddress::V4(1) }];
    let wanted = IpSourceInterface { name: "wlan0".to_string() };
    assert_eq!(select_interface_ip(&interfaces, &wanted, &IpVersion::V4), None);
}

#[test]
fn update_iter_lists_present_addresses_v4_first() {
    let u = IpUpdate { v4: Some(1), v6: Some(2) };
    let entries = u.iter();
    assert_eq!(
        entries,
        vec![(IpVersion::V4, IpAddress::V4(1)), (IpVersion::V6, IpAddress::V6(2))]
    );
    let only6 = IpUpdate { v4: None, v6: Some(2) };
    assert_eq!(only6.iter(), vec![(IpVersion::V6, IpAddress::V6(2))]);
    assert!(IpUpdate { v4: None, v6: None }.iter().is_empty());
    assert!(IpUpdate { v4: None, v6: None }.is_empty());
}

#[test]
fn ipv4_text_is_dotted_decimal() {
    assert_eq!(ddrs::record::format_ipv4(0xCB00_7109), "203.0.113.9");
    assert_eq!(ddrs::record::format_ipv4(0), "0.0.0.0");
    assert_eq!(ddrs::record::format_ipv4(u32::MAX), "255.255.255.255");
    assert_eq!(ddrs::record::format_ipv4(0x0102_0304), "1.2.3.4");
    assert_eq!(ddrs::record::format_ipv4(0xC0A8_0101), "192.168.1.1");
}
