use ice::error::Error;
use ice::ip::IpAddr;
use ice::network_type::{
    determine_network_type, network_type_of_label, supported_network_types, NetworkType, QUIC,
    TCP, UDP,
};
use ice::text::{same_text, starts_with};

const ALL: [NetworkType; 7] = [
    NetworkType::Unspecified,
    NetworkType::Udp4,
    NetworkType::Udp6,
    NetworkType::Tcp4,
    NetworkType::Tcp6,
    NetworkType::Quic4,
    NetworkType::Quic6,
];

fn v4() -> IpAddr {
    IpAddr::V4([10, 0, 0, 1])
}

fn v6() -> IpAddr {
    IpAddr::V6([0, 0, 0, 0, 0, 0, 0, 0, 0, 0, 0, 0, 0, 0, 0, 1])
}

#[test]
fn test_text_of_each_variant() {
    assert_eq!(NetworkType::Unspecified.to_string(), "unspecified");
    assert_eq!(NetworkType::Udp4.to_string(), "udp4");
    assert_eq!(NetworkType::Udp6.to_string(), "udp6");
    assert_eq!(NetworkType::Tcp4.to_string(), "tcp4");
    assert_eq!(NetworkType::Tcp6.to_string(), "tcp6");
    assert_eq!(NetworkType::Quic4.to_string(), "quic4");
    assert_eq!(NetworkType::Quic6.to_string(), "quic6");
}

#[test]
fn test_text_round_trip() {
    for v in ALL {
        assert_eq!(NetworkType::from_text(&v.to_string()), Some(v));
    }
}

#[test]
fn test_from_text_rejects_unknown_tokens() {
    assert_eq!(NetworkType::from_text(""), None);
    assert_eq!(NetworkType::from_text("udp"), None);
    assert_eq!(NetworkType::from_text("UDP4"), None);
    assert_eq!(NetworkType::from_text("udp4 "), None);
    assert_eq!(NetworkType::from_text(" udp4"), None);
    assert_eq!(NetworkType::from_text("udp44"), None);
    assert_eq!(NetworkType::from_text("Unspecified"), None);
    assert_eq!(NetworkType::from_text("sctp4"), None);
}

#[test]
fn test_is_udp_tcp_quic() {
    for v in ALL {
        assert_eq!(v.is_udp(), v == NetworkType::Udp4 || v == NetworkType::Udp6);
        assert_eq!(v.is_tcp(), v == NetworkType::Tcp4 || v == NetworkType::Tcp6);
        assert_eq!(v.is_quic(), v == NetworkType::Quic4 || v == NetworkType::Quic6);
    }
    assert!(!NetworkType::Unspecified.is_udp());
    assert!(!NetworkType::Unspecified.is_tcp());
    assert!(!NetworkType::Unspecified.is_quic());
}

#[test]
fn test_is_reliable() {
    assert!(NetworkType::Tcp4.is_reliable());
    assert!(NetworkType::Tcp6.is_reliable());
    assert!(NetworkType::Quic4.is_reliable());
    assert!(NetworkType::Quic6.is_reliable());
    assert!(!NetworkType::Udp4.is_reliable());
    assert!(!NetworkType::Udp6.is_reliable());
    assert!(!NetworkType::Unspecified.is_reliable());
}

#[test]
fn test_ip_family_exclusive() {
    for v in ALL {
        assert!(!(v.is_ipv4() && v.is_ipv6()));
        if v != NetworkType::Unspecified {
            assert!(v.is_ipv4() || v.is_ipv6());
        }
    }
    assert!(!NetworkType::Unspecified.is_ipv4());
    assert!(!NetworkType::Unspecified.is_ipv6());
    assert!(NetworkType::Udp4.is_ipv4());
    assert!(NetworkType::Tcp4.is_ipv4());
    assert!(NetworkType::Quic4.is_ipv4());
    assert!(NetworkType::Udp6.is_ipv6());
    assert!(NetworkType::Tcp6.is_ipv6());
    assert!(NetworkType::Quic6.is_ipv6());
}

#[test]
fn test_from_integer_code() {
    assert_eq!(NetworkType::from(1u8), NetworkType::Udp4);
    assert_eq!(NetworkType::from(2u8), NetworkType::Udp6);
    assert_eq!(NetworkType::from(3u8), NetworkType::Tcp4);
    assert_eq!(NetworkType::from(4u8), NetworkType::Tcp6);
    assert_eq!(NetworkType::from(5u8), NetworkType::Quic4);
    assert_eq!(NetworkType::from(6u8), NetworkType::Quic6);
    assert_eq!(NetworkType::from(0u8), NetworkType::Unspecified);
    assert_eq!(NetworkType::from(7u8), NetworkType::Unspecified);
    assert_eq!(NetworkType::from(255u8), NetworkType::Unspecified);
    for code in 7u8..=255 {
        assert_eq!(NetworkType::from(code), NetworkType::Unspecified);
    }
}

#[test]
fn test_default_is_unspecified() {
    assert_eq!(NetworkType::default(), NetworkType::Unspecified);
}

#[test]
fn test_determine_network_type_is_case_insensitive() {
    assert_eq!(determine_network_type("UDP", &v4()), Ok(NetworkType::Udp4));
    assert_eq!(determine_network_type("udp", &v6()), Ok(NetworkType::Udp6));
    assert_eq!(determine_network_type("Tcp", &v6()), Ok(NetworkType::Tcp6));
    assert_eq!(determine_network_type("QuIc", &v4()), Ok(NetworkType::Quic4));
    assert_eq!(determine_network_type("QUIC", &v6()), Ok(NetworkType::Quic6));
}

#[test]
fn test_determine_network_type_matches_prefix_only() {
    assert_eq!(determine_network_type("tcp6ish", &v4()), Ok(NetworkType::Tcp4));
    assert_eq!(determine_network_type("udp/extra", &v4()), Ok(NetworkType::Udp4));
    assert_eq!(determine_network_type("udpfoo", &v6()), Ok(NetworkType::Udp6));
    assert_eq!(determine_network_type("udp4", &v6()), Ok(NetworkType::Udp6));
    assert_eq!(
        determine_network_type("udp something else", &v4()),
        Ok(NetworkType::Udp4)
    );
}

#[test]
fn test_determine_network_type_fails() {
    assert_eq!(
        determine_network_type("sctp", &v4()),
        Err(Error::ErrDetermineNetworkType)
    );
    assert_eq!(determine_network_type("", &v4()), Err(Error::ErrDetermineNetworkType));
    assert_eq!(determine_network_type("ud", &v6()), Err(Error::ErrDetermineNetworkType));
    assert_eq!(determine_network_type("qui", &v6()), Err(Error::ErrDetermineNetworkType));
}

#[test]
fn test_determine_network_type_does_not_trim() {
    assert_eq!(determine_network_type(" udp", &v4()), Err(Error::ErrDetermineNetworkType));
    assert_eq!(determine_network_type("\ttcp", &v4()), Err(Error::ErrDetermineNetworkType));
    assert_eq!(determine_network_type("udp ", &v4()), Ok(NetworkType::Udp4));
}

#[test]
fn test_network_type_of_label_takes_the_label_as_it_is() {
    assert_eq!(network_type_of_label("quic", &v4()), Ok(NetworkType::Quic4));
    assert_eq!(network_type_of_label("tcp", &v6()), Ok(NetworkType::Tcp6));
    assert_eq!(network_type_of_label("UDP", &v4()), Err(Error::ErrDetermineNetworkType));
}

#[test]
fn test_supported_network_types() {
    let supported = supported_network_types();
    assert_eq!(supported.len(), 4);
    assert_eq!(
        supported,
        vec![
            NetworkType::Udp4,
            NetworkType::Udp6,
            NetworkType::Quic4,
            NetworkType::Quic6
        ]
    );
    assert!(!supported.contains(&NetworkType::Tcp4));
    assert!(!supported.contains(&NetworkType::Tcp6));
}

#[test]
fn test_network_short() {
    assert_eq!(NetworkType::Unspecified.network_short(), "Unspecified");
    assert_eq!(NetworkType::Udp4.network_short(), "udp");
    assert_eq!(NetworkType::Udp6.network_short(), "udp");
    assert_eq!(NetworkType::Tcp4.network_short(), "tcp");
    assert_eq!(NetworkType::Tcp6.network_short(), "tcp");
    assert_eq!(NetworkType::Quic4.network_short(), "quic");
    assert_eq!(NetworkType::Quic6.network_short(), "quic");
    assert_eq!(UDP, "udp");
    assert_eq!(TCP, "tcp");
    assert_eq!(QUIC, "quic");
}

#[test]
fn test_classified_tag_carries_label_and_family() {
    for label in ["udp", "tcp", "quic"] {
        for ip in [v4(), v6()] {
            let t = determine_network_type(label, &ip).unwrap();
            assert_ne!(t, NetworkType::Unspecified);
            assert_eq!(t.network_short(), label);
            assert_eq!(t.is_ipv4(), ip.is_ipv4());
            assert_eq!(t.is_ipv6(), ip.is_ipv6());
        }
    }
}

#[test]
fn test_ip_addr_family() {
    assert!(v4().is_ipv4());
    assert!(!v4().is_ipv6());
    assert!(v6().is_ipv6());
    assert!(!v6().is_ipv4());
}

#[test]
fn test_starts_with() {
    assert!(starts_with("udp4", "udp"));
    assert!(starts_with("udp", "udp"));
    assert!(starts_with("udp", ""));
    assert!(starts_with("", ""));
    assert!(!starts_with("ud", "udp"));
    assert!(!starts_with("", "udp"));
    assert!(!starts_with("tdp", "udp"));
    assert!(!starts_with("udq", "udp"));
    assert!(starts_with("né-à", "né"));
    assert!(!starts_with("ne-a", "né"));
}

#[test]
fn test_same_text() {
    assert!(same_text("", ""));
    assert!(same_text("quic6", "quic6"));
    assert!(!same_text("quic6", "quic4"));
    assert!(!same_text("quic", "quic6"));
    assert!(!same_text("quic6", "quic"));
}
