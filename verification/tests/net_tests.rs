use rko_core::net::{
    accept_flags, check_err, write_all_step, Ipv4Addr, Ipv6Addr, ListenerSetup, SetupAction,
    SockaddrStorage, SocketAddr, AF_INET, AF_INET6, O_NONBLOCK,
};

#[test]
fn ipv4_to_bits_is_network_order() {
    assert_eq!(Ipv4Addr::new(192, 168, 1, 2).to_bits(), 0xc0a8_0102);
    assert_eq!(Ipv4Addr::localhost().to_bits(), 0x7f00_0001);
    assert_eq!(Ipv4Addr::any().to_bits(), 0);
}

#[test]
fn ipv6_constants() {
    assert_eq!(Ipv6Addr::any().0, [0u8; 16]);
    let mut lo = [0u8; 16];
    lo[15] = 1;
    assert_eq!(Ipv6Addr::localhost().0, lo);
    assert_eq!(Ipv6Addr::new(lo), Ipv6Addr::localhost());
}

#[test]
fn family_and_port() {
    let a = SocketAddr::new_v4(Ipv4Addr::localhost(), 8080);
    assert_eq!(a.family(), AF_INET);
    assert_eq!(a.port(), 8080);
    let b = SocketAddr::new_v6(Ipv6Addr::localhost(), 443);
    assert_eq!(b.family(), AF_INET6);
    assert_eq!(b.port(), 443);
}

#[test]
fn to_raw_v4_layout() {
    let a = SocketAddr::new_v4(Ipv4Addr::new(10, 0, 0, 1), 0x1f90);
    let (raw, len) = a.to_raw();
    assert_eq!(len, 16);
    match raw {
        SockaddrStorage::V4(sa) => {
            assert_eq!(sa.sin_family, 2);
            assert_eq!(sa.sin_port, [0x1f, 0x90]);
            assert_eq!(sa.sin_addr, [10, 0, 0, 1]);
            assert_eq!(sa.sin_zero, [0u8; 8]);
        }
        SockaddrStorage::V6(_) => panic!("wrong family"),
    }
}

#[test]
fn to_raw_v6_layout() {
    let a = SocketAddr::new_v6(Ipv6Addr::localhost(), 443);
    let (raw, len) = a.to_raw();
    assert_eq!(len, 28);
    match raw {
        SockaddrStorage::V6(sa) => {
            assert_eq!(sa.sin6_family, 10);
            assert_eq!(sa.sin6_port, [0x01, 0xbb]);
            assert_eq!(sa.sin6_flowinfo, [0, 0, 0, 0]);
            assert_eq!(sa.sin6_addr, Ipv6Addr::localhost().0);
            assert_eq!(sa.sin6_scope_id, 0);
        }
        SockaddrStorage::V4(_) => panic!("wrong family"),
    }
}

#[test]
fn check_err_splits_on_sign() {
    assert_eq!(check_err(5), Ok(5));
    assert_eq!(check_err(0), Ok(0));
    assert_eq!(check_err(-11).unwrap_err().to_errno(), -11);
}

#[test]
fn accept_flags_block_or_not() {
    assert_eq!(accept_flags(true), 0);
    assert_eq!(accept_flags(false), O_NONBLOCK);
}

#[test]
fn write_all_steps() {
    assert_eq!(write_all_step(0, 10, 4), Ok(4));
    assert_eq!(write_all_step(4, 10, 6), Ok(10));
    assert_eq!(write_all_step(4, 10, 0).unwrap_err().to_errno(), -104);
}

#[test]
fn listener_setup_succeeds_after_three_calls() {
    let mut s = ListenerSetup::new();
    assert!(matches!(s.step(3), SetupAction::Bind));
    assert_eq!(s, ListenerSetup::Binding);
    assert!(matches!(s.step(0), SetupAction::Listen));
    assert_eq!(s, ListenerSetup::Listening);
    assert!(matches!(s.step(0), SetupAction::Done));
    assert_eq!(s, ListenerSetup::Ready);
}

#[test]
fn listener_setup_releases_only_a_created_socket() {
    let mut s = ListenerSetup::new();
    match s.step(-97) {
        SetupAction::Fail(e) => assert_eq!(e.to_errno(), -97),
        _ => panic!("expected a plain failure"),
    }
    assert_eq!(s, ListenerSetup::Failed);
    let mut s = ListenerSetup::new();
    s.step(0);
    match s.step(-98) {
        SetupAction::ReleaseAndFail(e) => assert_eq!(e.to_errno(), -98),
        _ => panic!("expected release"),
    }
    assert_eq!(s, ListenerSetup::Failed);
    let mut s = ListenerSetup::new();
    s.step(0);
    s.step(0);
    match s.step(-22) {
        SetupAction::ReleaseAndFail(e) => assert_eq!(e.to_errno(), -22),
        _ => panic!("expected release"),
    }
}
