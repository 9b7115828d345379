use lazy_dns::address::IpAddress;
use lazy_dns::address::SocketAddress;
use lazy_dns::address::SocketAddrs;
use lazy_dns::address::UNSPECIFIED_PORT;

fn v4(a: u8, b: u8, c: u8, d: u8) -> IpAddress {
    IpAddress::V4([a, b, c, d])
}

#[test]
fn unspecified_port_is_zero() {
    assert_eq!(UNSPECIFIED_PORT, 0);
}

#[test]
fn addresses_come_in_order_with_port_zero_and_then_no_more() {
    let mut addrs = SocketAddrs::new(vec![v4(10, 0, 0, 1), v4(10, 0, 0, 2)]);
    assert_eq!(addrs.remaining(), 2);
    assert_eq!(addrs.next(), Some(SocketAddress { ip: v4(10, 0, 0, 1), port: 0 }));
    assert_eq!(addrs.remaining(), 1);
    assert_eq!(addrs.next(), Some(SocketAddress { ip: v4(10, 0, 0, 2), port: 0 }));
    assert_eq!(addrs.remaining(), 0);
    assert_eq!(addrs.next(), None);
    assert_eq!(addrs.next(), None);
    assert_eq!(addrs.remaining(), 0);
}

#[test]
fn empty_lookup_gives_exhausted_sequence() {
    let mut addrs = SocketAddrs::new(Vec::new());
    assert_eq!(addrs.remaining(), 0);
    assert_eq!(addrs.next(), None);
    assert_eq!(addrs.next(), None);
}

#[test]
fn equal_addresses_are_all_handed_out() {
    let mut addrs = SocketAddrs::new(vec![v4(192, 0, 2, 7), v4(192, 0, 2, 7)]);
    assert_eq!(addrs.next(), Some(SocketAddress { ip: v4(192, 0, 2, 7), port: 0 }));
    assert_eq!(addrs.next(), Some(SocketAddress { ip: v4(192, 0, 2, 7), port: 0 }));
    assert_eq!(addrs.next(), None);
}

#[test]
fn both_address_families_keep_their_order() {
    let loopback6 = IpAddress::V6([0, 0, 0, 0, 0, 0, 0, 0, 0, 0, 0, 0, 0, 0, 0, 1]);
    let documentation6 =
        IpAddress::V6([0x20, 0x01, 0x0d, 0xb8, 0, 0, 0, 0, 0, 0, 0, 0, 0, 0, 0, 0x2a]);
    let mut addrs = SocketAddrs::new(vec![documentation6, v4(127, 0, 0, 1), loopback6]);
    assert_eq!(addrs.next(), Some(SocketAddress { ip: documentation6, port: 0 }));
    assert_eq!(addrs.next(), Some(SocketAddress { ip: v4(127, 0, 0, 1), port: 0 }));
    assert_eq!(addrs.next(), Some(SocketAddress { ip: loopback6, port: 0 }));
    assert_eq!(addrs.next(), None);
}

#[test]
fn successful_lookup_becomes_its_address_sequence() {
    let outcome: Result<Vec<IpAddress>, String> = Ok(vec![v4(10, 0, 0, 1), v4(10, 0, 0, 2)]);
    let mut addrs = match SocketAddrs::from_lookup(outcome) {
        Ok(addrs) => addrs,
        Err(error) => panic!("a successful lookup gave the error {}", error),
    };
    assert_eq!(addrs.next(), Some(SocketAddress { ip: v4(10, 0, 0, 1), port: 0 }));
    assert_eq!(addrs.next(), Some(SocketAddress { ip: v4(10, 0, 0, 2), port: 0 }));
    assert_eq!(addrs.next(), None);
}

#[test]
fn failed_lookup_gives_its_error_unchanged_and_no_addresses() {
    let outcome: Result<Vec<IpAddress>, String> = Err(String::from("no such domain"));
    match SocketAddrs::from_lookup(outcome) {
        Ok(_) => panic!("a failed lookup gave addresses"),
        Err(error) => assert_eq!(error, "no such domain"),
    }
}
