use icmp_probe::addr::{u8_to_ipv4addr, Ipv4Address};

#[test]
fn four_bytes_give_an_address() {
    let addr = u8_to_ipv4addr(&[192, 168, 111, 1]);
    assert_eq!(addr, Some(Ipv4Address::new(192, 168, 111, 1)));
}

#[test]
fn other_lengths_give_nothing() {
    assert_eq!(u8_to_ipv4addr(&[]), None);
    assert_eq!(u8_to_ipv4addr(&[10, 0, 0]), None);
    assert_eq!(u8_to_ipv4addr(&[10, 0, 0, 1, 2]), None);
}

#[test]
fn address_holds_its_octets() {
    let a = Ipv4Address::new(10, 0, 0, 7);
    assert_eq!(a.o0, 10);
    assert_eq!(a.o1, 0);
    assert_eq!(a.o2, 0);
    assert_eq!(a.o3, 7);
}
