use afpacket::ifname::{ifname_buffer, resolve_index, IFNAMSIZ};
use afpacket::PacketError;

#[test]
fn short_name_is_zero_padded() {
    let buf = ifname_buffer(b"eth0").unwrap();
    assert_eq!(buf.len(), IFNAMSIZ);
    assert_eq!(&buf[..4], b"eth0");
    for &b in &buf[4..] {
        assert_eq!(b, 0);
    }
}

#[test]
fn empty_name_gives_all_zero_buffer() {
    let buf = ifname_buffer(b"").unwrap();
    assert_eq!(buf, vec![0u8; IFNAMSIZ]);
}

#[test]
fn name_at_capacity_is_accepted_unpadded() {
    let name = b"0123456789abcdef";
    assert_eq!(name.len(), IFNAMSIZ);
    let buf = ifname_buffer(name).unwrap();
    assert_eq!(&buf[..], &name[..]);
}

#[test]
fn overlong_name_fails_locally() {
    let name = b"0123456789abcdefg";
    assert!(name.len() > IFNAMSIZ);
    assert_eq!(ifname_buffer(name), Err(PacketError::InvalidInput));
}

#[test]
fn zero_index_surfaces_os_error() {
    assert_eq!(resolve_index(0, 19), Err(PacketError::Os(19)));
}

#[test]
fn nonzero_index_is_returned() {
    assert_eq!(resolve_index(4, 0), Ok(4));
    assert_eq!(resolve_index(1, 99), Ok(1));
}
