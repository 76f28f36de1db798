use std::collections::hash_map::DefaultHasher;
use std::hash::{Hash, Hasher};
use wsdf::address::Address;
use wsdf::packet::PacketInfo;
use wsdf::tvb::Tvb;
use wsdf::types::{AddressError, Column};

fn hash_of(a: &Address) -> u64 {
    let mut h = DefaultHasher::new();
    a.hash(&mut h);
    h.finish()
}

#[test]
fn address_equality_follows_type_length_and_bytes() {
    let a = Address::new(2, 4, Some(vec![10, 0, 0, 1]));
    let b = Address::new(2, 4, Some(vec![10, 0, 0, 1]));
    let c = Address::new(2, 4, Some(vec![10, 0, 0, 2]));
    let d = Address::new(3, 4, Some(vec![10, 0, 0, 1]));
    assert!(a == b);
    assert_eq!(hash_of(&a), hash_of(&b));
    assert!(a != c);
    assert!(a != d);
    // Empty addresses of one type are equal whatever they held.
    assert!(Address::new(1, 0, Some(vec![])) == Address::new(1, 0, None));
    assert_eq!(hash_of(&Address::new(1, 0, Some(vec![]))), hash_of(&Address::new(1, 0, None)));
    // Addresses without bytes are equal to each other, not to ones with bytes.
    assert!(Address::new(1, 2, None) == Address::new(1, 2, None));
    assert!(Address::new(1, 2, None) != Address::new(1, 2, Some(vec![0, 0])));
    assert!(a.clone() == a);
}

#[test]
fn address_bytes() {
    assert_eq!(Address::new(2, 4, Some(vec![192, 168, 0, 1])).to_bytes().unwrap(), vec![192, 168, 0, 1]);
    assert!(Address::new(2, 0, None).to_bytes().unwrap().is_empty());
    assert!(matches!(Address::new(2, -1, None).to_bytes(), Err(AddressError::InvalidLength(_))));
    assert!(matches!(Address::new(2, 6, None).to_bytes(), Err(AddressError::CopyFailed)));
}

#[test]
fn packet_info_columns_and_flags() {
    let src = Address::new(2, 4, Some(vec![10, 0, 0, 1]));
    let dst = Address::new(2, 4, Some(vec![10, 0, 0, 2]));
    let mac = Address::new(1, 6, Some(vec![0, 1, 2, 3, 4, 5]));
    let mut p = PacketInfo::new(mac.clone(), mac.clone(), src.clone(), dst.clone(), Some(false));
    assert!(p.src() == src);
    assert!(p.dst() == dst);
    assert!(p.dl_src() == mac);
    assert!(p.dl_dst() == mac);
    assert_eq!(p.column(Column::Info), "");
    p.set_column_text(Column::Info, "Request");
    p.set_column_text(Column::Protocol, "WSDF");
    assert_eq!(p.column(Column::Info), "Request");
    p.set_column_text(Column::Info, "Reply");
    assert_eq!(p.column(Column::Info), "Reply");
    p.clear_column(Column::Info);
    assert_eq!(p.column(Column::Info), "");
    assert_eq!(p.column(Column::Protocol), "WSDF");
    assert!(!p.fragmented());
    p.set_fragmented(true);
    assert!(p.fragmented());
    assert!(!p.fd_visited());
    p.set_fd_visited(true);
    assert!(p.fd_visited());
    assert_eq!(p.alloc_string("abc"), vec![b'a', b'b', b'c', 0]);
    assert_eq!(p.alloc_bytes(&[1, 2]), vec![1, 2]);
    let tvb = Tvb::new(vec![1, 2], 2);
    p.add_data_source(&tvb, "Extra");
    assert_eq!(p.data_sources().len(), 1);
    assert_eq!(p.data_sources()[0].name, "Extra");
}
