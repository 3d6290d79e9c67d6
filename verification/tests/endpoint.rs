use hdfs_registry::decimal::decimal_string;
use hdfs_registry::endpoint::{HostPort, NNScheme, LOCAL_FS_KEY, LOCAL_FS_SCHEME};

#[test]
fn decimal_of_single_digits() {
    assert_eq!(decimal_string(0), "0");
    assert_eq!(decimal_string(1), "1");
    assert_eq!(decimal_string(5), "5");
    assert_eq!(decimal_string(9), "9");
}

#[test]
fn decimal_at_powers_of_ten() {
    assert_eq!(decimal_string(10), "10");
    assert_eq!(decimal_string(99), "99");
    assert_eq!(decimal_string(100), "100");
    assert_eq!(decimal_string(1000), "1000");
    assert_eq!(decimal_string(10000), "10000");
}

#[test]
fn decimal_keeps_inner_zeros() {
    assert_eq!(decimal_string(101), "101");
    assert_eq!(decimal_string(9000), "9000");
    assert_eq!(decimal_string(50070), "50070");
}

#[test]
fn decimal_of_the_largest_port() {
    assert_eq!(decimal_string(65535), "65535");
    assert_eq!(decimal_string(u16::MAX), u16::MAX.to_string());
}

#[test]
fn decimal_agrees_with_std_on_every_port() {
    let mut n: u16 = 0;
    loop {
        assert_eq!(decimal_string(n), n.to_string());
        if n == u16::MAX {
            break;
        }
        n += 1;
    }
}

#[test]
fn local_constants() {
    assert_eq!(LOCAL_FS_SCHEME, "file");
    assert_eq!(LOCAL_FS_KEY, "file:///");
}

#[test]
fn key_of_the_local_filesystem() {
    assert_eq!(NNScheme::Local.to_string(), "file:///");
}

#[test]
fn key_of_a_remote_endpoint() {
    let endpoint = NNScheme::Remote(HostPort {
        host: String::from("hdfs://localhost"),
        port: 9000,
    });
    assert_eq!(endpoint.to_string(), "hdfs://localhost:9000");
}

#[test]
fn key_joins_host_and_port_with_a_colon() {
    let endpoint = NNScheme::Remote(HostPort {
        host: String::from("hdfs://[::1]"),
        port: 8020,
    });
    assert_eq!(endpoint.to_string(), "hdfs://[::1]:8020");
    let endpoint = NNScheme::Remote(HostPort {
        host: String::new(),
        port: 0,
    });
    assert_eq!(endpoint.to_string(), ":0");
}

#[test]
fn endpoints_with_equal_parts_have_equal_keys() {
    let a = NNScheme::Remote(HostPort {
        host: String::from("hdfs://nn1"),
        port: 8020,
    });
    let b = NNScheme::Remote(HostPort {
        host: String::from("hdfs://nn1"),
        port: 8020,
    });
    let c = NNScheme::Remote(HostPort {
        host: String::from("hdfs://nn1"),
        port: 8021,
    });
    assert_eq!(a.to_string(), b.to_string());
    assert_ne!(a.to_string(), c.to_string());
}

#[test]
fn keys_tell_endpoints_apart() {
    let a = NNScheme::Remote(HostPort {
        host: String::from("hdfs://a:1"),
        port: 2,
    });
    let b = NNScheme::Remote(HostPort {
        host: String::from("hdfs://a"),
        port: 12,
    });
    assert_eq!(a.to_string(), "hdfs://a:1:2");
    assert_eq!(b.to_string(), "hdfs://a:12");
    assert_ne!(a.to_string(), b.to_string());
    let c = NNScheme::Remote(HostPort {
        host: String::from("file"),
        port: 0,
    });
    assert_ne!(c.to_string(), NNScheme::Local.to_string());
}
