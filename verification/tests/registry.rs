use hdfs_registry::dfs::{HdfsBuilder, HdfsFs};
use hdfs_registry::endpoint::{HostPort, NNScheme};
use hdfs_registry::err::HdfsErr;
use hdfs_registry::table::{ConnectionTable, SharedTable};
use hdfs_registry::HdfsRegistry;

fn shareable<T: Send + Sync>() -> bool {
    true
}

#[test]
fn test_hdfs_connection() -> Result<(), HdfsErr> {
    let port = 9000;

    let dfs_addr = format!("hdfs://localhost:{}", port);
    let fs_registry = HdfsRegistry::new();

    let test_path = format!("hdfs://localhost:{}/users/test", port);

    assert_eq!(dfs_addr, fs_registry.get(&test_path, |_b: HdfsBuilder| 7)?.url);

    let fs = fs_registry.get(&test_path, |_b: HdfsBuilder| 8)?;
    assert_eq!(dfs_addr, fs.url);
    assert_eq!(fs.raw, 7);
    Ok(())
}

#[test]
fn get_namenode_resolves_remote_and_local_paths() {
    let registry = HdfsRegistry::new();
    assert_eq!(
        registry.get_namenode("hdfs://localhost:9000/users/test"),
        Ok(NNScheme::Remote(HostPort {
            host: String::from("hdfs://localhost"),
            port: 9000,
        }))
    );
    assert_eq!(registry.get_namenode("file:///tmp/x"), Ok(NNScheme::Local));
    assert_eq!(
        registry.get_namenode("hdfs://localhost"),
        Err(HdfsErr::InvalidUrl(String::from("hdfs://localhost")))
    );
}

#[test]
fn get_tags_the_handle_with_the_canonical_key() {
    let registry = HdfsRegistry::new();
    let fs = registry
        .get("hdfs://localhost:9000/users/test", |_b| 31)
        .unwrap();
    assert_eq!(fs.url, "hdfs://localhost:9000");
    assert_eq!(fs.raw, 31);
}

#[test]
fn get_local_path_has_the_local_key() {
    let registry = HdfsRegistry::new();
    let mut seen = None;
    let fs = registry
        .get("file:///tmp/x", |b| {
            seen = Some(b);
            5
        })
        .unwrap();
    assert_eq!(fs.url, "file:///");
    assert_eq!(seen, Some(HdfsBuilder::new()));
}

#[test]
fn get_remote_path_configures_the_builder() {
    let registry = HdfsRegistry::new();
    let mut seen = None;
    registry
        .get("hdfs://localhost:9000/users/test", |b| {
            seen = Some(b);
            5
        })
        .unwrap();
    assert_eq!(
        seen,
        Some(HdfsBuilder {
            name_node: Some(String::from("hdfs://localhost")),
            port: Some(9000),
        })
    );
}

#[test]
fn get_twice_connects_once() {
    let registry = HdfsRegistry::new();
    let mut calls = 0;
    let first = registry
        .get("hdfs://localhost:9000/users/test", |_b| {
            calls += 1;
            41
        })
        .unwrap();
    let second = registry
        .get("hdfs://localhost:9000/users/test", |_b| {
            calls += 1;
            42
        })
        .unwrap();
    assert_eq!(calls, 1);
    assert_eq!(first.url, "hdfs://localhost:9000");
    assert_eq!(second.url, "hdfs://localhost:9000");
    assert_eq!(first.raw, 41);
    assert_eq!(second.raw, 41);
}

#[test]
fn paths_of_one_endpoint_share_one_connection() {
    let registry = HdfsRegistry::new();
    let mut calls = 0;
    let a = registry
        .get("hdfs://localhost:9000/users/test", |_b| {
            calls += 1;
            41
        })
        .unwrap();
    let b = registry
        .get("hdfs://localhost:9000/other/dir/file.txt?x=1", |_b| {
            calls += 1;
            42
        })
        .unwrap();
    let c = registry
        .get("hdfs://localhost:9000", |_b| {
            calls += 1;
            43
        })
        .unwrap();
    assert_eq!(calls, 1);
    assert_eq!(a, b);
    assert_eq!(b, c);
    assert_eq!(c.raw, 41);
}

#[test]
fn local_paths_share_one_connection() {
    let registry = HdfsRegistry::new();
    let mut calls = 0;
    let a = registry
        .get("file:///tmp/x", |_b| {
            calls += 1;
            11
        })
        .unwrap();
    let b = registry
        .get("file:///anything/else", |_b| {
            calls += 1;
            12
        })
        .unwrap();
    assert_eq!(calls, 1);
    assert_eq!(a, b);
    assert_eq!(a.url, "file:///");
    assert_eq!(b.raw, 11);
}

#[test]
fn different_endpoints_get_different_connections() {
    let registry = HdfsRegistry::new();
    let a = registry.get("hdfs://localhost:9000/x", |_b| 1).unwrap();
    let b = registry.get("hdfs://localhost:9001/x", |_b| 2).unwrap();
    let c = registry.get("hdfs://otherhost:9000/x", |_b| 3).unwrap();
    let d = registry.get("file:///x", |_b| 4).unwrap();
    assert_eq!((a.raw, b.raw, c.raw, d.raw), (1, 2, 3, 4));
    assert_eq!(a.url, "hdfs://localhost:9000");
    assert_eq!(b.url, "hdfs://localhost:9001");
    assert_eq!(c.url, "hdfs://otherhost:9000");
    assert_eq!(d.url, "file:///");
}

#[test]
fn get_invalid_url_fails_without_connecting() {
    let registry = HdfsRegistry::new();
    let mut calls = 0;
    for path in ["", "not a url", "/users/test", "hdfs://localhost:port/"] {
        let r = registry.get(path, |_b| {
            calls += 1;
            1
        });
        assert_eq!(r, Err(HdfsErr::InvalidUrl(String::from(path))));
        assert_eq!(r, registry.get_namenode(path).map(|_| HdfsFs::new(String::new(), 0)));
    }
    assert_eq!(calls, 0);
}

#[test]
fn get_missing_port_fails_without_connecting() {
    let registry = HdfsRegistry::new();
    let mut calls = 0;
    let r = registry.get("hdfs://localhost", |_b| {
        calls += 1;
        1
    });
    assert_eq!(r, Err(HdfsErr::InvalidUrl(String::from("hdfs://localhost"))));
    assert_eq!(calls, 0);
}

#[test]
fn get_empty_host_fails_without_connecting() {
    let registry = HdfsRegistry::new();
    let mut calls = 0;
    let r = registry.get("hdfs://:9000/users/test", |_b| {
        calls += 1;
        1
    });
    assert_eq!(r, Err(HdfsErr::InvalidUrl(String::from("hdfs://:9000/users/test"))));
    assert_eq!(calls, 0);
}

#[test]
fn get_null_connection_is_an_error_with_the_key() {
    let registry = HdfsRegistry::new();
    let r = registry.get("hdfs://localhost:9000/users/test", |_b| 0);
    assert_eq!(
        r,
        Err(HdfsErr::CannotConnectToNameNode(String::from("hdfs://localhost:9000")))
    );
    let r = registry.get("file:///tmp/x", |_b| 0);
    assert_eq!(r, Err(HdfsErr::CannotConnectToNameNode(String::from("file:///"))));
}

#[test]
fn get_does_not_cache_a_failure() {
    let registry = HdfsRegistry::new();
    let mut calls = 0;
    let failed = registry.get("hdfs://localhost:9000/users/test", |_b| {
        calls += 1;
        0
    });
    assert!(matches!(failed, Err(HdfsErr::CannotConnectToNameNode(_))));
    let retried = registry.get("hdfs://localhost:9000/users/test", |_b| {
        calls += 1;
        23
    });
    assert_eq!(retried.unwrap().raw, 23);
    assert_eq!(calls, 2);
}

#[test]
fn many_gets_for_a_new_endpoint_connect_once() {
    let registry = HdfsRegistry::new();
    let mut calls: usize = 0;
    let mut handles = Vec::new();
    for i in 0..32 {
        handles.push(
            registry
                .get("hdfs://localhost:9000/users/test", |_b| {
                    calls += 1;
                    100 + i
                })
                .unwrap(),
        );
    }
    assert_eq!(calls, 1);
    for fs in &handles {
        assert_eq!(fs.raw, 100);
        assert_eq!(fs.url, "hdfs://localhost:9000");
    }
}

#[test]
fn registries_of_their_own_share_nothing() {
    let a = HdfsRegistry::new();
    let b = HdfsRegistry::new();
    let c = HdfsRegistry::default();
    assert_eq!(a.get("hdfs://localhost:9000/x", |_b| 1).unwrap().raw, 1);
    assert_eq!(b.get("hdfs://localhost:9000/x", |_b| 2).unwrap().raw, 2);
    assert_eq!(c.get("hdfs://localhost:9000/x", |_b| 3).unwrap().raw, 3);
    assert_eq!(a.get("hdfs://localhost:9000/x", |_b| 4).unwrap().raw, 1);
}

#[test]
fn registries_on_one_table_share_connections() {
    let shared: SharedTable = ConnectionTable::new().into_shared();
    let a = HdfsRegistry::new_from(shared.clone());
    let b = HdfsRegistry::new_from(shared);
    let mut calls = 0;
    let first = a
        .get("hdfs://localhost:9000/users/test", |_b| {
            calls += 1;
            61
        })
        .unwrap();
    let second = b
        .get("hdfs://localhost:9000/users/other", |_b| {
            calls += 1;
            62
        })
        .unwrap();
    assert_eq!(calls, 1);
    assert_eq!(first, second);
    assert_eq!(second.raw, 61);
}

#[test]
fn registry_on_a_table_with_connections_reuses_them() {
    let mut table = ConnectionTable::new();
    table
        .settle(
            &NNScheme::Remote(HostPort {
                host: String::from("hdfs://localhost"),
                port: 9000,
            }),
            71,
        )
        .unwrap();
    let registry = HdfsRegistry::new_from(table.into_shared());
    let mut calls = 0;
    let fs = registry
        .get("hdfs://localhost:9000/users/test", |_b| {
            calls += 1;
            72
        })
        .unwrap();
    assert_eq!(calls, 0);
    assert_eq!(fs.raw, 71);
    assert_eq!(fs.url, "hdfs://localhost:9000");
}

#[test]
fn registry_can_cross_threads() {
    assert!(shareable::<HdfsRegistry>());
    assert!(shareable::<SharedTable>());
    assert!(shareable::<HdfsFs>());
}
