//! Endpoints and their cache keys.

use crate::decimal::{decimal, decimal_string, lemma_decimal_digits, lemma_decimal_injective};
use vstd::prelude::*;
use vstd::string::StringExecFns;

verus! {

/// The scheme that names the local filesystem.
pub const LOCAL_FS_SCHEME: &'static str = "file";

/// The cache key of the local filesystem.
pub const LOCAL_FS_KEY: &'static str = "file:///";

/// A name node's address. `host` keeps the scheme in front: `hdfs://name`.
#[derive(Debug, Clone, PartialEq, Eq)]
pub struct HostPort {
    pub host: String,
    pub port: u16,
}

/// Where a filesystem lives.
#[derive(Debug, Clone, PartialEq, Eq)]
pub enum NNScheme {
    Local,
    Remote(HostPort),
}

/// An endpoint as a mathematical value.
pub enum Endpoint {
    Local,
    Remote { host: Seq<char>, port: u16 },
}

impl Endpoint {
    /// The canonical string of an endpoint, under which its connection is cached.
    pub open spec fn key(self) -> Seq<char> {
        match self {
            Endpoint::Local => LOCAL_FS_KEY@,
            Endpoint::Remote { host, port } => host + seq![':'] + decimal(port as nat),
        }
    }
}

impl View for HostPort {
    type V = Endpoint;

    open spec fn view(&self) -> Endpoint {
        Endpoint::Remote { host: self.host@, port: self.port }
    }
}

impl View for NNScheme {
    type V = Endpoint;

    open spec fn view(&self) -> Endpoint {
        match self {
            NNScheme::Local => Endpoint::Local,
            NNScheme::Remote(hp) => hp@,
        }
    }
}

impl NNScheme {
    /// The canonical string of this endpoint.
    pub fn to_string(&self) -> (key: String)
        ensures
            key@ == self@.key(),
    {
        match self {
            NNScheme::Local => String::from_str(LOCAL_FS_KEY),
            NNScheme::Remote(hp) => {
                let mut key = hp.host.clone();
                proof {
                    reveal_strlit(":");
                }
                key.append(":");
                let digits = decimal_string(hp.port);
                key.append(digits.as_str());
                key
            },
        }
    }
}

/// The key tells the endpoint: no two endpoints have the same key, so no
/// two endpoints are ever handed the same connection.
pub proof fn lemma_key_identifies_endpoint(a: Endpoint, b: Endpoint)
    requires
        a.key() == b.key(),
    ensures
        a == b,
{
    reveal_strlit("file:///");
    match (a, b) {
        (Endpoint::Local, Endpoint::Local) => {},
        // A remote key ends in a digit, the local key in a slash.
        (Endpoint::Remote { host, port }, Endpoint::Local) => {
            lemma_decimal_digits(port as nat);
            assert(a.key().last() == decimal(port as nat).last());
            assert(b.key().last() == '/');
        },
        (Endpoint::Local, Endpoint::Remote { host, port }) => {
            lemma_decimal_digits(port as nat);
            assert(b.key().last() == decimal(port as nat).last());
            assert(a.key().last() == '/');
        },
        (
            Endpoint::Remote { host: host_a, port: port_a },
            Endpoint::Remote { host: host_b, port: port_b },
        ) => {
            let digits_a = decimal(port_a as nat);
            let digits_b = decimal(port_b as nat);
            lemma_decimal_digits(port_a as nat);
            lemma_decimal_digits(port_b as nat);
            assert(a.key().len() == host_a.len() + 1 + digits_a.len());
            assert(b.key().len() == host_b.len() + 1 + digits_b.len());
            // The colon of the longer host would fall among the digits of the
            // other key, and a digit is no colon: the hosts are equally long.
            if host_a.len() < host_b.len() {
                let at = host_b.len() as int;
                assert(b.key()[at] == ':');
                assert(a.key()[at] == digits_a[at - host_a.len() - 1]);
            } else if host_b.len() < host_a.len() {
                let at = host_a.len() as int;
                assert(a.key()[at] == ':');
                assert(b.key()[at] == digits_b[at - host_b.len() - 1]);
            }
            let split = host_a.len() as int;
            let end = a.key().len() as int;
            assert(host_a =~= a.key().subrange(0, split));
            assert(host_b =~= b.key().subrange(0, split));
            assert(digits_a =~= a.key().subrange(split + 1, end));
            assert(digits_b =~= b.key().subrange(split + 1, end));
            lemma_decimal_injective(port_a as nat, port_b as nat);
        },
    }
}

} // verus!
