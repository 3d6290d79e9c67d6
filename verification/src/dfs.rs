//! Filesystem handles, and the requests that the native layer connects.

use crate::endpoint::{Endpoint, NNScheme};
use vstd::prelude::*;
use vstd::string::StringExecFns;

verus! {

/// The address of a native connection. Zero is the null handle, which the
/// native layer returns where it could not connect.
pub type RawFs = usize;

/// A handle to a connected filesystem. Copies of a handle share the one
/// native connection that `raw` points at.
#[derive(Debug, PartialEq, Eq)]
pub struct HdfsFs {
    /// The canonical string of the endpoint that the handle was made for.
    pub url: String,
    /// The native connection.
    pub raw: RawFs,
}

/// A handle as a mathematical value.
pub struct Handle {
    pub url: Seq<char>,
    pub raw: RawFs,
}

impl View for HdfsFs {
    type V = Handle;

    open spec fn view(&self) -> Handle {
        Handle { url: self.url@, raw: self.raw }
    }
}

impl HdfsFs {
    /// Wraps a native connection in a handle tagged with `url`.
    pub fn new(url: String, raw: RawFs) -> (fs: HdfsFs)
        ensures
            fs@ == (Handle { url: url@, raw }),
    {
        HdfsFs { url, raw }
    }
}

impl Clone for HdfsFs {
    /// Another handle to the same native connection.
    fn clone(&self) -> (fs: HdfsFs)
        ensures
            fs@ == self@,
    {
        HdfsFs { url: self.url.clone(), raw: self.raw }
    }
}

/// What a connection builder has been told: the name node to connect to and
/// its port. An untouched builder connects to the local filesystem.
#[derive(Debug, Clone, PartialEq, Eq)]
pub struct HdfsBuilder {
    pub name_node: Option<String>,
    pub port: Option<u16>,
}

/// A builder as a mathematical value.
pub struct BuilderView {
    pub name_node: Option<Seq<char>>,
    pub port: Option<u16>,
}

impl View for HdfsBuilder {
    type V = BuilderView;

    open spec fn view(&self) -> BuilderView {
        BuilderView {
            name_node: match self.name_node {
                Some(n) => Some(n@),
                None => None,
            },
            port: self.port,
        }
    }
}

/// The builder that connects to `endpoint`: untouched for the local
/// filesystem, told host and port for a remote one.
pub open spec fn builder_for(endpoint: Endpoint) -> BuilderView {
    match endpoint {
        Endpoint::Local => BuilderView { name_node: None, port: None },
        Endpoint::Remote { host, port } => BuilderView { name_node: Some(host), port: Some(port) },
    }
}

impl HdfsBuilder {
    /// A builder that has been told nothing.
    pub fn new() -> (b: HdfsBuilder)
        ensures
            b@ == (BuilderView { name_node: None, port: None }),
    {
        HdfsBuilder { name_node: None, port: None }
    }

    /// Sets the name node to connect to.
    pub fn set_name_node(&mut self, host: &str)
        ensures
            final(self)@ == (BuilderView { name_node: Some(host@), port: old(self)@.port }),
    {
        self.name_node = Some(String::from_str(host));
    }

    /// Sets the name node's port.
    pub fn set_name_node_port(&mut self, port: u16)
        ensures
            final(self)@ == (BuilderView { name_node: old(self)@.name_node, port: Some(port) }),
    {
        self.port = Some(port);
    }

    /// The builder for a connection to `endpoint`.
    pub fn for_endpoint(endpoint: &NNScheme) -> (b: HdfsBuilder)
        ensures
            b@ == builder_for(endpoint@),
    {
        let mut b = HdfsBuilder::new();
        match endpoint {
            NNScheme::Local => {},
            NNScheme::Remote(hp) => {
                b.set_name_node(hp.host.as_str());
                b.set_name_node_port(hp.port);
            },
        }
        b
    }
}

} // verus!
