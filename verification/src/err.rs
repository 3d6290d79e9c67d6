//! The errors of the registry.

use vstd::prelude::*;

verus! {

/// Why a filesystem handle could not be had.
#[derive(Debug, Clone, PartialEq, Eq)]
pub enum HdfsErr {
    /// The native layer returned a null handle for the endpoint with this key.
    CannotConnectToNameNode(String),
    /// The path is no URL, or a URL of a remote scheme that lacks a port or a
    /// host that is not empty.
    InvalidUrl(String),
}

/// An error, with its text as a sequence of characters.
pub enum HdfsErrView {
    CannotConnectToNameNode(Seq<char>),
    InvalidUrl(Seq<char>),
}

impl View for HdfsErr {
    type V = HdfsErrView;

    open spec fn view(&self) -> HdfsErrView {
        match self {
            HdfsErr::CannotConnectToNameNode(key) => HdfsErrView::CannotConnectToNameNode(key@),
            HdfsErr::InvalidUrl(path) => HdfsErrView::InvalidUrl(path@),
        }
    }
}

} // verus!
