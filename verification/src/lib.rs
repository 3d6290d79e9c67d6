//! A registry of filesystem connections: one connection per endpoint, made
//! when a path first asks for it and shared from then on.

use crate::dfs::{builder_for, Handle, HdfsBuilder, HdfsFs, RawFs};
use crate::endpoint::NNScheme;
use crate::err::{HdfsErr, HdfsErrView};
use crate::resolve::{resolution_view, resolve, resolve_spec};
use crate::table::{
    handle_at, outcome_view, plan_spec, serve_spec, ConnectionTable, SharedTable,
};
use vstd::prelude::*;

pub mod decimal;
pub mod dfs;
pub mod endpoint;
pub mod err;
pub mod resolve;
pub mod table;

verus! {

/// Stores the filesystem handles seen so far and hands them out again.
pub struct HdfsRegistry {
    all_fs: SharedTable,
}

impl HdfsRegistry {
    /// The table that this registry keeps its connections in.
    pub closed spec fn shared(&self) -> SharedTable {
        self.all_fs
    }

    /// The connections that the registry's table held when it was shared. The
    /// table holds them ever after, and what else has been made since.
    pub open spec fn initial(&self) -> Map<Seq<char>, RawFs> {
        self.shared().pred().initial
    }

    /// A registry with a table of its own, which starts empty.
    pub fn new() -> (registry: HdfsRegistry)
        ensures
            registry.initial() == Map::<Seq<char>, RawFs>::empty(),
    {
        HdfsRegistry::new_from(ConnectionTable::new().into_shared())
    }

    /// A registry on a table that others may share.
    pub fn new_from(fs: SharedTable) -> (registry: HdfsRegistry)
        ensures
            registry.shared() == fs,
    {
        HdfsRegistry { all_fs: fs }
    }

    /// Resolves `path` to the endpoint it names.
    pub fn get_namenode(&self, path: &str) -> (r: Result<NNScheme, HdfsErr>)
        ensures
            resolution_view(r) == resolve_spec(path@),
    {
        resolve(path)
    }

    /// The handle for the filesystem that `path` names. A path that does not
    /// resolve is refused before the table is touched, and a connection that
    /// the table has held from the start is handed out as it is: in both cases
    /// `connect` need not be callable. Else the table stays locked from the
    /// lookup to the insertion, so that of the requests for an endpoint that
    /// is new only one runs `connect`. `connect` has to return: nobody else
    /// gets at the table while it runs.
    pub fn get<F: FnOnce(HdfsBuilder) -> RawFs>(&self, path: &str, connect: F) -> (r: Result<
        HdfsFs,
        HdfsErr,
    >)
        requires
            resolve_spec(path@) matches Ok(endpoint) ==> !self.initial().contains_key(
                endpoint.key(),
            ) ==> forall|b: HdfsBuilder|
                b@ == builder_for(endpoint) ==> call_requires(connect, (b,)),
        ensures
            match resolve_spec(path@) {
                Err(refused) => outcome_view(r) == Err::<Handle, HdfsErrView>(refused),
                Ok(endpoint) => match r {
                    Ok(fs) => fs@.url == endpoint.key() && fs@.raw != 0,
                    Err(e) => e@ == HdfsErrView::CannotConnectToNameNode(endpoint.key())
                        && exists|b: HdfsBuilder|
                        b@ == builder_for(endpoint) && #[trigger] call_ensures(
                            connect,
                            (b,),
                            0usize,
                        ),
                },
            },
            resolve_spec(path@) matches Ok(endpoint) ==> self.initial().contains_key(
                endpoint.key(),
            ) ==> outcome_view(r) == Ok::<Handle, HdfsErrView>(
                handle_at(self.initial(), endpoint.key()),
            ),
    {
        let endpoint = match self.get_namenode(path) {
            Ok(endpoint) => endpoint,
            Err(e) => {
                return Err(e);
            },
        };
        let (mut table, lock) = self.all_fs.acquire_write();
        let ghost before = table@;
        let r = table.serve(&endpoint, connect);
        proof {
            table.lemma_all_connected();
            if plan_spec(before, endpoint@) is Reuse {
                assert((table@, outcome_view(r)) == serve_spec(before, endpoint@, 0));
            }
            assert(self.initial().submap_of(table@)) by {
                assert(self.initial().submap_of(before));
                assert(before.submap_of(table@));
                assert forall|key: Seq<char>| #[trigger]
                    self.initial().dom().contains(key) implies table@.dom().contains(key)
                    && self.initial()[key] == table@[key] by {
                    assert(before.dom().contains(key));
                }
            }
        }
        lock.release_write(table);
        r
    }
}

impl Default for HdfsRegistry {
    /// A registry with a table of its own, as `HdfsRegistry::new` makes it.
    fn default() -> (registry: HdfsRegistry)
        ensures
            registry.initial() == Map::<Seq<char>, RawFs>::empty(),
    {
        HdfsRegistry::new()
    }
}

} // verus!
