//! The connections made so far, one per endpoint key.

use crate::dfs::{builder_for, BuilderView, Handle, HdfsBuilder, HdfsFs, RawFs};
use crate::endpoint::{lemma_key_identifies_endpoint, Endpoint, NNScheme};
use crate::err::{HdfsErr, HdfsErrView};
use std::sync::Arc;
use vstd::hash_map::StringHashMap;
use vstd::prelude::*;
use vstd::rwlock::{RwLock, RwLockPredicate};

verus! {

/// What to do for an endpoint: hand out the connection that is there, or ask
/// the native layer for one.
#[derive(Debug, PartialEq, Eq)]
pub enum Action {
    Reuse(HdfsFs),
    Connect(HdfsBuilder),
}

/// An action as a mathematical value.
pub enum ActionView {
    Reuse(Handle),
    Connect(BuilderView),
}

impl View for Action {
    type V = ActionView;

    open spec fn view(&self) -> ActionView {
        match self {
            Action::Reuse(fs) => ActionView::Reuse(fs@),
            Action::Connect(b) => ActionView::Connect(b@),
        }
    }
}

/// The outcome of a request for a handle, as a mathematical value.
pub open spec fn outcome_view(r: Result<HdfsFs, HdfsErr>) -> Result<Handle, HdfsErrView> {
    match r {
        Ok(fs) => Ok(fs@),
        Err(e) => Err(e@),
    }
}

/// Every connection in the table is a live one.
pub open spec fn all_connected(table: Map<Seq<char>, RawFs>) -> bool {
    forall|key: Seq<char>| table.contains_key(key) ==> #[trigger] table[key] != 0
}

/// The handle that the table holds under `key`.
pub open spec fn handle_at(table: Map<Seq<char>, RawFs>, key: Seq<char>) -> Handle {
    Handle { url: key, raw: table[key] }
}

/// The action for `endpoint`: reuse where its key is in the table, connect
/// where it is not.
pub open spec fn plan_spec(table: Map<Seq<char>, RawFs>, endpoint: Endpoint) -> ActionView {
    if table.contains_key(endpoint.key()) {
        ActionView::Reuse(handle_at(table, endpoint.key()))
    } else {
        ActionView::Connect(builder_for(endpoint))
    }
}

/// The table and the outcome after the native layer returned `raw` for
/// `endpoint`. A null handle is an error and leaves the table as it was. A
/// live one enters the table under the endpoint's key, unless the key is taken:
/// then the connection that is there stays and is handed out.
pub open spec fn settle_spec(table: Map<Seq<char>, RawFs>, endpoint: Endpoint, raw: RawFs) -> (
    Map<Seq<char>, RawFs>,
    Result<Handle, HdfsErrView>,
) {
    let key = endpoint.key();
    if raw == 0 {
        (table, Err(HdfsErrView::CannotConnectToNameNode(key)))
    } else if table.contains_key(key) {
        (table, Ok(handle_at(table, key)))
    } else {
        (table.insert(key, raw), Ok(Handle { url: key, raw }))
    }
}

/// The table and the outcome after a request for `endpoint`, where `raw` is
/// what the native layer returns if it is asked.
pub open spec fn serve_spec(table: Map<Seq<char>, RawFs>, endpoint: Endpoint, raw: RawFs) -> (
    Map<Seq<char>, RawFs>,
    Result<Handle, HdfsErrView>,
) {
    if table.contains_key(endpoint.key()) {
        (table, Ok(handle_at(table, endpoint.key())))
    } else {
        settle_spec(table, endpoint, raw)
    }
}

/// The handles to the connections made so far, each under the canonical
/// string of its endpoint.
pub struct ConnectionTable {
    map: StringHashMap<HdfsFs>,
}

/// What the lock of a shared table keeps: that the table is well-formed, and
/// that it still holds each connection that it held when it was shared.
pub struct TableInv {
    pub initial: Map<Seq<char>, RawFs>,
}

impl RwLockPredicate<ConnectionTable> for TableInv {
    open spec fn inv(self, table: ConnectionTable) -> bool {
        table.wf() && self.initial.submap_of(table@)
    }
}

/// A table behind a lock.
pub type SharedTable = Arc<RwLock<ConnectionTable, TableInv>>;

impl ConnectionTable {
    /// Each handle is tagged with the key it stands under, and is live.
    pub closed spec fn wf(&self) -> bool {
        forall|key: Seq<char>| #[trigger]
            self.map@.contains_key(key) ==> self.map@[key].url@ == key && self.map@[key].raw != 0
    }

    /// The native connection under each key.
    pub closed spec fn view(&self) -> Map<Seq<char>, RawFs> {
        Map::new(|key: Seq<char>| self.map@.contains_key(key), |key: Seq<char>| self.map@[key].raw)
    }

    /// In a well-formed table every connection is live.
    pub proof fn lemma_all_connected(&self)
        requires
            self.wf(),
        ensures
            all_connected(self@),
    {
    }

    /// A table without connections.
    pub fn new() -> (table: ConnectionTable)
        ensures
            table.wf(),
            table@ == Map::<Seq<char>, RawFs>::empty(),
    {
        let table = ConnectionTable { map: StringHashMap::new() };
        assert(table@ =~= Map::<Seq<char>, RawFs>::empty());
        table
    }

    /// Puts the table behind a lock, for registries to share. From then on
    /// the table can gain connections and cannot lose one.
    pub fn into_shared(self) -> (shared: SharedTable)
        requires
            self.wf(),
        ensures
            shared.pred() == (TableInv { initial: self@ }),
    {
        let ghost initial = self@;
        Arc::new(RwLock::new(self, Ghost(TableInv { initial })))
    }

    /// The number of connections.
    pub fn len(&self) -> (n: usize)
        requires
            self.wf(),
        ensures
            n == self@.len(),
    {
        broadcast use vstd::hash_map::group_hash_map_axioms;

        assert(self@.dom() =~= self.map@.dom());
        self.map.len()
    }

    /// Decides what a request for `endpoint` needs.
    pub fn plan(&self, endpoint: &NNScheme) -> (action: Action)
        requires
            self.wf(),
        ensures
            action@ == plan_spec(self@, endpoint@),
    {
        let key = endpoint.to_string();
        match self.map.get(key.as_str()) {
            Some(fs) => Action::Reuse(fs.clone()),
            None => Action::Connect(HdfsBuilder::for_endpoint(endpoint)),
        }
    }

    /// Takes in what the native layer returned for `endpoint`.
    pub fn settle(&mut self, endpoint: &NNScheme, raw: RawFs) -> (r: Result<HdfsFs, HdfsErr>)
        requires
            old(self).wf(),
        ensures
            final(self).wf(),
            (final(self)@, outcome_view(r)) == settle_spec(old(self)@, endpoint@, raw),
    {
        let key = endpoint.to_string();
        if raw == 0 {
            return Err(HdfsErr::CannotConnectToNameNode(key));
        }
        match self.map.get(key.as_str()) {
            Some(fs) => Ok(fs.clone()),
            None => {
                let fs = HdfsFs::new(key.clone(), raw);
                let shared = fs.clone();
                self.map.insert(key, fs);
                assert(self@ =~= old(self)@.insert(key@, raw));
                Ok(shared)
            },
        }
    }

    /// Serves a request for `endpoint`: hands out the connection that is
    /// there, or has `connect` make one and takes that in. `connect` is called
    /// at most once, with the builder for the endpoint, and only where the
    /// table has no connection for it: elsewhere it need not even be callable.
    pub fn serve<F: FnOnce(HdfsBuilder) -> RawFs>(
        &mut self,
        endpoint: &NNScheme,
        connect: F,
    ) -> (r: Result<HdfsFs, HdfsErr>)
        requires
            old(self).wf(),
            plan_spec(old(self)@, endpoint@) is Connect ==> forall|b: HdfsBuilder|
                b@ == builder_for(endpoint@) ==> call_requires(connect, (b,)),
        ensures
            final(self).wf(),
            old(self)@.submap_of(final(self)@),
            plan_spec(old(self)@, endpoint@) is Reuse ==> forall|raw: RawFs|
                (final(self)@, outcome_view(r)) == #[trigger] serve_spec(
                    old(self)@,
                    endpoint@,
                    raw,
                ),
            plan_spec(old(self)@, endpoint@) is Connect ==> exists|b: HdfsBuilder, raw: RawFs|
                b@ == builder_for(endpoint@) && #[trigger] call_ensures(connect, (b,), raw) && (
                final(self)@,
                outcome_view(r),
            ) == serve_spec(old(self)@, endpoint@, raw),
    {
        match self.plan(endpoint) {
            Action::Reuse(fs) => Ok(fs),
            Action::Connect(builder) => {
                let ghost asked = builder;
                let raw = connect(builder);
                let r = self.settle(endpoint, raw);
                assert(call_ensures(connect, (asked,), raw));
                r
            },
        }
    }
}

/// The table and the outcomes after requests for `endpoint` served one after
/// another, where `raws[i]` is what the native layer returns if request `i`
/// asks it.
pub open spec fn serve_all(table: Map<Seq<char>, RawFs>, endpoint: Endpoint, raws: Seq<RawFs>) -> (
    Map<Seq<char>, RawFs>,
    Seq<Result<Handle, HdfsErrView>>,
)
    decreases raws.len(),
{
    if raws.len() == 0 {
        (table, Seq::empty())
    } else {
        let (next, outcome) = serve_spec(table, endpoint, raws.first());
        let (last, rest) = serve_all(next, endpoint, raws.drop_first());
        (last, seq![outcome] + rest)
    }
}

/// How many of those requests ask the native layer for a connection.
pub open spec fn connects(table: Map<Seq<char>, RawFs>, endpoint: Endpoint, raws: Seq<RawFs>) -> nat
    decreases raws.len(),
{
    if raws.len() == 0 {
        0
    } else {
        let asks: nat = if plan_spec(table, endpoint) is Connect {
            1
        } else {
            0
        };
        asks + connects(serve_spec(table, endpoint, raws.first()).0, endpoint, raws.drop_first())
    }
}

/// Endpoints with one key share one connection. Once a request for an
/// endpoint has succeeded, a request for any endpoint with the same key asks
/// for no connection, is handed the same handle, and leaves the table as it
/// is, whatever the native layer would have returned.
pub proof fn lemma_same_key_same_connection(
    table: Map<Seq<char>, RawFs>,
    first: Endpoint,
    second: Endpoint,
    raw1: RawFs,
    raw2: RawFs,
)
    requires
        first.key() == second.key(),
        serve_spec(table, first, raw1).1 is Ok,
    ensures
        plan_spec(serve_spec(table, first, raw1).0, second) is Reuse,
        serve_spec(serve_spec(table, first, raw1).0, second, raw2) == serve_spec(
            table,
            first,
            raw1,
        ),
{
}

/// Asking twice is asking once. After a request that succeeded, the same
/// request again asks for no connection and is handed the same handle, whose
/// tag is the endpoint's key.
pub proof fn lemma_second_request_reuses(
    table: Map<Seq<char>, RawFs>,
    endpoint: Endpoint,
    raw1: RawFs,
    raw2: RawFs,
)
    requires
        serve_spec(table, endpoint, raw1).1 is Ok,
    ensures
        serve_spec(table, endpoint, raw1).1->Ok_0.url == endpoint.key(),
        plan_spec(serve_spec(table, endpoint, raw1).0, endpoint) is Reuse,
        serve_spec(serve_spec(table, endpoint, raw1).0, endpoint, raw2) == serve_spec(
            table,
            endpoint,
            raw1,
        ),
        connects(table, endpoint, seq![raw1, raw2]) <= 1,
{
    lemma_same_key_same_connection(table, endpoint, endpoint, raw1, raw2);
    let after = serve_spec(table, endpoint, raw1).0;
    assert(seq![raw1, raw2].drop_first() =~= seq![raw2]);
    assert(seq![raw2].drop_first() =~= Seq::<RawFs>::empty());
    assert(connects(after, endpoint, seq![raw2]) == 0) by {
        reveal_with_fuel(connects, 2);
    }
}

/// A failed connection leaves no trace: the table is as before, so the next
/// request for the endpoint asks for a connection again.
pub proof fn lemma_failure_is_not_cached(table: Map<Seq<char>, RawFs>, endpoint: Endpoint)
    requires
        !table.contains_key(endpoint.key()),
    ensures
        serve_spec(table, endpoint, 0) == (
            table,
            Err::<Handle, HdfsErrView>(HdfsErrView::CannotConnectToNameNode(endpoint.key())),
        ),
        plan_spec(serve_spec(table, endpoint, 0).0, endpoint) is Connect,
{
}

/// Serving adds and never takes away. Every connection that is in the table
/// stays, under its key and live; no key but the endpoint's is touched; and a
/// handle that is handed out is tagged with the endpoint's key and is the one
/// that the table then holds under it.
pub proof fn lemma_serve_keeps_connections(
    table: Map<Seq<char>, RawFs>,
    endpoint: Endpoint,
    raw: RawFs,
)
    ensures
        forall|key: Seq<char>| #[trigger]
            table.contains_key(key) ==> serve_spec(table, endpoint, raw).0.contains_key(key)
                && serve_spec(table, endpoint, raw).0[key] == table[key],
        forall|key: Seq<char>|
            key != endpoint.key() ==> (#[trigger] serve_spec(table, endpoint, raw).0.contains_key(
                key,
            ) <==> table.contains_key(key)),
        all_connected(table) ==> all_connected(serve_spec(table, endpoint, raw).0),
        serve_spec(table, endpoint, raw).1 matches Ok(handle) ==> handle == handle_at(
            serve_spec(table, endpoint, raw).0,
            endpoint.key(),
        ) && serve_spec(table, endpoint, raw).0.contains_key(endpoint.key()),
{
}

/// Endpoints do not get in each other's way: serving one changes nothing of
/// what a request for another is handed.
pub proof fn lemma_other_endpoints_untouched(
    table: Map<Seq<char>, RawFs>,
    served: Endpoint,
    other: Endpoint,
    raw: RawFs,
)
    requires
        served != other,
    ensures
        plan_spec(serve_spec(table, served, raw).0, other) == plan_spec(table, other),
{
    if served.key() == other.key() {
        lemma_key_identifies_endpoint(served, other);
    }
}

/// First requests for a new endpoint, served one after another, make one
/// connection between them: where the first to be served connects, it alone
/// asks the native layer, and every request is handed that one connection.
pub proof fn lemma_requests_share_one_connection(
    table: Map<Seq<char>, RawFs>,
    endpoint: Endpoint,
    raws: Seq<RawFs>,
)
    requires
        !table.contains_key(endpoint.key()),
        raws.len() > 0,
        raws[0] != 0,
    ensures
        connects(table, endpoint, raws) == 1,
        serve_all(table, endpoint, raws).0 == table.insert(endpoint.key(), raws[0]),
        serve_all(table, endpoint, raws).1.len() == raws.len(),
        forall|i: int|
            0 <= i < raws.len() ==> #[trigger] serve_all(table, endpoint, raws).1[i] == Ok::<
                Handle,
                HdfsErrView,
            >(Handle { url: endpoint.key(), raw: raws[0] }),
{
    let after = table.insert(endpoint.key(), raws[0]);
    lemma_served_from_table(after, endpoint, raws.drop_first());
}

/// Requests for an endpoint whose connection is in the table ask for none,
/// are all handed that one, and leave the table as it is.
pub proof fn lemma_served_from_table(
    table: Map<Seq<char>, RawFs>,
    endpoint: Endpoint,
    raws: Seq<RawFs>,
)
    requires
        table.contains_key(endpoint.key()),
    ensures
        connects(table, endpoint, raws) == 0,
        serve_all(table, endpoint, raws).0 == table,
        serve_all(table, endpoint, raws).1.len() == raws.len(),
        forall|i: int|
            0 <= i < raws.len() ==> #[trigger] serve_all(table, endpoint, raws).1[i] == Ok::<
                Handle,
                HdfsErrView,
            >(handle_at(table, endpoint.key())),
    decreases raws.len(),
{
    if raws.len() > 0 {
        lemma_served_from_table(table, endpoint, raws.drop_first());
    }
}

} // verus!
