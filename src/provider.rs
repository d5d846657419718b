use vstd::prelude::*;
use crate::error::{ProviderError, StoreError};
use crate::registry::Registry;

verus! {

/// Reply to a `get` request.
#[derive(Debug, Clone, PartialEq, Eq, Default)]
pub struct GetResponse {
    pub exists: bool,
    pub value: String,
}

/// Text of the error for a request that names no client.
pub const NO_ACTOR_MESSAGE: &'static str = "no actor in request";

/// Key-value provider state: one collection handle of type `H` per linked
/// client. Requests for a client resolve its handle here; the call into the
/// backing store is made by the caller, whose outcome the `*_response`
/// functions turn into the reply.
pub struct KvCouchbaseProvider<H> {
    actors: Registry<H>,
}

impl<H> View for KvCouchbaseProvider<H> {
    type V = Map<Seq<char>, H>;

    closed spec fn view(&self) -> Map<Seq<char>, H> {
        self.actors@
    }
}

/// The identity carried by a request, or `InvalidParameter` when it has none.
pub fn actor_id(actor: &Option<String>) -> (r: Result<&String, ProviderError>)
    ensures
        match actor {
            Some(a) => r == Ok::<&String, ProviderError>(a),
            None => (r matches Err(ProviderError::InvalidParameter(m)) && m@ == NO_ACTOR_MESSAGE@),
        },
{
    match actor {
        Some(a) => Ok(a),
        None => Err(ProviderError::InvalidParameter(NO_ACTOR_MESSAGE.to_owned())),
    }
}

/// A backing-store failure reported to the caller, with the store's text.
pub fn to_rpc_err(e: StoreError) -> (r: ProviderError)
    ensures
        match e {
            StoreError::DocumentNotFound => (r matches ProviderError::BackingStore(m)),
            StoreError::Other(t) => r == ProviderError::BackingStore(t),
        },
{
    match e {
        StoreError::DocumentNotFound => ProviderError::BackingStore("document not found".to_owned()),
        StoreError::Other(t) => ProviderError::BackingStore(t),
    }
}

/// Reply to `get` from the store's fetch outcome: a fetched document exists
/// with its content, a missing one is a normal negative reply, any other
/// failure is a backing-store error.
pub fn get_response(fetched: Result<String, StoreError>) -> (r: Result<GetResponse, ProviderError>)
    ensures
        match fetched {
            Ok(v) => r == Ok::<GetResponse, ProviderError>(GetResponse { exists: true, value: v }),
            Err(StoreError::DocumentNotFound) => (r matches Ok(g) && !g.exists && g.value@.len() == 0),
            Err(StoreError::Other(t)) => r == Err::<GetResponse, ProviderError>(
                ProviderError::BackingStore(t),
            ),
        },
{
    match fetched {
        Ok(v) => Ok(GetResponse { exists: true, value: v }),
        Err(StoreError::DocumentNotFound) => Ok(GetResponse { exists: false, value: String::new() }),
        Err(e) => Err(to_rpc_err(e)),
    }
}

/// Reply to `contains` from the store's existence check.
pub fn contains_response(checked: Result<bool, StoreError>) -> (r: Result<bool, ProviderError>)
    ensures
        match checked {
            Ok(b) => r == Ok::<bool, ProviderError>(b),
            Err(StoreError::DocumentNotFound) => (r matches Err(ProviderError::BackingStore(m))),
            Err(StoreError::Other(t)) => r == Err::<bool, ProviderError>(ProviderError::BackingStore(t)),
        },
{
    match checked {
        Ok(b) => Ok(b),
        Err(e) => Err(to_rpc_err(e)),
    }
}

/// Reply to `del` from the store's remove outcome. A remove call that did not
/// fail is reported as `true`, whether or not a document was there before.
pub fn del_response(removed: Result<(), StoreError>) -> (r: Result<bool, ProviderError>)
    ensures
        match removed {
            Ok(_) => r == Ok::<bool, ProviderError>(true),
            Err(StoreError::DocumentNotFound) => (r matches Err(ProviderError::BackingStore(m))),
            Err(StoreError::Other(t)) => r == Err::<bool, ProviderError>(ProviderError::BackingStore(t)),
        },
{
    match removed {
        Ok(_) => Ok(true),
        Err(e) => Err(to_rpc_err(e)),
    }
}

impl<H> KvCouchbaseProvider<H> {
    /// The registry's entries are well formed.
    pub closed spec fn wf(&self) -> bool {
        self.actors.wf()
    }

    /// A provider with no links.
    pub fn new() -> (r: Self)
        ensures
            r.wf(),
            r@ == Map::<Seq<char>, H>::empty(),
    {
        KvCouchbaseProvider { actors: Registry::new() }
    }

    /// Number of active links.
    pub fn link_count(&self) -> (r: usize)
        requires
            self.wf(),
        ensures
            r == self@.len(),
    {
        self.actors.len()
    }

    /// Establishes the link of `actor_id` with the outcome of opening its
    /// collection. A handle replaces (and releases) any earlier one of that
    /// client; a failed open leaves the links as they were.
    pub fn put_link(&mut self, actor_id: String, opened: Result<H, ProviderError>) -> (r: Result<bool, ProviderError>)
        requires
            old(self).wf(),
        ensures
            final(self).wf(),
            match opened {
                Ok(h) => r == Ok::<bool, ProviderError>(true) && final(self)@ == old(self)@.insert(actor_id@, h),
                Err(e) => r == Err::<bool, ProviderError>(e) && final(self)@ == old(self)@,
            },
    {
        match opened {
            Ok(h) => {
                let _replaced = self.actors.register(actor_id, h);
                Ok(true)
            },
            Err(e) => Err(e),
        }
    }

    /// Removes the link of `actor_id` and releases its handle; nothing
    /// happens for a client without a link.
    pub fn delete_link(&mut self, actor_id: &String)
        requires
            old(self).wf(),
        ensures
            final(self).wf(),
            final(self)@ == old(self)@.remove(actor_id@),
    {
        let _removed = self.actors.unregister(actor_id);
    }

    /// Releases every handle and removes every link.
    pub fn shutdown(&mut self)
        requires
            old(self).wf(),
        ensures
            final(self).wf(),
            final(self)@ == Map::<Seq<char>, H>::empty(),
    {
        self.actors.clear();
    }

    /// The handle of the client named by a request: `InvalidParameter` when
    /// the request names none, `NotLinked` when that client has no link.
    pub fn lookup(&self, actor: &Option<String>) -> (r: Result<&H, ProviderError>)
        requires
            self.wf(),
        ensures
            match actor {
                None => (r matches Err(ProviderError::InvalidParameter(m)) && m@ == NO_ACTOR_MESSAGE@),
                Some(a) => if self@.contains_key(a@) {
                    r == Ok::<&H, ProviderError>(&self@[a@])
                } else {
                    r == Err::<&H, ProviderError>(ProviderError::NotLinked(*a))
                },
            },
    {
        let id = actor_id(actor)?;
        match self.actors.lookup(id) {
            Some(h) => Ok(h),
            None => Err(ProviderError::NotLinked(id.clone())),
        }
    }

    /// Increments a numeric value: not offered.
    pub fn increment(&self, key: &String, value: i32) -> (r: Result<i32, ProviderError>)
        ensures
            r == Err::<i32, ProviderError>(ProviderError::NotImplemented),
    {
        Err(ProviderError::NotImplemented)
    }

    /// Appends to a list: not offered.
    pub fn list_add(&self, list_name: &String, value: &String) -> (r: Result<u32, ProviderError>)
        ensures
            r == Err::<u32, ProviderError>(ProviderError::NotImplemented),
    {
        Err(ProviderError::NotImplemented)
    }

    /// Deletes a list: not offered.
    pub fn list_clear(&self, list_name: &String) -> (r: Result<bool, ProviderError>)
        ensures
            r == Err::<bool, ProviderError>(ProviderError::NotImplemented),
    {
        Err(ProviderError::NotImplemented)
    }

    /// Deletes an item of a list: not offered.
    pub fn list_del(&self, list_name: &String, value: &String) -> (r: Result<bool, ProviderError>)
        ensures
            r == Err::<bool, ProviderError>(ProviderError::NotImplemented),
    {
        Err(ProviderError::NotImplemented)
    }

    /// Reads a range of a list: not offered.
    pub fn list_range(&self, list_name: &String, start: i32, stop: i32) -> (r: Result<Vec<String>, ProviderError>)
        ensures
            r == Err::<Vec<String>, ProviderError>(ProviderError::NotImplemented),
    {
        Err(ProviderError::NotImplemented)
    }

    /// Sets the value of a key: not offered.
    pub fn set(&self, key: &String, value: &String, expires: u32) -> (r: Result<(), ProviderError>)
        ensures
            r == Err::<(), ProviderError>(ProviderError::NotImplemented),
    {
        Err(ProviderError::NotImplemented)
    }

    /// Adds an item to a set: not offered.
    pub fn set_add(&self, set_name: &String, value: &String) -> (r: Result<u32, ProviderError>)
        ensures
            r == Err::<u32, ProviderError>(ProviderError::NotImplemented),
    {
        Err(ProviderError::NotImplemented)
    }

    /// Removes an item of a set: not offered.
    pub fn set_del(&self, set_name: &String, value: &String) -> (r: Result<u32, ProviderError>)
        ensures
            r == Err::<u32, ProviderError>(ProviderError::NotImplemented),
    {
        Err(ProviderError::NotImplemented)
    }

    /// Deletes a set: not offered.
    pub fn set_clear(&self, set_name: &String) -> (r: Result<bool, ProviderError>)
        ensures
            r == Err::<bool, ProviderError>(ProviderError::NotImplemented),
    {
        Err(ProviderError::NotImplemented)
    }

    /// Intersects sets: not offered.
    pub fn set_intersection(&self, keys: &Vec<String>) -> (r: Result<Vec<String>, ProviderError>)
        ensures
            r == Err::<Vec<String>, ProviderError>(ProviderError::NotImplemented),
    {
        Err(ProviderError::NotImplemented)
    }

    /// Lists a set: not offered.
    pub fn set_query(&self, set_name: &String) -> (r: Result<Vec<String>, ProviderError>)
        ensures
            r == Err::<Vec<String>, ProviderError>(ProviderError::NotImplemented),
    {
        Err(ProviderError::NotImplemented)
    }

    /// Unites sets: not offered.
    pub fn set_union(&self, keys: &Vec<String>) -> (r: Result<Vec<String>, ProviderError>)
        ensures
            r == Err::<Vec<String>, ProviderError>(ProviderError::NotImplemented),
    {
        Err(ProviderError::NotImplemented)
    }
}

/// A link event as it acts on the map of active links.
pub enum LinkEvent<H> {
    Put(Seq<char>, H),
    Delete(Seq<char>),
    Shutdown,
}

/// The links after one event, as `put_link` (with an opened handle),
/// `delete_link` and `shutdown` state it.
pub open spec fn apply_event<H>(m: Map<Seq<char>, H>, e: LinkEvent<H>) -> Map<Seq<char>, H> {
    match e {
        LinkEvent::Put(a, h) => m.insert(a, h),
        LinkEvent::Delete(a) => m.remove(a),
        LinkEvent::Shutdown => Map::empty(),
    }
}

/// The links after a history of events, starting from a new provider.
pub open spec fn replay<H>(events: Seq<LinkEvent<H>>) -> Map<Seq<char>, H>
    decreases events.len(),
{
    if events.len() == 0 {
        Map::empty()
    } else {
        apply_event(replay(events.drop_last()), events.last())
    }
}

/// A client that no event ever linked has no link, whatever else happened:
/// its requests fail with `NotLinked`.
pub proof fn never_linked_is_absent<H>(events: Seq<LinkEvent<H>>, a: Seq<char>)
    requires
        forall|i: int| 0 <= i < events.len() ==> !(#[trigger] events[i] matches LinkEvent::Put(b, _) && b == a),
    ensures
        !replay(events).contains_key(a),
    decreases events.len(),
{
    if events.len() > 0 {
        let t = events.drop_last();
        assert forall|i: int| 0 <= i < t.len() implies !(#[trigger] t[i] matches LinkEvent::Put(b, _) && b == a) by {
            assert(t[i] == events[i]);
        }
        never_linked_is_absent(t, a);
        assert(!(events[events.len() - 1] matches LinkEvent::Put(b, _) && b == a));
    }
}

/// After `shutdown` no client has a link, whatever the history before it.
pub proof fn shutdown_unlinks_all<H>(events: Seq<LinkEvent<H>>, a: Seq<char>)
    ensures
        !replay(events.push(LinkEvent::Shutdown)).contains_key(a),
{
    assert(events.push(LinkEvent::Shutdown).drop_last() =~= events);
}

/// After a successful link of `a` its handle is found; after removing the
/// link it is not, and the other clients' links are untouched.
pub proof fn link_then_unlink<H>(m: Map<Seq<char>, H>, a: Seq<char>, h: H, b: Seq<char>)
    requires
        b != a,
    ensures
        m.insert(a, h).contains_key(a),
        m.insert(a, h)[a] == h,
        !m.insert(a, h).remove(a).contains_key(a),
        m.insert(a, h).remove(a).contains_key(b) == m.contains_key(b),
        m.contains_key(b) ==> m.insert(a, h).remove(a)[b] == m[b],
{
}

/// Removing the link of a client that has none changes nothing.
pub proof fn unlink_unknown_is_noop<H>(m: Map<Seq<char>, H>, a: Seq<char>)
    requires
        !m.contains_key(a),
    ensures
        m.remove(a) == m,
{
    assert(m.remove(a) =~= m);
}

} // verus!
