//! Per-request context, and the source of its identifiers.

use vstd::prelude::*;

use std::sync::Arc;

use crate::credentials::Credentials;

verus! {

/// Hands out flow identifiers in strictly increasing order, never twice.
pub struct FlowIds {
    next: u64,
    issued: Ghost<Seq<u64>>,
}

impl FlowIds {
    /// The identifier the next flow receives.
    pub closed spec fn next_id(&self) -> u64 {
        self.next
    }

    /// Every identifier handed out so far, oldest first.
    pub closed spec fn issued(&self) -> Seq<u64> {
        self.issued@
    }

    pub closed spec fn wf(&self) -> bool {
        &&& forall|i: int, j: int| 0 <= i < j < self.issued@.len() ==> self.issued@[i] < self.issued@[j]
        &&& forall|i: int| 0 <= i < self.issued@.len() ==> self.issued@[i] < self.next
    }

    pub fn new() -> (r: FlowIds)
        ensures
            r.wf(),
            r.next_id() == 0,
            r.issued().len() == 0,
    {
        FlowIds { next: 0, issued: Ghost(Seq::empty()) }
    }

    /// Takes the next identifier; `None` once all `u64` values are spent.
    pub fn allocate(&mut self) -> (r: Option<u64>)
        requires
            old(self).wf(),
        ensures
            final(self).wf(),
            match r {
                Some(id) => {
                    &&& id == old(self).next_id()
                    &&& final(self).next_id() == id + 1
                    &&& final(self).issued() == old(self).issued().push(id)
                },
                None => {
                    &&& old(self).next_id() == u64::MAX
                    &&& final(self).next_id() == old(self).next_id()
                    &&& final(self).issued() == old(self).issued()
                },
            },
    {
        if self.next == u64::MAX {
            return None;
        }
        let id = self.next;
        self.next = id + 1;
        self.issued = Ghost(self.issued@.push(id));
        Some(id)
    }
}

/// Of two flows, the one created first has the smaller identifier.
pub proof fn earlier_flow_has_smaller_id(ids: FlowIds, a: int, b: int)
    requires
        ids.wf(),
        0 <= a < b < ids.issued().len(),
    ensures
        ids.issued()[a] < ids.issued()[b],
{
}

/// What the handlers of one request share: its identifier, a handle to the
/// proxy `P` it runs in, the client's address, and the credentials that
/// authenticated it.
#[derive(Clone, Debug)]
pub struct Flow<P> {
    id: u64,
    app: Arc<P>,
    client: String,
    auth: Option<Credentials>,
}

impl<P> Flow<P> {
    pub closed spec fn app_view(&self) -> Arc<P> {
        self.app
    }

    pub closed spec fn id_view(&self) -> u64 {
        self.id
    }

    pub closed spec fn client_view(&self) -> Seq<char> {
        self.client@
    }

    pub closed spec fn auth_view(&self) -> Option<Credentials> {
        self.auth
    }

    /// Starts a flow for a request from `client` in proxy `app`, with the next identifier
    /// and no credentials; `None` once identifiers are spent.
    pub fn new(ids: &mut FlowIds, app: Arc<P>, client: &str) -> (r: Option<Flow<P>>)
        requires
            old(ids).wf(),
        ensures
            final(ids).wf(),
            match r {
                Some(f) => {
                    &&& f.id_view() == old(ids).next_id()
                    &&& final(ids).issued() == old(ids).issued().push(f.id_view())
                    &&& final(ids).next_id() == f.id_view() + 1
                    &&& f.client_view() == client@
                    &&& f.app_view() == app
                    &&& f.auth_view() is None
                },
                None => final(ids).issued() == old(ids).issued() && old(ids).next_id() == u64::MAX,
            },
    {
        match ids.allocate() {
            Some(id) => Some(Flow { id, app, client: client.to_string(), auth: None }),
            None => None,
        }
    }

    pub fn id(&self) -> (r: u64)
        ensures
            r == self.id_view(),
    {
        self.id
    }

    /// The proxy the flow runs in.
    pub fn app(&self) -> (r: &Arc<P>)
        ensures
            *r == self.app_view(),
    {
        &self.app
    }

    pub fn client(&self) -> (r: &str)
        ensures
            r@ == self.client_view(),
    {
        self.client.as_str()
    }

    pub fn auth(&self) -> (r: Option<&Credentials>)
        ensures
            match r {
                Some(c) => self.auth_view() == Some(*c),
                None => self.auth_view() is None,
            },
    {
        match &self.auth {
            Some(c) => Some(c),
            None => None,
        }
    }

    pub fn auth_mut(&mut self) -> (r: &mut Option<Credentials>)
        ensures
            *r == old(self).auth_view(),
            final(self).auth_view() == *final(r),
            final(self).id_view() == old(self).id_view(),
            final(self).client_view() == old(self).client_view(),
            final(self).app_view() == old(self).app_view(),
    {
        &mut self.auth
    }
}

} // verus!
