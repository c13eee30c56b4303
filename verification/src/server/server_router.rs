//! The server router: handlers are registered under a name and the structure
//! types they serve, numbered in registration order, and then committed; a
//! request header is then routed to the handler with its id if that handler
//! serves the requested structure type, and a name lookup is answered with
//! the id of the handler registered last under that name.

use vstd::prelude::*;
use vstd::slice::slice_to_vec;
use vstd::utf8::encode_utf8;
use crate::structures::s_type::{HandlerMetaAns, ServerError, ServerErrorEn, SystemSType, TypeContainer, TypeTuple};

verus! {

/// Position of the last occurrence of `name` in `names`.
pub open spec fn last_index_of(names: Seq<Seq<char>>, name: Seq<char>) -> Option<int>
    decreases names.len(),
{
    if names.len() == 0 {
        None
    } else if names.last() == name {
        Some(names.len() - 1)
    } else {
        last_index_of(names.drop_last(), name)
    }
}

proof fn lemma_last_index_of_bounds(names: Seq<Seq<char>>, name: Seq<char>)
    ensures
        last_index_of(names, name) matches Some(i) ==> 0 <= i < names.len() && names[i] == name,
    decreases names.len(),
{
    if names.len() > 0 && names.last() != name {
        lemma_last_index_of_bounds(names.drop_last(), name);
    }
}

/// A name lookup finds the handler registered last under that name: a new
/// registration takes over its own name and leaves every other name's answer
/// as it was.
pub proof fn lemma_last_registration_wins(names: Seq<Seq<char>>, added: Seq<char>, other: Seq<char>)
    requires
        other != added,
    ensures
        last_index_of(names.push(added), added) == Some(names.len() as int),
        last_index_of(names.push(added), other) == last_index_of(names, other),
{
    assert(names.push(added).drop_last() =~= names);
}

/// A name lookup answers the id of the `k`-th registration (ids count
/// registrations from 0) when that registration used the name and no later
/// one reused it.
pub proof fn lemma_lookup_answers_registration(names: Seq<Seq<char>>, k: int)
    requires
        0 <= k < names.len(),
        forall|j: int| k < j < names.len() ==> #[trigger] names[j] != names[k],
    ensures
        last_index_of(names, names[k]) == Some(k),
    decreases names.len(),
{
    if k < names.len() - 1 {
        let p = names.drop_last();
        assert forall|j: int| k < j < p.len() implies #[trigger] p[j] != p[k] by {
            assert(p[j] == names[j]);
        }
        lemma_lookup_answers_registration(p, k);
    }
}

/// A request header as the server decoded it.
pub enum IncomingMeta {
    /// A request for handler `handler_id` carrying structure type `s_type_req`
    /// (of the project's structure-type enum).
    Packet { s_type_req: TypeContainer, handler_id: u64 },
    /// A request for the id of the handler registered under this name.
    HandlerLookup(String),
    /// Neither.
    Malformed,
}

/// What the server does with a request header.
pub enum RouteDecision<'a, R> {
    /// Hand the request to this route.
    Dispatch(&'a R),
    /// Answer directly with this handler id.
    Answer(HandlerMetaAns),
    /// Answer with this error.
    Reject(ServerError),
}

/// How a dispatched handler finished.
pub enum HandlerOutcome {
    /// It produced a response.
    Served(Vec<u8>),
    /// It reported an error with these bytes.
    Failed(Vec<u8>),
    /// It panicked.
    Died,
}

/// Routes of a server. `R` is whatever the runtime invokes for a route.
pub struct TfServerRouter<R> {
    routes: Vec<(TypeTuple, R)>,
    routes_text_names: Vec<(String, u64)>,
    routes_to_add: Vec<(TypeTuple, (R, String))>,
    router_incremental: u64,
    routes_commited: bool,
    names: Ghost<Seq<Seq<char>>>,
}

impl<R> TfServerRouter<R> {
    /// Well-formedness: handler ids are registration positions, and after
    /// commit the name table lists every route's name with its id.
    pub closed spec fn wf(&self) -> bool {
        if self.routes_commited {
            &&& self.routes_to_add@.len() == 0
            &&& self.router_incremental == self.routes@.len()
            &&& self.names@.len() == self.routes@.len()
            &&& self.routes_text_names@.len() == self.routes@.len()
            &&& forall|i: int| 0 <= i < self.routes@.len() ==> (#[trigger] self.routes@[i]).0.handler_id == i
            &&& forall|i: int|
                0 <= i < self.routes_text_names@.len() ==> (#[trigger] self.routes_text_names@[i]).0@
                    == self.names@[i] && self.routes_text_names@[i].1 == i
        } else {
            &&& self.routes@.len() == 0
            &&& self.routes_text_names@.len() == 0
            &&& self.router_incremental == self.routes_to_add@.len()
            &&& self.names@.len() == self.routes_to_add@.len()
            &&& forall|i: int|
                0 <= i < self.routes_to_add@.len() ==> (#[trigger] self.routes_to_add@[i]).0.handler_id == i
                    && self.routes_to_add@[i].1.1@ == self.names@[i]
        }
    }

    /// Whether the registered routes have been committed (and registration
    /// is closed).
    pub closed spec fn is_committed(&self) -> bool {
        self.routes_commited
    }

    /// The registered routes in registration order (a route's index is its
    /// handler id): the structure types (enum id, code) it serves and the route.
    pub closed spec fn routes_view(&self) -> Seq<(Set<(u64, u64)>, R)> {
        if self.routes_commited {
            Seq::new(self.routes@.len(), |i: int| (self.routes@[i].0.type_set(), self.routes@[i].1))
        } else {
            Seq::new(self.routes_to_add@.len(), |i: int| (self.routes_to_add@[i].0.type_set(), self.routes_to_add@[i].1.0))
        }
    }

    /// The names the routes were registered under, in registration order.
    pub closed spec fn names_view(&self) -> Seq<Seq<char>> {
        self.names@
    }

    /// Whether the routes are committed.
    pub fn routes_commited(&self) -> (r: bool)
        ensures
            r == self.is_committed(),
    {
        self.routes_commited
    }

    /// How many routes are registered (committed or not).
    pub fn route_count(&self) -> (r: u64)
        requires
            self.wf(),
        ensures
            r == self.routes_view().len(),
            r == self.names_view().len(),
    {
        self.router_incremental
    }

    /// Every registered route has exactly one registered name: the name of
    /// the route with handler id `i` is `names_view()[i]`.
    pub proof fn lemma_one_name_per_route(&self)
        requires
            self.wf(),
        ensures
            self.names_view().len() == self.routes_view().len(),
    {
    }

    /// An empty router, open for registration.
    pub fn new() -> (r: TfServerRouter<R>)
        ensures
            r.wf(),
            !r.is_committed(),
            r.routes_view() == Seq::<(Set<(u64, u64)>, R)>::empty(),
            r.names_view() == Seq::<Seq<char>>::empty(),
            r.names_view().len() == r.routes_view().len(),
    {
        let r = TfServerRouter {
            routes: Vec::new(),
            routes_text_names: Vec::new(),
            routes_to_add: Vec::new(),
            router_incremental: 0,
            routes_commited: false,
            names: Ghost(Seq::empty()),
        };
        assert(r.routes_view() =~= Seq::<(Set<(u64, u64)>, R)>::empty());
        r
    }

    /// Registers `route` under `handler_name` for the structure types
    /// `s_types`; it gets the next handler id. Ignored once the routes are
    /// committed.
    pub fn add_route(&mut self, route: R, handler_name: String, s_types: Vec<TypeContainer>)
        requires
            old(self).wf(),
            old(self).is_committed() || old(self).routes_view().len() < u64::MAX,
        ensures
            final(self).wf(),
            final(self).names_view().len() == final(self).routes_view().len(),
            final(self).is_committed() == old(self).is_committed(),
            old(self).is_committed() ==> final(self).routes_view() == old(self).routes_view()
                && final(self).names_view() == old(self).names_view(),
            !old(self).is_committed() ==> final(self).routes_view() == old(self).routes_view().push(
                (Set::new(|x: (u64, u64)| exists|i: int| 0 <= i < s_types@.len() && #[trigger] s_types@[i]@ == x), route),
            ) && final(self).names_view() == old(self).names_view().push(handler_name@),
    {
        if self.routes_commited {
            return;
        }
        let ghost old_view = self.routes_view();
        let types_tuple = TypeTuple::new(&s_types, self.router_incremental);
        let ghost name = handler_name@;
        let mut pending: Vec<(TypeTuple, (R, String))> = Vec::new();
        std::mem::swap(&mut pending, &mut self.routes_to_add);
        pending.push((types_tuple, (route, handler_name)));
        let next = self.router_incremental + 1;
        self.routes_to_add = pending;
        self.router_incremental = next;
        self.names = Ghost(self.names@.push(name));
        assert(self.routes_view() =~= old_view.push(
            (Set::new(|x: (u64, u64)| exists|i: int| 0 <= i < s_types@.len() && #[trigger] s_types@[i]@ == x), route),
        ));
    }

    /// Commits the registered routes: from then on requests are routed to
    /// them and registration is closed. Does nothing when already committed
    /// or when nothing is registered.
    pub fn commit_routes(&mut self)
        requires
            old(self).wf(),
        ensures
            final(self).wf(),
            final(self).names_view().len() == final(self).routes_view().len(),
            final(self).routes_view() == old(self).routes_view(),
            final(self).names_view() == old(self).names_view(),
            final(self).is_committed() == (old(self).is_committed() || old(self).routes_view().len() > 0),
    {
        if self.routes_commited || self.routes_to_add.len() == 0 {
            return;
        }
        let ghost old_view = self.routes_view();
        let mut pending: Vec<(TypeTuple, (R, String))> = Vec::new();
        std::mem::swap(&mut pending, &mut self.routes_to_add);
        let ghost all = pending@;
        let n = pending.len();
        let mut routes: Vec<(TypeTuple, R)> = Vec::new();
        let mut names: Vec<(String, u64)> = Vec::new();
        while pending.len() > 0
            invariant
                n == all.len(),
                pending@ == all.subrange(routes@.len() as int, n as int),
                names@.len() == routes@.len(),
                routes@.len() <= n,
                n == self.names@.len(),
                forall|i: int| 0 <= i < n ==> (#[trigger] all[i]).0.handler_id == i && all[i].1.1@ == self.names@[i],
                forall|i: int| 0 <= i < routes@.len() ==> (#[trigger] routes@[i]).0 == all[i].0 && routes@[i].1 == all[i].1.0,
                forall|i: int| 0 <= i < names@.len() ==> (#[trigger] names@[i]).0@ == self.names@[i] && names@[i].1 == i,
            decreases pending@.len(),
        {
            let (types, (route, name)) = pending.remove(0);
            let id = types.handler_id;
            routes.push((types, route));
            names.push((name, id));
        }
        self.routes = routes;
        self.routes_text_names = names;
        self.routes_commited = true;
        assert(self.routes_view() =~= old_view);
    }

    /// The committed routes with their keys (empty before commit).
    pub fn get_routes(&self) -> (r: &[(TypeTuple, R)])
        requires
            self.wf(),
        ensures
            self.is_committed() ==> r@.len() == self.routes_view().len() && forall|i: int|
                0 <= i < r@.len() ==> (#[trigger] r@[i]).0.handler_id == i && r@[i].0.type_set()
                    == self.routes_view()[i].0 && r@[i].1 == self.routes_view()[i].1,
            !self.is_committed() ==> r@.len() == 0,
    {
        self.routes.as_slice()
    }

    /// The committed route for structure type `s_type_req` at handler
    /// `handler_id`: present only if that handler serves the structure type.
    pub fn find_route(&self, s_type_req: TypeContainer, handler_id: u64) -> (r: Option<&R>)
        requires
            self.wf(),
        ensures
            r is Some <==> (self.is_committed() && handler_id < self.routes_view().len()
                && self.routes_view()[handler_id as int].0.contains(s_type_req@)),
            r matches Some(route) ==> *route == self.routes_view()[handler_id as int].1,
    {
        if !self.routes_commited {
            return None;
        }
        if handler_id >= self.routes.len() as u64 {
            return None;
        }
        let entry = &self.routes[handler_id as usize];
        if entry.0.serves(&s_type_req) {
            Some(&entry.1)
        } else {
            None
        }
    }

    /// The id of the handler registered last under `name`, once committed.
    pub fn find_handler_id(&self, name: &String) -> (r: Option<u64>)
        requires
            self.wf(),
        ensures
            !self.is_committed() ==> r is None,
            self.is_committed() ==> match last_index_of(self.names_view(), name@) {
                Some(i) => r == Some(i as u64),
                None => r is None,
            },
    {
        if !self.routes_commited {
            return None;
        }
        let ghost names = self.names@;
        let mut i: usize = self.routes_text_names.len();
        assert(names.subrange(0, i as int) =~= names);
        while i > 0
            invariant
                self.is_committed(),
                names == self.names@,
                i <= self.routes_text_names@.len(),
                self.routes_text_names@.len() == names.len(),
                forall|j: int| 0 <= j < names.len() ==> (#[trigger] self.routes_text_names@[j]).0@ == names[j]
                    && self.routes_text_names@[j].1 == j,
                last_index_of(names, name@) == last_index_of(names.subrange(0, i as int), name@),
            decreases i,
        {
            let entry = &self.routes_text_names[i - 1];
            if entry.0 == *name {
                assert(names.subrange(0, i as int).last() == name@);
                return Some(entry.1);
            }
            assert(names.subrange(0, i as int).drop_last() =~= names.subrange(0, i - 1));
            i = i - 1;
        }
        None
    }

    /// Decides what to do with a request header: dispatch a packet to the
    /// route of its handler if that handler serves its structure type, else
    /// refuse it with `NoSuchHandler`; answer a name lookup with the handler
    /// id, else refuse it with `NoSuchHandler`; refuse anything else with
    /// `MalformedMetaInfo`.
    pub fn route_packet<'a>(&'a self, meta: &IncomingMeta) -> (d: RouteDecision<'a, R>)
        requires
            self.wf(),
        ensures
            meta matches IncomingMeta::Packet { s_type_req, handler_id } ==> {
                let found = self.is_committed() && *handler_id < self.routes_view().len()
                    && self.routes_view()[*handler_id as int].0.contains(s_type_req@);
                &&& found ==> (d matches RouteDecision::Dispatch(r) && *r == self.routes_view()[*handler_id as int].1)
                &&& !found ==> (d matches RouteDecision::Reject(e) && e.spec_s_type() == SystemSType::ServerError
                    && (e.spec_en() matches ServerErrorEn::NoSuchHandler(None)))
            },
            meta matches IncomingMeta::HandlerLookup(name) ==> {
                let found = self.is_committed() && last_index_of(self.names_view(), name@) is Some;
                &&& found ==> (d matches RouteDecision::Answer(a) && a.s_type == SystemSType::HandlerMetaAns
                    && a.id == last_index_of(self.names_view(), name@)->0)
                &&& !found ==> (d matches RouteDecision::Reject(e) && e.spec_s_type() == SystemSType::ServerError
                    && (e.spec_en() matches ServerErrorEn::NoSuchHandler(None)))
            },
            meta is Malformed ==> (d matches RouteDecision::Reject(e) && e.spec_s_type() == SystemSType::ServerError
                && (e.spec_en() matches ServerErrorEn::MalformedMetaInfo(None))),
    {
        match meta {
            IncomingMeta::Packet { s_type_req, handler_id } => match self.find_route(*s_type_req, *handler_id) {
                Some(route) => RouteDecision::Dispatch(route),
                None => RouteDecision::Reject(ServerError::new(ServerErrorEn::NoSuchHandler(None))),
            },
            IncomingMeta::HandlerLookup(name) => match self.find_handler_id(name) {
                Some(id) => {
                    proof {
                        lemma_last_index_of_bounds(self.names_view(), name@);
                    }
                    RouteDecision::Answer(HandlerMetaAns { s_type: SystemSType::HandlerMetaAns, id })
                },
                None => RouteDecision::Reject(ServerError::new(ServerErrorEn::NoSuchHandler(None))),
            },
            IncomingMeta::Malformed => RouteDecision::Reject(ServerError::new(ServerErrorEn::MalformedMetaInfo(None))),
        }
    }
}

/// The answer to a dispatched request: the handler's response, or an
/// internal error carrying the handler's error bytes, or the text
/// `handler died :(` when the handler panicked.
pub fn serve_outcome(outcome: HandlerOutcome) -> (r: Result<Vec<u8>, ServerError>)
    ensures
        outcome matches HandlerOutcome::Served(data) ==> r == Ok::<Vec<u8>, ServerError>(data),
        outcome matches HandlerOutcome::Failed(err) ==> (r matches Err(e) && e.spec_s_type() == SystemSType::ServerError
            && e.spec_en() == ServerErrorEn::InternalError(Some(err))),
        outcome is Died ==> (r matches Err(e) && e.spec_s_type() == SystemSType::ServerError
            && (e.spec_en() matches ServerErrorEn::InternalError(Some(v)) && v@ == encode_utf8("handler died :("@))),
{
    match outcome {
        HandlerOutcome::Served(data) => Ok(data),
        HandlerOutcome::Failed(err) => Err(ServerError::new(ServerErrorEn::InternalError(Some(err)))),
        HandlerOutcome::Died => Err(ServerError::new(ServerErrorEn::InternalError(Some(slice_to_vec("handler died :(".as_bytes()))))),
    }
}

} // verus!
