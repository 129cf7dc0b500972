//! Factories and handlers of many kinds combined behind one route table.

use vstd::prelude::*;
use crate::routing::{HasPath, HasNotFound, routes_to, starts_with, none_before, is_base_of};
use crate::listing::{list_base_paths, listing, bases_of};

verus! {

/// A handler instance of any concrete type, seen through one interface: it turns
/// a request of type `U` into a deferred result of type `F`.
pub trait BoxedService<U, F> {
    /// Hand the request to the wrapped handler.
    fn call(&self, req: U) -> F;
}

/// Handlers of different concrete types stand in one table as trait objects.
impl<U, F> BoxedService<U, F> for Box<dyn BoxedService<U, F>> {
    fn call(&self, req: U) -> F {
        (**self).call(req)
    }
}

/// A handler factory of any concrete type, seen through one interface: it makes
/// a fresh handler of type `S`, or fails with a construction error of type `E`.
pub trait BoxedNewService<S, E> {
    /// Make a new handler.
    fn boxed_new_service(&self) -> Result<S, E>;
}

/// Factories of different concrete types stand in one table as trait objects.
impl<S, E> BoxedNewService<S, E> for Box<dyn BoxedNewService<S, E>> {
    fn boxed_new_service(&self) -> Result<S, E> {
        (**self).boxed_new_service()
    }
}

/// What the composite handler did with a request.
pub enum Routed<F, V> {
    /// The handler at `index` took the request and gave `result`, unchanged.
    Delegated { index: usize, result: F },
    /// No base path matched: the canonical "not found" response.
    NotFound(V),
}

impl<F, V> Routed<F, V> {
    /// The position of the handler that took the request, if one did.
    pub open spec fn handler(&self) -> Option<usize> {
        match self {
            Routed::Delegated { index, .. } => Some(*index),
            Routed::NotFound(_) => None,
        }
    }
}

/// A list of factories, each with a base path, in the order they were added.
/// The handler it builds passes a request to the first handler whose base path is
/// a prefix of the request's path, or answers "not found" where none is.
pub struct CompositeNewService<N> {
    routes: Vec<(&'static str, N)>,
}

/// A list of live handlers, each with a base path, in registration order.
pub struct CompositeService<S> {
    routes: Vec<(&'static str, S)>,
}

impl<N> CompositeNewService<N> {
    /// The registered base paths, in order.
    pub closed spec fn paths(&self) -> Seq<Seq<char>> {
        bases_of(self.routes@)
    }

    /// The registered factories, in order; the one at position `i` goes with the
    /// base path at position `i` of `paths`.
    pub closed spec fn factories(&self) -> Seq<N> {
        self.routes@.map_values(|e: (&'static str, N)| e.1)
    }

    /// Create an empty CompositeNewService.
    pub fn new() -> (r: Self)
        ensures
            r.paths() == Seq::<Seq<char>>::empty(),
            r.factories() == Seq::<N>::empty(),
    {
        let r = CompositeNewService { routes: Vec::new() };
        assert(r.paths() =~= Seq::<Seq<char>>::empty());
        assert(r.factories() =~= Seq::<N>::empty());
        r
    }

    /// Add a factory with a base path at the end of the list.
    pub fn append_new_service(
        &mut self,
        base_path: &'static str,
        new_service: N,
    )
        ensures
            final(self).paths() == old(self).paths().push(base_path@),
            final(self).factories() == old(self).factories().push(new_service),
    {
        self.routes.push((base_path, new_service));
        assert(self.paths() =~= old(self).paths().push(base_path@));
        assert(self.factories() =~= old(self).factories().push(new_service));
    }

    /// Build a handler for one execution context: every factory is asked for a
    /// handler, in order. The first construction error is returned at once, and
    /// no handler is kept; otherwise each base path is paired with its new
    /// handler, in the same order.
    pub fn new_service<S, E>(&self) -> (r: Result<CompositeService<S>, E>)
        where
            N: BoxedNewService<S, E>,
        ensures
            self.paths().len() == 0 ==> r is Ok,
            r matches Ok(s) ==> s.paths() == self.paths(),
    {
        let mut vec: Vec<(&'static str, S)> = Vec::new();
        let mut i: usize = 0;
        while i < self.routes.len()
            invariant
                i <= self.routes.len(),
                vec@.len() == i,
                forall|j: int| 0 <= j < i ==> (#[trigger] vec@[j]).0@ == self.routes@[j].0@,
            decreases self.routes.len() - i,
        {
            let base_path = self.routes[i].0;
            match self.routes[i].1.boxed_new_service() {
                Ok(service) => vec.push((base_path, service)),
                Err(e) => return Err(e),
            }
            i += 1;
        }
        let s = CompositeService { routes: vec };
        assert(s.paths() =~= self.paths());
        Ok(s)
    }

    /// The registered base paths in order, as a diagnostic line:
    /// `CompositeNewService accepting base paths: ["/a", "/b"]`.
    pub fn describe(&self) -> (r: String)
        ensures
            r@ == listing("CompositeNewService"@, self.paths()),
    {
        list_base_paths("CompositeNewService", &self.routes)
    }
}

impl<S> CompositeService<S> {
    /// The base paths of the handlers, in order.
    pub closed spec fn paths(&self) -> Seq<Seq<char>> {
        bases_of(self.routes@)
    }

    /// The number of handlers.
    pub fn len(&self) -> (r: usize)
        ensures
            r == self.paths().len(),
    {
        self.routes.len()
    }

    /// The position of the first handler whose base path is a prefix of `path`,
    /// or `None` where there is none.
    pub fn route(&self, path: &str) -> (r: Option<usize>)
        ensures
            routes_to(self.paths(), path@, r),
    {
        let mut i: usize = 0;
        while i < self.routes.len()
            invariant
                i <= self.routes.len(),
                none_before(self.paths(), path@, i as int),
            decreases self.routes.len() - i,
        {
            if starts_with(path, self.routes[i].0) {
                return Some(i);
            }
            proof {
                assert(!is_base_of(self.paths()[i as int], path@));
            }
            i += 1;
        }
        None
    }

    /// The registered base paths in order, as a diagnostic line:
    /// `CompositeService accepting base paths: ["/a", "/b"]`.
    pub fn describe(&self) -> (r: String)
        ensures
            r@ == listing("CompositeService"@, self.paths()),
    {
        list_base_paths("CompositeService", &self.routes)
    }

    /// Hand the request to the first handler whose base path is a prefix of the
    /// request's path and give back what it returns, or the "not found" response
    /// where no base path matches. The choice is that of `route` on the path
    /// that the request reports.
    pub fn call<U, F, V>(&self, req: U) -> (r: Routed<F, V>)
        where
            U: HasPath,
            S: BoxedService<U, F>,
            V: HasNotFound,
        ensures
            exists|p: Seq<char>| routes_to(self.paths(), p, #[trigger] r.handler()),
    {
        let path = req.path();
        let ghost p = path@;
        let r = match self.route(path) {
            Some(index) => Routed::Delegated { index, result: self.routes[index].1.call(req) },
            None => Routed::NotFound(V::not_found()),
        };
        assert(routes_to(self.paths(), p, r.handler()));
        r
    }
}

/// The factory's listing is a function of its base paths alone: two factories
/// with the same base paths in the same order describe themselves alike, and one
/// factory describes itself alike each time.
pub proof fn lemma_describe_depends_on_paths<N>(
    a: &CompositeNewService<N>,
    b: &CompositeNewService<N>,
)
    requires
        a.paths() == b.paths(),
    ensures
        listing("CompositeNewService"@, a.paths()) == listing("CompositeNewService"@, b.paths()),
{
}

} // verus!
