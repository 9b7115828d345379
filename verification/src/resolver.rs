//! The resolver handle that is built on first use and shared from then on.

use crate::system_conf::after_get;
use crate::system_conf::after_invalidate;
use crate::system_conf::fetched;
use crate::system_conf::must_read;
use crate::system_conf::SystemConfigCache;
use std::sync::Arc;
use vstd::prelude::*;

verus! {

/// The state cell of a resolver: no engine yet, or the one engine that every
/// lookup shares. There is no way back from `Ready`.
#[derive(Debug)]
pub enum State<R> {
    Init,
    Ready(Arc<R>),
}

/// Why a call could not get a resolver engine.
#[derive(Debug)]
pub enum InitError<E, X> {
    /// The engine had to be built and the system's configuration could not
    /// be read: the error is the one the cache holds.
    Config(Arc<E>),
    /// The construction routine failed: the error is its own.
    Construct(X),
}

/// One lookup that is ready to go out: the engine to ask and the name to ask
/// it for. It holds no part of the resolver's state, so the query needs no
/// access to the state cell, exclusive or other.
#[derive(Debug)]
pub struct PendingLookup<R> {
    pub resolver: Arc<R>,
    pub name: String,
}

/// A name resolver over an engine of type `R` that is built when the first
/// lookup needs it, never before, and never a second time.
///
/// A caller that shares one resolver among concurrent lookups gives each
/// `resolve` exclusive access for the length of that call and no longer.
#[derive(Debug)]
pub struct TrustDnsResolver<R> {
    state: State<R>,
}

impl<R> View for TrustDnsResolver<R> {
    type V = State<R>;

    closed spec fn view(&self) -> State<R> {
        self.state
    }
}

/// Whether a `resolve` that finds the state cell in `state` runs the
/// construction routine.
pub open spec fn must_construct<R>(state: State<R>) -> bool {
    state is Init
}

/// The state cell after a `resolve` that found it in `state`, where `built`
/// is the engine that the construction routine gave, if it ran and did not
/// fail.
pub open spec fn after_resolve<R>(state: State<R>, built: Option<Arc<R>>) -> State<R> {
    match (state, built) {
        (State::Init, Some(resolver)) => State::Ready(resolver),
        _ => state,
    }
}

/// The engine that a `resolve` goes on with, where there is one: the shared
/// one if the state cell holds it, else the one just built.
pub open spec fn resolver_after<R>(state: State<R>, built: Option<Arc<R>>) -> Option<Arc<R>> {
    match state {
        State::Ready(resolver) => Some(resolver),
        State::Init => built,
    }
}

/// `result` is something that building an engine from the snapshot
/// `snapshot` with the routine `construct` can give: on a configuration an
/// outcome of the routine, its engine behind a handle or its error as it is;
/// on a failed read that failure, the routine not run.
pub open spec fn built_from<C, E, R, X, G: FnOnce(Arc<C>) -> Result<R, X>>(
    snapshot: Option<Result<Arc<C>, Arc<E>>>,
    construct: G,
    result: Result<Arc<R>, InitError<E, X>>,
) -> bool {
    match snapshot {
        Some(Ok(config)) => match result {
            Ok(resolver) => construct.ensures((config,), Ok(*resolver)),
            Err(InitError::Construct(error)) => construct.ensures((config,), Err(error)),
            Err(InitError::Config(_)) => false,
        },
        Some(Err(error)) => result matches Err(InitError::Config(e)) && e == error,
        None => false,
    }
}

/// The outcome of a `resolve` without the name: the engine or the failure.
pub open spec fn engine_or_error<R, E, X>(
    result: Result<PendingLookup<R>, InitError<E, X>>,
) -> Result<Arc<R>, InitError<E, X>> {
    match result {
        Ok(lookup) => Ok(lookup.resolver),
        Err(error) => Err(error),
    }
}

/// The engine in the outcome of a `resolve`, if it has one.
pub open spec fn obtained<R, E, X>(result: Result<PendingLookup<R>, InitError<E, X>>) -> Option<
    Arc<R>,
> {
    match result {
        Ok(lookup) => Some(lookup.resolver),
        Err(_) => None,
    }
}

/// Builds an engine from a configuration and puts it behind a handle that
/// can be shared.
pub fn new_resolver_with_config<C, R, X, G: FnOnce(Arc<C>) -> Result<R, X>>(
    config: Arc<C>,
    construct: G,
) -> (result: Result<Arc<R>, X>)
    requires
        construct.requires((config,)),
    ensures
        match result {
            Ok(resolver) => construct.ensures((config,), Ok(*resolver)),
            Err(error) => construct.ensures((config,), Err(error)),
        },
{
    match construct(config) {
        Ok(resolver) => Ok(Arc::new(resolver)),
        Err(error) => Err(error),
    }
}

/// Builds an engine from the system's configuration, which is taken from
/// the cache and read first if the cache holds none.
///
/// Where the configuration cannot be had, nothing is built and the failure
/// that the cache holds comes back as `InitError::Config`.
pub fn new_resolver<C, E, R, X, F, G>(
    conf: &mut SystemConfigCache<C, E>,
    read: F,
    construct: G,
) -> (result: Result<Arc<R>, InitError<E, X>>) where
    F: FnOnce() -> Result<C, E>,
    G: FnOnce(Arc<C>) -> Result<R, X>,

    requires
        must_read(old(conf)@) ==> read.requires(()),
        forall|config: Arc<C>| #[trigger]
            fetched(old(conf)@, read, Some(Ok::<Arc<C>, Arc<E>>(config))) ==> construct.requires(
                (config,),
            ),
    ensures
        fetched(old(conf)@, read, final(conf)@),
        built_from(final(conf)@, construct, result),
{
    match conf.get_or_compute(read) {
        Ok(config) => {
            match new_resolver_with_config(config, construct) {
                Ok(resolver) => Ok(resolver),
                Err(error) => Err(InitError::Construct(error)),
            }
        },
        Err(error) => Err(InitError::Config(error)),
    }
}

impl<R> TrustDnsResolver<R> {
    /// A resolver without an engine, made only where the system's
    /// configuration can be had: it is taken from the cache, and read first
    /// if the cache holds none.
    ///
    /// A configuration that cannot be read makes this fail with the error
    /// that the cache then holds, and no resolver comes to be.
    pub fn new<C, E, F: FnOnce() -> Result<C, E>>(
        conf: &mut SystemConfigCache<C, E>,
        read: F,
    ) -> (result: Result<Self, Arc<E>>)
        requires
            must_read(old(conf)@) ==> read.requires(()),
        ensures
            fetched(old(conf)@, read, final(conf)@),
            match final(conf)@ {
                Some(Ok(_)) => result matches Ok(resolver) && resolver@ is Init,
                Some(Err(error)) => result matches Err(e) && e == error,
                None => false,
            },
            must_read(old(conf)@) && (forall|outcome: Result<C, E>|
                read.ensures((), outcome) ==> outcome is Err) ==> result is Err,
    {
        match conf.get_or_compute(read) {
            Ok(_) => Ok(TrustDnsResolver { state: State::Init }),
            Err(error) => Err(error),
        }
    }

    /// The part of a lookup that needs exclusive access to the resolver:
    /// makes sure that there is an engine, and says what to ask of it.
    ///
    /// A resolver that is ready hands out its engine; neither routine runs
    /// and the cache is not touched. One that is not builds the engine from
    /// the system's configuration and keeps it. Where that fails the resolver
    /// stays without an engine, and the next call tries again.
    ///
    /// The query itself is the caller's to make, after this has returned.
    pub fn resolve<C, E, X, F, G>(
        &mut self,
        name: String,
        conf: &mut SystemConfigCache<C, E>,
        read: F,
        construct: G,
    ) -> (result: Result<PendingLookup<R>, InitError<E, X>>) where
        F: FnOnce() -> Result<C, E>,
        G: FnOnce(Arc<C>) -> Result<R, X>,

        requires
            must_construct(old(self)@) && must_read(old(conf)@) ==> read.requires(()),
            must_construct(old(self)@) ==> forall|config: Arc<C>| #[trigger]
                fetched(old(conf)@, read, Some(Ok::<Arc<C>, Arc<E>>(config)))
                    ==> construct.requires((config,)),
        ensures
            result matches Ok(lookup) ==> lookup.name == name,
            match old(self)@ {
                State::Ready(resolver) => {
                    &&& result matches Ok(lookup) && lookup.resolver == resolver
                    &&& final(self)@ == old(self)@
                    &&& final(conf)@ == old(conf)@
                },
                State::Init => {
                    &&& fetched(old(conf)@, read, final(conf)@)
                    &&& built_from(final(conf)@, construct, engine_or_error(result))
                    &&& final(self)@ == match result {
                        Ok(lookup) => State::Ready(lookup.resolver),
                        Err(_) => State::Init,
                    }
                },
            },
            final(self)@ == after_resolve(old(self)@, obtained(result)),
            obtained(result) == resolver_after(old(self)@, obtained(result)),
    {
        let ready = match &self.state {
            State::Ready(resolver) => Some(Arc::clone(resolver)),
            State::Init => None,
        };
        let resolver = match ready {
            Some(resolver) => resolver,
            None => {
                match new_resolver(conf, read, construct) {
                    Ok(resolver) => {
                        self.state = State::Ready(Arc::clone(&resolver));
                        resolver
                    },
                    Err(error) => {
                        return Err(error);
                    },
                }
            },
        };
        Ok(PendingLookup { resolver, name })
    }
}

/// Invalidating the cache reaches the cache and nothing else. The next
/// `get_or_compute` reads again and keeps what that read gives; a resolver
/// that is ready stays as it is: `resolve` builds nothing and hands out the
/// engine that the state cell holds, the one from before the invalidation.
pub proof fn law_reinitialize_spares_ready_resolver<C, E, R>(
    snapshot: Option<Result<Arc<C>, Arc<E>>>,
    fresh: Result<Arc<C>, Arc<E>>,
    resolver: Arc<R>,
    built: Option<Arc<R>>,
)
    ensures
        must_read(after_invalidate(snapshot)),
        after_get(after_invalidate(snapshot), fresh) == Some(fresh),
        !must_construct(State::Ready(resolver)),
        after_resolve(State::Ready(resolver), built) == State::Ready(resolver),
        resolver_after(State::Ready(resolver), built) == Some(resolver),
{
}

/// A resolver without an engine gets one from the first construction that
/// does not fail, and stays without one until then.
pub proof fn law_init_resolver_takes_first_engine<R>(built: Option<Arc<R>>)
    ensures
        must_construct(State::<R>::Init),
        built matches Some(resolver) ==> after_resolve(State::Init, built) == State::Ready(
            resolver,
        ),
        built is None ==> after_resolve(State::<R>::Init, built) is Init,
        resolver_after(State::Init, built) == built,
{
}

} // verus!
