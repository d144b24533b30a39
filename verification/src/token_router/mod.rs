//! Routes SV1 downstreams to the upstream of the token that they mine for.
use vstd::prelude::*;

use crate::net::SocketAddr;

pub mod connection;
pub mod creation;
pub mod registry;
pub mod token;

use registry::InstanceRegistry;

verus! {

/// Where the addresses of the pool come from.
pub enum PoolAddressSource {
    /// They are given.
    Static(Vec<SocketAddr>),
    /// They are asked for by token.
    Dynamic,
}

/// What is known about the addresses of the pool.
pub enum Resolution {
    Known(Vec<SocketAddr>),
    /// There are none.
    Unavailable,
    /// They have to be asked for, and the answer is for [`TokenRouter::on_fetched`].
    Fetch,
}

/// What a [`Resolution`] stands for.
pub ghost enum ResolutionView {
    Known(Seq<SocketAddr>),
    Unavailable,
    Fetch,
}

impl View for Resolution {
    type V = ResolutionView;

    open spec fn view(&self) -> ResolutionView {
        match *self {
            Resolution::Known(addresses) => ResolutionView::Known(addresses@),
            Resolution::Unavailable => ResolutionView::Unavailable,
            Resolution::Fetch => ResolutionView::Fetch,
        }
    }
}

/// What is known about the addresses of the pool, given those that were asked for earlier.
pub open spec fn resolved(source: PoolAddressSource, cached: Option<Seq<SocketAddr>>) ->
    ResolutionView {
    match source {
        PoolAddressSource::Static(addresses) => if addresses@.len() == 0 {
            ResolutionView::Unavailable
        } else {
            ResolutionView::Known(addresses@)
        },
        PoolAddressSource::Dynamic => match cached {
            Some(addresses) => ResolutionView::Known(addresses),
            None => ResolutionView::Fetch,
        },
    }
}

/// The addresses that are kept after some were asked for: those of the answer, unless there are
/// none.
pub open spec fn cached_after(
    cached: Option<Seq<SocketAddr>>,
    fetched: Option<Seq<SocketAddr>>,
) -> Option<Seq<SocketAddr>> {
    match fetched {
        Some(addresses) => if addresses.len() == 0 {
            cached
        } else {
            Some(addresses)
        },
        None => cached,
    }
}

/// The addresses that are asked for are asked for until there is an answer, and never after.
pub proof fn law_fetched_once(
    source: PoolAddressSource,
    cached: Option<Seq<SocketAddr>>,
    fetched: Option<Seq<SocketAddr>>,
)
    requires
        resolved(source, cached) is Fetch,
    ensures
        resolved(source, cached_after(cached, fetched)) == (match fetched {
            Some(addresses) => if addresses.len() == 0 {
                ResolutionView::Fetch
            } else {
                ResolutionView::Known(addresses)
            },
            None => ResolutionView::Fetch,
        }),
{
}

/// Addresses that were given are used as they are, and those that were asked for once are used from
/// then on as they are. Only where there are neither is there something to ask for, and only an
/// empty list that was given leaves nothing.
pub proof fn law_addresses_are_used_as_they_are(
    source: PoolAddressSource,
    cached: Option<Seq<SocketAddr>>,
    addresses: Seq<SocketAddr>,
)
    ensures
        resolved(source, cached) == ResolutionView::Known(addresses) <==> match source {
            PoolAddressSource::Static(given) => given@ == addresses && addresses.len() > 0,
            PoolAddressSource::Dynamic => cached == Some(addresses),
        },
        resolved(source, cached) is Unavailable <==> (source matches PoolAddressSource::Static(given)
            && given@.len() == 0),
        resolved(source, cached) is Fetch <==> source is Dynamic && cached is None,
{
}

/// An answer with addresses is kept as it is, in place of what was kept, and any other answer leaves
/// what was kept.
pub proof fn law_answers_are_kept(
    cached: Option<Seq<SocketAddr>>,
    fetched: Option<Seq<SocketAddr>>,
)
    ensures
        fetched matches Some(addresses) && addresses.len() > 0 ==> cached_after(cached, fetched)
            == fetched,
        fetched is None ==> cached_after(cached, fetched) == cached,
        fetched matches Some(addresses) && addresses.len() == 0 ==> cached_after(cached, fetched)
            == cached,
{
}

/// The addresses of the pool that were asked for earlier, if there were any. They are never an
/// empty list.
pub struct PoolCache {
    addresses: Option<Vec<SocketAddr>>,
}

impl View for PoolCache {
    type V = Option<Seq<SocketAddr>>;

    closed spec fn view(&self) -> Option<Seq<SocketAddr>> {
        match self.addresses {
            Some(addresses) => Some(addresses@),
            None => None,
        }
    }
}

impl PoolCache {
    #[verifier::type_invariant]
    spec fn is_worth_keeping(self) -> bool {
        self.addresses matches Some(addresses) ==> addresses@.len() > 0
    }

    /// No addresses.
    pub fn new() -> (cache: Self)
        ensures
            cache@ is None,
    {
        PoolCache { addresses: None }
    }

    /// The addresses, if there are any.
    pub fn get(&self) -> (addresses: Option<&Vec<SocketAddr>>)
        ensures
            match addresses {
                Some(list) => self@ == Some(list@) && list@.len() > 0,
                None => self@ is None,
            },
    {
        proof {
            use_type_invariant(self);
        }
        match &self.addresses {
            Some(list) => Some(list),
            None => None,
        }
    }

    /// Keeps addresses, in place of those that were kept.
    pub fn set(&mut self, addresses: Vec<SocketAddr>)
        requires
            addresses@.len() > 0,
        ensures
            final(self)@ == Some(addresses@),
    {
        self.addresses = Some(addresses);
    }
}

/// The router: the upstreams, and all that is needed to create another one. `I` is an upstream,
/// `N` what is waited for while one is being created, `K` the key of the pool, and `St` what takes
/// the statistics.
pub struct TokenRouter<I, N, K, St> {
    pub instances: InstanceRegistry<I, N>,
    pub pool_addresses: PoolAddressSource,
    /// The addresses of the pool that were asked for earlier.
    pub pool_cache: PoolCache,
    pub auth_pub_k: K,
    pub stats_sender: St,
    pub signature: String,
}

impl<I, N, K, St> TokenRouter<I, N, K, St> {
    /// A router without upstreams.
    pub fn new(
        pool_addresses: PoolAddressSource,
        auth_pub_k: K,
        stats_sender: St,
        signature: String,
    ) -> (router: Self)
        ensures
            router.instances@ == Map::<Seq<char>, registry::InstanceEntry<I, N>>::empty(),
            router.pool_addresses == pool_addresses,
            router.pool_cache@ is None,
            router.auth_pub_k == auth_pub_k,
            router.stats_sender == stats_sender,
            router.signature == signature,
    {
        TokenRouter {
            instances: InstanceRegistry::new(),
            pool_addresses,
            pool_cache: PoolCache::new(),
            auth_pub_k,
            stats_sender,
            signature,
        }
    }

    /// Decides where the addresses of the pool come from. Those that were asked for once are not
    /// asked for again, for whichever token.
    pub fn resolve_pool_addresses(&self) -> (resolution: Resolution)
        ensures
            resolution@ == resolved(self.pool_addresses, self.pool_cache@),
            resolution@ matches ResolutionView::Known(known) ==> known.len() > 0,
    {
        match &self.pool_addresses {
            PoolAddressSource::Static(addresses) => {
                if addresses.len() == 0 {
                    Resolution::Unavailable
                } else {
                    Resolution::Known(copy_addresses(addresses))
                }
            },
            PoolAddressSource::Dynamic => match self.pool_cache.get() {
                Some(addresses) => Resolution::Known(copy_addresses(addresses)),
                None => Resolution::Fetch,
            },
        }
    }

    /// Takes the addresses that were asked for, if there was an answer. An empty list is as good as
    /// none; any other one is kept.
    pub fn on_fetched(&mut self, fetched: Option<Vec<SocketAddr>>) -> (addresses: Option<
        Vec<SocketAddr>,
    >)
        ensures
            final(self).instances == old(self).instances,
            final(self).pool_addresses == old(self).pool_addresses,
            final(self).auth_pub_k == old(self).auth_pub_k,
            final(self).stats_sender == old(self).stats_sender,
            final(self).signature == old(self).signature,
            final(self).pool_cache@ == cached_after(
                old(self).pool_cache@,
                match fetched {
                    Some(list) => Some(list@),
                    None => None,
                },
            ),
            addresses == (match fetched {
                Some(list) => if list@.len() == 0 {
                    None
                } else {
                    fetched
                },
                None => None,
            }),
    {
        match fetched {
            Some(list) => {
                if list.len() == 0 {
                    return None;
                }
                self.pool_cache.set(copy_addresses(&list));
                Some(list)
            },
            None => None,
        }
    }
}

/// A copy of a list of addresses.
fn copy_addresses(addresses: &Vec<SocketAddr>) -> (copy: Vec<SocketAddr>)
    ensures
        copy@ == addresses@,
{
    let copy = addresses.clone();
    proof {
        assert(copy@ =~= addresses@);
    }
    copy
}

/// Addresses that are asked for and come in are used, then and from then on, as they came. An answer
/// without any is as good as none, and leaves things as they were.
pub proof fn law_fetched_addresses_are_used<I, N, K, St>(
    router: &mut TokenRouter<I, N, K, St>,
    fetched: Option<Vec<SocketAddr>>,
    addresses: Option<Vec<SocketAddr>>,
    resolution: Resolution,
)
    requires
        old(router).pool_addresses is Dynamic,
        call_ensures(TokenRouter::<I, N, K, St>::on_fetched, (router, fetched), addresses),
        call_ensures(
            TokenRouter::<I, N, K, St>::resolve_pool_addresses,
            (&*final(router),),
            resolution,
        ),
    ensures
        match fetched {
            Some(list) => if list@.len() > 0 {
                &&& addresses matches Some(used) && used@ == list@
                &&& resolution matches Resolution::Known(known) && known@ == list@
            } else {
                &&& addresses is None
                &&& final(router).pool_cache@ == old(router).pool_cache@
            },
            None => {
                &&& addresses is None
                &&& final(router).pool_cache@ == old(router).pool_cache@
            },
        },
        final(router).instances == old(router).instances,
        final(router).signature == old(router).signature,
{
}

/// Addresses that are given are used as they are, unless there are none, and are never asked for.
/// Where they have to be asked for, a new router has to ask.
pub proof fn law_given_addresses_are_used<I, N, K, St>(
    pool_addresses: PoolAddressSource,
    auth_pub_k: K,
    stats_sender: St,
    signature: String,
    router: TokenRouter<I, N, K, St>,
    resolution: Resolution,
)
    requires
        call_ensures(
            TokenRouter::<I, N, K, St>::new,
            (pool_addresses, auth_pub_k, stats_sender, signature),
            router,
        ),
        call_ensures(TokenRouter::<I, N, K, St>::resolve_pool_addresses, (&router,), resolution),
    ensures
        match pool_addresses {
            PoolAddressSource::Static(given) => if given@.len() == 0 {
                resolution is Unavailable
            } else {
                resolution matches Resolution::Known(known) && known@ == given@
            },
            PoolAddressSource::Dynamic => resolution is Fetch,
        },
        router.auth_pub_k == auth_pub_k,
        router.stats_sender == stats_sender,
        router.signature == signature,
{
}

/// What is kept is what was set last.
pub proof fn law_cache_gives_back(
    cache: &mut PoolCache,
    addresses: Vec<SocketAddr>,
    given: Option<&Vec<SocketAddr>>,
)
    requires
        addresses@.len() > 0,
        call_ensures(PoolCache::set, (cache, addresses), ()),
        call_ensures(PoolCache::get, (&*final(cache),), given),
    ensures
        given matches Some(list) && list@ == addresses@,
{
}

} // verus!
