use vstd::prelude::*;

use crate::errors::{GatedOption, GenError};

verus! {

/// One configuration item, as the configuration-parsing collaborator hands
/// it over. Expression and type payloads (a duration expression, a hasher
/// type path, a constructor call) are carried as their source text and never
/// interpreted here.
#[derive(Debug)]
pub enum CacheOption {
    /// `Capacity: <positive integer>` — bound the cache and evict by
    /// least-recent use.
    LruMaxEntries(usize),
    /// `TimeToLive: <duration expression>` — treat entries older than the
    /// duration as stale.
    TimeToLive(String),
    /// `SharedCache` — one process-wide storage instance behind a lock.
    SharedCache,
    /// `CustomHasher: <type reference>` — storage type replacing the default
    /// map.
    CustomHasher(String),
    /// `HasherInit: <constructor expression>` — initializer for the custom
    /// hasher.
    HasherInit(String),
    /// `Ignore: <parameter name>` — exclude one parameter from the cache key.
    Ignore(String),
}

/// The resolved configuration: the fold of a list of configuration items,
/// where the last occurrence of a scalar option wins and ignored parameter
/// names accumulate in order.
#[derive(Debug)]
pub struct CacheOptions {
    pub lru_max_entries: Option<usize>,
    pub time_to_live: Option<String>,
    pub shared_cache: bool,
    pub custom_hasher: Option<String>,
    pub custom_hasher_initializer: Option<String>,
    pub ignore: Vec<String>,
}

/// The text of an optional textual payload.
pub open spec fn opt_str_view(o: Option<String>) -> Option<Seq<char>> {
    match o {
        Option::Some(s) => Option::Some(s@),
        Option::None => Option::None,
    }
}

/// The capacity given by the last `Capacity` item, if any.
pub open spec fn resolved_capacity(items: Seq<CacheOption>) -> Option<usize>
    decreases items.len(),
{
    if items.len() == 0 {
        None
    } else {
        match items.last() {
            CacheOption::LruMaxEntries(c) => Some(c),
            _ => resolved_capacity(items.drop_last()),
        }
    }
}

/// The duration expression given by the last `TimeToLive` item, if any.
pub open spec fn resolved_ttl(items: Seq<CacheOption>) -> Option<Seq<char>>
    decreases items.len(),
{
    if items.len() == 0 {
        None
    } else {
        match items.last() {
            CacheOption::TimeToLive(e) => Some(e@),
            _ => resolved_ttl(items.drop_last()),
        }
    }
}

/// The hasher type given by the last `CustomHasher` item, if any.
pub open spec fn resolved_hasher(items: Seq<CacheOption>) -> Option<Seq<char>>
    decreases items.len(),
{
    if items.len() == 0 {
        None
    } else {
        match items.last() {
            CacheOption::CustomHasher(h) => Some(h@),
            _ => resolved_hasher(items.drop_last()),
        }
    }
}

/// The initializer given by the last `HasherInit` item, if any.
pub open spec fn resolved_init(items: Seq<CacheOption>) -> Option<Seq<char>>
    decreases items.len(),
{
    if items.len() == 0 {
        None
    } else {
        match items.last() {
            CacheOption::HasherInit(e) => Some(e@),
            _ => resolved_init(items.drop_last()),
        }
    }
}

/// Whether any `SharedCache` item is present.
pub open spec fn resolved_shared(items: Seq<CacheOption>) -> bool
    decreases items.len(),
{
    if items.len() == 0 {
        false
    } else {
        (items.last() is SharedCache) || resolved_shared(items.drop_last())
    }
}

/// The ignored parameter names, in the order their items appear.
pub open spec fn resolved_ignore(items: Seq<CacheOption>) -> Seq<Seq<char>>
    decreases items.len(),
{
    if items.len() == 0 {
        Seq::empty()
    } else {
        resolved_ignore(items.drop_last()) + (match items.last() {
            CacheOption::Ignore(n) => seq![n@],
            _ => Seq::empty(),
        })
    }
}

/// Whether an item needs the extended backend capability.
pub open spec fn is_gated(item: CacheOption) -> bool {
    (item is LruMaxEntries) || (item is TimeToLive)
}

/// Which advanced option an item is.
pub open spec fn gated_kind(item: CacheOption) -> GatedOption {
    if item is LruMaxEntries {
        GatedOption::Capacity
    } else {
        GatedOption::TimeToLive
    }
}

/// The first item that needs the extended backend capability, if any.
pub open spec fn first_gated(items: Seq<CacheOption>) -> Option<GatedOption>
    decreases items.len(),
{
    if items.len() == 0 {
        None
    } else if is_gated(items[0]) {
        Some(gated_kind(items[0]))
    } else {
        first_gated(items.drop_first())
    }
}

proof fn lemma_first_gated_skip(items: Seq<CacheOption>, i: int)
    requires
        0 <= i <= items.len(),
        forall|j: int| 0 <= j < i ==> !is_gated(items[j]),
    ensures
        first_gated(items) == first_gated(items.skip(i)),
    decreases i,
{
    if i > 0 {
        assert(!is_gated(items[0]));
        lemma_first_gated_skip(items.drop_first(), i - 1);
        assert(items.drop_first().skip(i - 1) =~= items.skip(i));
    } else {
        assert(items.skip(0) =~= items);
    }
}

impl CacheOptions {
    /// Resolves a list of configuration items into one configuration.
    ///
    /// Scalar options are folded so that the last occurrence wins; `Ignore`
    /// names accumulate in order; `SharedCache` is sticky. When the extended
    /// backend capability is disabled, the first advanced item (`Capacity`
    /// or `TimeToLive`) is rejected before anything else is looked at, with
    /// the guidance text of [`GenError::FeatureGating`].
    pub fn from_items(items: Vec<CacheOption>, full_feature: bool) -> (r: Result<CacheOptions, GenError>)
        ensures
            full_feature ==> r is Ok,
            r is Err <==> (!full_feature && first_gated(items@) is Some),
            r is Err ==> r->Err_0 == GenError::FeatureGating(first_gated(items@)->Some_0),
            r is Ok ==> {
                let o = r->Ok_0;
                &&& o.lru_max_entries == resolved_capacity(items@)
                &&& opt_str_view(o.time_to_live) == resolved_ttl(items@)
                &&& o.shared_cache == resolved_shared(items@)
                &&& opt_str_view(o.custom_hasher) == resolved_hasher(items@)
                &&& opt_str_view(o.custom_hasher_initializer) == resolved_init(items@)
                &&& o.ignore.deep_view() == resolved_ignore(items@)
            },
    {
        let mut opts = CacheOptions {
            lru_max_entries: None,
            time_to_live: None,
            shared_cache: false,
            custom_hasher: None,
            custom_hasher_initializer: None,
            ignore: Vec::new(),
        };
        let ghost all = items@;
        let mut i: usize = 0;
        while i < items.len()
            invariant
                0 <= i <= items.len(),
                items@ == all,
                !full_feature ==> forall|j: int| 0 <= j < i ==> !is_gated(all[j]),
                opts.lru_max_entries == resolved_capacity(all.take(i as int)),
                opt_str_view(opts.time_to_live) == resolved_ttl(all.take(i as int)),
                opts.shared_cache == resolved_shared(all.take(i as int)),
                opt_str_view(opts.custom_hasher) == resolved_hasher(all.take(i as int)),
                opt_str_view(opts.custom_hasher_initializer) == resolved_init(all.take(i as int)),
                opts.ignore.deep_view() == resolved_ignore(all.take(i as int)),
            decreases items.len() - i,
        {
            proof {
                assert(all.take(i + 1).drop_last() =~= all.take(i as int));
                assert(all.take(i + 1).last() == all[i as int]);
            }
            let ghost prev_ignore = opts.ignore.deep_view();
            match &items[i] {
                CacheOption::LruMaxEntries(c) => {
                    if !full_feature {
                        proof {
                            lemma_first_gated_skip(all, i as int);
                        }
                        return Err(GenError::FeatureGating(GatedOption::Capacity));
                    }
                    opts.lru_max_entries = Some(*c);
                },
                CacheOption::TimeToLive(e) => {
                    if !full_feature {
                        proof {
                            lemma_first_gated_skip(all, i as int);
                        }
                        return Err(GenError::FeatureGating(GatedOption::TimeToLive));
                    }
                    opts.time_to_live = Some(e.clone());
                },
                CacheOption::SharedCache => {
                    opts.shared_cache = true;
                },
                CacheOption::CustomHasher(h) => {
                    opts.custom_hasher = Some(h.clone());
                },
                CacheOption::HasherInit(e) => {
                    opts.custom_hasher_initializer = Some(e.clone());
                },
                CacheOption::Ignore(n) => {
                    opts.ignore.push(n.clone());
                    proof {
                        assert(opts.ignore.deep_view() =~= prev_ignore.push(n@));
                    }
                },
            }
            i = i + 1;
        }
        proof {
            assert(all.take(items@.len() as int) =~= all);
            if !full_feature {
                lemma_first_gated_skip(all, all.len() as int);
                assert(all.skip(all.len() as int) =~= Seq::empty());
            }
        }
        Ok(opts)
    }
}

} // verus!
