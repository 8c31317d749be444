//! The static, read-only configuration shared by every request: the ad
//! network id, the fallback priority rank, the frequency-caps policy, the
//! domain-affinity table and the opaque settings blob. All of it is built
//! once at process start and passed by reference into the transformation
//! functions.

use vstd::prelude::*;

verus! {

/// The ad network this proxy talks to.
pub const NETWORK_ID: u32 = 10250;

/// The priority rank used for unknown or absent upstream priority codes.
pub const PRIORITY: u32 = 100;

/// The event id of the delete/dismiss tracking event.
pub const EVENT_ID_DELETE: u32 = 17;

/// The event id of the save tracking event.
pub const EVENT_ID_SAVE: u32 = 20;

/// A frequency-cap rule: at most `count` impressions per `period` seconds.
#[derive(Clone, Copy, Debug, PartialEq, Eq, Structural)]
pub struct CapsRule {
    pub count: u32,
    pub period: u32,
}

/// The frequency-caps policy attached to every outgoing item.
#[derive(Clone, Copy, Debug, PartialEq, Eq, Structural)]
pub struct Caps {
    pub lifetime: u32,
    pub campaign: CapsRule,
    pub flight: CapsRule,
}

/// The caps policy this proxy serves.
pub fn default_caps() -> (r: Caps)
    ensures
        r.lifetime == 50,
        r.campaign == (CapsRule { count: 10, period: 86400 }),
        r.flight == (CapsRule { count: 10, period: 86400 }),
{
    Caps { lifetime: 50, campaign: CapsRule { count: 10, period: 86400 }, flight: CapsRule {
        count: 10,
        period: 86400,
    } }
}

/// One domain-affinity mapping: domains and their weights.
pub type Affinities = Vec<(String, u32)>;

/// The static domain-affinity table: named buckets of affinity mappings,
/// plus one shared empty mapping handed out on every miss.
pub struct DomainAffinityTable {
    pub buckets: Vec<(String, Affinities)>,
    pub empty: Affinities,
}

impl DomainAffinityTable {
    /// The shared empty mapping really is empty.
    pub open spec fn wf(&self) -> bool {
        self.empty@.len() == 0
    }

    /// A table with the given buckets.
    pub fn new(buckets: Vec<(String, Affinities)>) -> (r: Self)
        ensures
            r.wf(),
            r.buckets@ == buckets@,
    {
        DomainAffinityTable { buckets, empty: Vec::new() }
    }
}

/// The affinities of the first bucket named `name`, if any.
pub open spec fn bucket_lookup(buckets: Seq<(String, Affinities)>, name: Seq<char>) -> Option<
    Seq<(String, u32)>,
>
    decreases buckets.len(),
{
    if buckets.len() == 0 {
        None
    } else if buckets.first().0@ == name {
        Some(buckets.first().1@)
    } else {
        bucket_lookup(buckets.drop_first(), name)
    }
}

/// What a domain-affinity lookup yields: the named bucket, or nothing on
/// a missing name or an unknown bucket.
pub open spec fn affinities_for(buckets: Seq<(String, Affinities)>, name: Option<Seq<char>>) -> Seq<
    (String, u32),
> {
    match name {
        Some(n) => match bucket_lookup(buckets, n) {
            Some(a) => a,
            None => Seq::empty(),
        },
        None => Seq::empty(),
    }
}

/// Looks a bucket name up in the static table; a miss yields the shared
/// empty mapping.
pub fn get_domain_affinities<'a>(name: Option<String>, table: &'a DomainAffinityTable) -> (r:
    &'a Affinities)
    requires
        table.wf(),
    ensures
        name is None ==> r@ == affinities_for(table.buckets@, None),
        name matches Some(m) ==> r@ == affinities_for(table.buckets@, Some(m@)),
{
    match name {
        None => &table.empty,
        Some(n) => {
            let count = table.buckets.len();
            let mut i: usize = 0;
            assert(table.buckets@.skip(0) =~= table.buckets@);
            while i < count
                invariant
                    name == Some(n),
                    count == table.buckets@.len(),
                    i <= count,
                    bucket_lookup(table.buckets@, n@) == bucket_lookup(
                        table.buckets@.skip(i as int),
                        n@,
                    ),
                decreases count - i,
            {
                assert(table.buckets@.skip(i as int).first() == table.buckets@[i as int]);
                let entry = &table.buckets[i];
                assert(*entry == table.buckets@[i as int]);
                if crate::text::str_eq(entry.0.as_str(), n.as_str()) {
                    assert(bucket_lookup(table.buckets@.skip(i as int), n@) == Some(
                        table.buckets@[i as int].1@,
                    ));
                    assert(affinities_for(table.buckets@, Some(n@)) == table.buckets@[
                        i as int
                    ].1@);
                    return &entry.1;
                }
                assert(table.buckets@.skip(i as int).drop_first() =~= table.buckets@.skip(i + 1));
                i += 1;
            }
            assert(table.buckets@.skip(count as int).len() == 0);
            &table.empty
        },
    }
}

/// Copies an affinity mapping so an outgoing item can own it.
pub fn copy_affinities(a: &Affinities) -> (r: Affinities)
    ensures
        r@ == a@,
{
    let mut r: Affinities = Vec::new();
    let n = a.len();
    for i in 0..n
        invariant
            n == a@.len(),
            r@ == a@.take(i as int),
    {
        let name = a[i].0.clone();
        let weight = a[i].1;
        assert(name == a@[i as int].0);
        r.push((name, weight));
        assert(r@ =~= a@.take(i + 1));
    }
    assert(r@ =~= a@);
    r
}

/// The static configuration handed into response normalization.
pub struct StaticConfig {
    /// The opaque settings blob served verbatim with every response.
    pub settings: String,
    /// The frequency-caps policy.
    pub caps: Caps,
    /// The domain-affinity table.
    pub affinities: DomainAffinityTable,
}

impl StaticConfig {
    /// The parts of the configuration are well-formed.
    pub open spec fn wf(&self) -> bool {
        self.affinities.wf()
    }

    /// A configuration with the given settings blob and affinity buckets,
    /// and the default caps policy.
    pub fn new(settings: String, buckets: Vec<(String, Affinities)>) -> (r: Self)
        ensures
            r.wf(),
            r.settings@ == settings@,
            r.caps == (Caps {
                lifetime: 50,
                campaign: CapsRule { count: 10, period: 86400 },
                flight: CapsRule { count: 10, period: 86400 },
            }),
            r.affinities.buckets@ == buckets@,
    {
        StaticConfig {
            settings,
            caps: default_caps(),
            affinities: DomainAffinityTable::new(buckets),
        }
    }
}

} // verus!
