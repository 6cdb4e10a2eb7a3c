//! Resource profiles of contract methods, the hottest methods among them, and
//! optimisation advice.
use crate::Address;
use vstd::prelude::*;

verus! {

/// Average CPU per call from which splitting a method is advised.
pub const SPLIT_CPU_THRESHOLD: u64 = 50_000;

#[derive(Clone, Copy, Debug, PartialEq, Eq, Structural)]
pub enum Error {
    AlreadyInitialized,
    NotInitialized,
    NotAuthorized,
    /// A sample must report some CPU.
    InvalidMetric,
}

/// Totals of the samples recorded for a method.
#[derive(Clone, Copy, Debug, PartialEq, Eq, Structural)]
pub struct MethodProfile {
    pub calls: u64,
    pub total_cpu: u64,
    pub total_read_bytes: u64,
    pub total_write_bytes: u64,
}

#[derive(Clone, Debug)]
pub struct MethodHotspot {
    pub method: String,
    pub score: u64,
    pub avg_cpu: u64,
}

#[derive(Clone, Debug)]
pub struct OptimizationRecommendation {
    pub method: String,
    pub recommendation: String,
    pub estimated_savings_bps: u32,
}

/// A method and its profile.
pub struct MethodEntry {
    pub method: String,
    pub profile: MethodProfile,
}

pub open spec fn empty_profile() -> MethodProfile {
    MethodProfile { calls: 0, total_cpu: 0, total_read_bytes: 0, total_write_bytes: 0 }
}

pub open spec fn sat_add(a: u64, b: u64) -> u64 {
    if a + b > u64::MAX {
        u64::MAX
    } else {
        (a + b) as u64
    }
}

/// A profile after one more sample; every total saturates.
pub open spec fn sampled(p: MethodProfile, cpu: u64, read_bytes: u64, write_bytes: u64) -> MethodProfile {
    MethodProfile {
        calls: sat_add(p.calls, 1),
        total_cpu: sat_add(p.total_cpu, cpu),
        total_read_bytes: sat_add(p.total_read_bytes, read_bytes),
        total_write_bytes: sat_add(p.total_write_bytes, write_bytes),
    }
}

/// A hotspot as plain values: method, score, average CPU.
pub open spec fn hotspot_of(e: MethodEntry) -> (Seq<char>, u64, u64) {
    let avg_cpu = (e.profile.total_cpu / e.profile.calls) as u64;
    (e.method@, sat_add(avg_cpu, (e.profile.total_write_bytes / e.profile.calls) as u64), avg_cpu)
}

pub open spec fn hotspot_view(h: MethodHotspot) -> (Seq<char>, u64, u64) {
    (h.method@, h.score, h.avg_cpu)
}

/// The first `max` hotspots of the methods in `s` that were called.
pub open spec fn hotspots_in(s: Seq<MethodEntry>, max: nat) -> Seq<(Seq<char>, u64, u64)>
    decreases s.len(),
{
    if s.len() == 0 || max == 0 {
        Seq::empty()
    } else if s[0].profile.calls > 0 {
        seq![hotspot_of(s[0])] + hotspots_in(s.drop_first(), (max - 1) as nat)
    } else {
        hotspots_in(s.drop_first(), max)
    }
}

/// The advice for a profile, as the advice's name and estimated savings.
pub open spec fn advice_of(p: MethodProfile) -> Option<(Seq<char>, u32)> {
    if p.calls == 0 {
        None
    } else if p.total_cpu / p.calls >= SPLIT_CPU_THRESHOLD {
        Some(("split_method"@, 2000))
    } else if p.total_write_bytes / p.calls > 2 * (p.total_read_bytes / p.calls) {
        Some(("cache_writes"@, 1500))
    } else {
        None
    }
}

/// A recommendation as plain values: method, advice, estimated savings.
pub open spec fn recommendation_view(r: OptimizationRecommendation) -> (Seq<char>, Seq<char>, u32) {
    (r.method@, r.recommendation@, r.estimated_savings_bps)
}

/// The advice for each hotspot in `hs` that has any, in order, given the
/// profile of each method.
pub open spec fn advice_for(
    hs: Seq<(Seq<char>, u64, u64)>,
    profile: spec_fn(Seq<char>) -> MethodProfile,
) -> Seq<(Seq<char>, Seq<char>, u32)>
    decreases hs.len(),
{
    if hs.len() == 0 {
        Seq::empty()
    } else {
        let prev = advice_for(hs.drop_last(), profile);
        match advice_of(profile(hs.last().0)) {
            Some(a) => prev.push((hs.last().0, a.0, a.1)),
            None => prev,
        }
    }
}

/// The limit of `get_hotspots` for `limit` among `n` methods.
pub open spec fn hotspot_cap(limit: u32, n: nat) -> nat {
    if limit == 0 || limit >= n {
        n
    } else {
        limit as nat
    }
}

/// The position of the entry of `method` in `s`, or -1.
pub open spec fn position(s: Seq<MethodEntry>, method: Seq<char>) -> int
    decreases s.len(),
{
    if s.len() == 0 {
        -1
    } else if s.last().method@ == method {
        s.len() - 1
    } else {
        position(s.drop_last(), method)
    }
}

pub proof fn lemma_position(s: Seq<MethodEntry>, method: Seq<char>)
    ensures
        -1 <= position(s, method) < s.len(),
        position(s, method) >= 0 ==> s[position(s, method)].method@ == method,
    decreases s.len(),
{
    if s.len() > 0 {
        lemma_position(s.drop_last(), method);
    }
}

fn saturating_add(a: u64, b: u64) -> (r: u64)
    ensures
        r == sat_add(a, b),
{
    if a > u64::MAX - b {
        u64::MAX
    } else {
        a + b
    }
}

/// The advice for `profile`: split a method that averages at least
/// `SPLIT_CPU_THRESHOLD` CPU per call, else cache writes where a call writes
/// more than twice what it reads.
pub fn recommend_for_profile(method: String, profile: &MethodProfile) -> (r: Option<
    OptimizationRecommendation,
>)
    ensures
        r is Some == advice_of(*profile) is Some,
        r matches Some(rec) ==> rec.method@ == method@ && advice_of(*profile) == Some(
            (rec.recommendation@, rec.estimated_savings_bps),
        ),
{
    if profile.calls == 0 {
        return None;
    }
    let avg_cpu = profile.total_cpu / profile.calls;
    let avg_read = profile.total_read_bytes / profile.calls;
    let avg_write = profile.total_write_bytes / profile.calls;
    if avg_cpu >= SPLIT_CPU_THRESHOLD {
        return Some(
            OptimizationRecommendation {
                method,
                recommendation: "split_method".to_string(),
                estimated_savings_bps: 2000,
            },
        );
    }
    let doubled = saturating_add(avg_read, avg_read);
    if avg_write > doubled {
        return Some(
            OptimizationRecommendation {
                method,
                recommendation: "cache_writes".to_string(),
                estimated_savings_bps: 1500,
            },
        );
    }
    None
}

/// The gas analysis contract.
pub struct GasOptimizationAnalysis {
    admin: Option<Address>,
    entries: Vec<MethodEntry>,
}

impl GasOptimizationAnalysis {
    pub closed spec fn admin(&self) -> Option<Address> {
        self.admin
    }

    /// Every profiled method with its profile, in the order first sampled.
    pub closed spec fn entries(&self) -> Seq<MethodEntry> {
        self.entries@
    }

    /// The profile of `method`; empty if never sampled.
    pub open spec fn profile_of(&self, method: Seq<char>) -> MethodProfile {
        let p = position(self.entries(), method);
        if p >= 0 {
            self.entries()[p].profile
        } else {
            empty_profile()
        }
    }

    pub fn new() -> (r: Self)
        ensures
            r.admin() is None,
            r.entries() == Seq::<MethodEntry>::empty(),
    {
        GasOptimizationAnalysis { admin: None, entries: Vec::new() }
    }

    pub fn init(&mut self, admin: Address) -> (r: Result<(), Error>)
        ensures
            final(self).entries() == old(self).entries(),
            old(self).admin() is Some ==> r == Err::<(), Error>(Error::AlreadyInitialized)
                && final(self).admin() == old(self).admin(),
            old(self).admin() is None ==> r is Ok && final(self).admin() == Some(admin),
    {
        if self.admin.is_some() {
            return Err(Error::AlreadyInitialized);
        }
        self.admin = Some(admin);
        Ok(())
    }

    fn find(&self, method: &String) -> (r: Option<usize>)
        ensures
            r matches Some(i) ==> i == position(self.entries(), method@),
            r is None ==> position(self.entries(), method@) == -1,
    {
        let mut i: usize = self.entries.len();
        assert(self.entries@.take(i as int) == self.entries@);
        while i > 0
            invariant
                i <= self.entries@.len(),
                position(self.entries@, method@) == position(self.entries@.take(i as int), method@),
            decreases i,
        {
            let ghost pre = self.entries@.take(i as int);
            assert(pre.drop_last() == self.entries@.take(i - 1));
            if self.entries[i - 1].method == *method {
                return Some(i - 1);
            }
            i = i - 1;
        }
        None
    }

    /// Adds a sample of one call of `method`; returns its new profile.
    pub fn record_sample(
        &mut self,
        admin: Address,
        method: String,
        cpu: u64,
        read_bytes: u64,
        write_bytes: u64,
    ) -> (r: Result<MethodProfile, Error>)
        ensures
            final(self).admin() == old(self).admin(),
            r == match old(self).admin() {
                None => Err(Error::NotInitialized),
                Some(a) => if a != admin {
                    Err(Error::NotAuthorized)
                } else if cpu == 0 {
                    Err(Error::InvalidMetric)
                } else {
                    Ok(sampled(old(self).profile_of(method@), cpu, read_bytes, write_bytes))
                },
            },
            r is Err ==> final(self).entries() == old(self).entries(),
            r matches Ok(p) ==> {
                let pos = position(old(self).entries(), method@);
                final(self).entries() == if pos >= 0 {
                    old(self).entries().update(
                        pos,
                        MethodEntry { profile: p, ..old(self).entries()[pos] },
                    )
                } else {
                    old(self).entries().push(MethodEntry { method, profile: p })
                }
            },
    {
        proof {
            lemma_position(self.entries@, method@);
        }
        match self.admin {
            None => return Err(Error::NotInitialized),
            Some(a) => {
                if a != admin {
                    return Err(Error::NotAuthorized);
                }
            },
        }
        if cpu == 0 {
            return Err(Error::InvalidMetric);
        }
        let pos = self.find(&method);
        let old_profile = match pos {
            Some(i) => self.entries[i].profile,
            None => MethodProfile { calls: 0, total_cpu: 0, total_read_bytes: 0, total_write_bytes: 0 },
        };
        let profile = MethodProfile {
            calls: saturating_add(old_profile.calls, 1),
            total_cpu: saturating_add(old_profile.total_cpu, cpu),
            total_read_bytes: saturating_add(old_profile.total_read_bytes, read_bytes),
            total_write_bytes: saturating_add(old_profile.total_write_bytes, write_bytes),
        };
        match pos {
            Some(i) => {
                let mut entry = self.entries.remove(i);
                entry.profile = profile;
                self.entries.insert(i, entry);
            },
            None => {
                self.entries.push(MethodEntry { method, profile });
            },
        }
        Ok(profile)
    }

    /// The profile of `method`.
    pub fn get_method_profile(&self, method: String) -> (r: MethodProfile)
        ensures
            r == self.profile_of(method@),
    {
        proof {
            lemma_position(self.entries@, method@);
        }
        match self.find(&method) {
            Some(i) => self.entries[i].profile,
            None => MethodProfile { calls: 0, total_cpu: 0, total_read_bytes: 0, total_write_bytes: 0 },
        }
    }

    /// The called methods, in the order first sampled, as hotspots; at most
    /// `limit` of them unless `limit` is 0.
    pub fn get_hotspots(&self, limit: u32) -> (r: Vec<MethodHotspot>)
        ensures
            r@.map_values(|h: MethodHotspot| hotspot_view(h)) == hotspots_in(
                self.entries(),
                hotspot_cap(limit, self.entries().len()),
            ),
    {
        let n = self.entries.len();
        let max: usize = if limit == 0 || limit as usize >= n {
            n
        } else {
            limit as usize
        };
        let ghost s = self.entries@;
        let mut out: Vec<MethodHotspot> = Vec::new();
        let mut i: usize = 0;
        assert(s.skip(0) == s);
        assert(out@.map_values(|h: MethodHotspot| hotspot_view(h)) =~= Seq::<
            (Seq<char>, u64, u64),
        >::empty());
        while i < n && out.len() < max
            invariant
                n == s.len(),
                s == self.entries@,
                i <= n,
                out@.len() <= max,
                out@.map_values(|h: MethodHotspot| hotspot_view(h)) + hotspots_in(
                    s.skip(i as int),
                    (max - out@.len()) as nat,
                ) == hotspots_in(s, max as nat),
            decreases n - i,
        {
            let ghost rest = s.skip(i as int);
            assert(rest.drop_first() == s.skip(i + 1));
            assert(rest[0] == s[i as int]);
            let e = &self.entries[i];
            if e.profile.calls > 0 {
                let avg_cpu = e.profile.total_cpu / e.profile.calls;
                let score = saturating_add(avg_cpu, e.profile.total_write_bytes / e.profile.calls);
                let ghost before = out@;
                out.push(MethodHotspot { method: e.method.clone(), score, avg_cpu });
                assert(out@.map_values(|h: MethodHotspot| hotspot_view(h)) =~= before.map_values(
                    |h: MethodHotspot| hotspot_view(h),
                ).push(hotspot_of(s[i as int])));
            }
            i = i + 1;
        }
        proof {
            if i == n {
                assert(s.skip(i as int).len() == 0);
            }
        }
        assert(out@.map_values(|h: MethodHotspot| hotspot_view(h)) =~= hotspots_in(s, max as nat));
        out
    }

    /// The advice for each hotspot of `get_hotspots(limit)` that has any, in
    /// the same order.
    pub fn get_recommendations(&self, limit: u32) -> (r: Vec<OptimizationRecommendation>)
        ensures
            r@.map_values(|x: OptimizationRecommendation| recommendation_view(x)) == advice_for(
                hotspots_in(self.entries(), hotspot_cap(limit, self.entries().len())),
                |m: Seq<char>| self.profile_of(m),
            ),
    {
        let hotspots = self.get_hotspots(limit);
        let ghost hs = hotspots@.map_values(|h: MethodHotspot| hotspot_view(h));
        let ghost f = |m: Seq<char>| self.profile_of(m);
        let mut out: Vec<OptimizationRecommendation> = Vec::new();
        let mut i: usize = 0;
        assert(hs.take(0) =~= Seq::<(Seq<char>, u64, u64)>::empty());
        assert(out@.map_values(|x: OptimizationRecommendation| recommendation_view(x)) =~= Seq::<
            (Seq<char>, Seq<char>, u32),
        >::empty());
        while i < hotspots.len()
            invariant
                i <= hotspots@.len(),
                hs == hotspots@.map_values(|h: MethodHotspot| hotspot_view(h)),
                f == (|m: Seq<char>| self.profile_of(m)),
                out@.map_values(|x: OptimizationRecommendation| recommendation_view(x))
                    == advice_for(hs.take(i as int), f),
            decreases hotspots@.len() - i,
        {
            assert(hs.take(i + 1).drop_last() == hs.take(i as int));
            assert(hs.take(i + 1).last() == hotspot_view(hotspots@[i as int]));
            let method = hotspots[i].method.clone();
            let profile = self.get_method_profile(method.clone());
            let ghost before = out@;
            match recommend_for_profile(method, &profile) {
                Some(entry) => {
                    out.push(entry);
                    assert(out@.map_values(|x: OptimizationRecommendation| recommendation_view(x))
                        =~= before.map_values(
                        |x: OptimizationRecommendation| recommendation_view(x),
                    ).push(recommendation_view(entry)));
                },
                None => {},
            }
            i = i + 1;
        }
        assert(hs.take(i as int) == hs);
        out
    }
}

} // verus!
