//! Configuration as plain data: the API token, the refresh interval, and the
//! list of domains, each with the hostname prefixes whose records are managed.
//!
//! Loading and parsing the configuration file is the caller's business; the
//! library consumes an already validated, immutable structure.

use vstd::prelude::*;

verus! {

/// One hostname prefix under a domain, with the address families it wants
/// managed.
pub struct PrefixCfg {
    pub name: String,
    pub ipv4: bool,
    pub ipv6: bool,
}

/// A domain with the prefixes managed under it.
pub struct DomainCfg {
    pub name: String,
    pub prefixes: Vec<PrefixCfg>,
}

/// The whole configuration: API token, managed domains, and the refresh
/// interval in minutes.
pub struct Cfg {
    pub api_key: String,
    pub domains: Vec<DomainCfg>,
    pub refresh_interval: u16,
}

/// One unit of work for a reconciliation pass: a domain, a hostname prefix
/// under it, and the address families to manage.
pub struct Target {
    pub domain: String,
    pub name: String,
    pub ipv4: bool,
    pub ipv6: bool,
}

/// Whether `t` is the target formed from domain `d` and prefix `p`.
pub open spec fn target_matches(t: Target, d: DomainCfg, p: PrefixCfg) -> bool {
    &&& t.domain@ == d.name@
    &&& t.name@ == p.name@
    &&& t.ipv4 == p.ipv4
    &&& t.ipv6 == p.ipv6
}

/// The targets of one domain, in prefix order.
pub open spec fn domain_targets(d: DomainCfg) -> Seq<(DomainCfg, PrefixCfg)> {
    d.prefixes@.map_values(|p: PrefixCfg| (d, p))
}

/// All targets of a configuration: domains in configured order, prefixes in
/// configured order within each domain.
pub open spec fn cfg_target_plan(domains: Seq<DomainCfg>) -> Seq<(DomainCfg, PrefixCfg)>
    decreases domains.len(),
{
    if domains.len() == 0 {
        Seq::empty()
    } else {
        domain_targets(domains[0]) + cfg_target_plan(domains.skip(1))
    }
}

impl Cfg {
    /// Flattens the nested domain/prefix lists into the sequence of targets a
    /// reconciliation pass walks, in configured order.
    pub fn targets(&self) -> (r: Vec<Target>)
        ensures
            r@.len() == cfg_target_plan(self.domains@).len(),
            forall|i: int|
                0 <= i < r@.len() ==> target_matches(
                    #[trigger] r@[i],
                    cfg_target_plan(self.domains@)[i].0,
                    cfg_target_plan(self.domains@)[i].1,
                ),
    {
        let mut out: Vec<Target> = Vec::new();
        let mut di: usize = 0;
        proof {
            lemma_cfg_target_plan_take(self.domains@, 0);
        }
        while di < self.domains.len()
            invariant
                di <= self.domains@.len(),
                out@.len() == cfg_target_plan(self.domains@.take(di as int)).len(),
                forall|i: int|
                    0 <= i < out@.len() ==> target_matches(
                        #[trigger] out@[i],
                        cfg_target_plan(self.domains@.take(di as int))[i].0,
                        cfg_target_plan(self.domains@.take(di as int))[i].1,
                    ),
            decreases self.domains@.len() - di,
        {
            let d = &self.domains[di];
            let mut pi: usize = 0;
            while pi < d.prefixes.len()
                invariant
                    di < self.domains@.len(),
                    pi <= d.prefixes@.len(),
                    d == self.domains@[di as int],
                    out@.len() == cfg_target_plan(self.domains@.take(di as int)).len()
                        + pi as int,
                    forall|i: int|
                        0 <= i < cfg_target_plan(self.domains@.take(di as int)).len()
                            ==> target_matches(
                            #[trigger] out@[i],
                            cfg_target_plan(self.domains@.take(di as int))[i].0,
                            cfg_target_plan(self.domains@.take(di as int))[i].1,
                        ),
                    forall|i: int|
                        cfg_target_plan(self.domains@.take(di as int)).len() <= i
                            < out@.len() ==> target_matches(
                            #[trigger] out@[i],
                            self.domains@[di as int],
                            d.prefixes@[i - cfg_target_plan(
                                self.domains@.take(di as int),
                            ).len()],
                        ),
                decreases d.prefixes@.len() - pi,
            {
                let p = &d.prefixes[pi];
                out.push(
                    Target {
                        domain: d.name.clone(),
                        name: p.name.clone(),
                        ipv4: p.ipv4,
                        ipv6: p.ipv6,
                    },
                );
                pi = pi + 1;
            }
            proof {
                lemma_cfg_target_plan_step(self.domains@, di as int);
            }
            di = di + 1;
        }
        proof {
            assert(self.domains@.take(di as int) =~= self.domains@);
        }
        out
    }
}

/// Unrolling `cfg_target_plan` one domain at a time, from the front.
proof fn lemma_cfg_target_plan_step(domains: Seq<DomainCfg>, i: int)
    requires
        0 <= i < domains.len(),
    ensures
        cfg_target_plan(domains.take(i + 1)) =~= cfg_target_plan(domains.take(i))
            + domain_targets(domains[i]),
    decreases i,
{
    let pre = domains.take(i + 1);
    assert(pre[0] == domains[0]);
    if i == 0 {
        assert(cfg_target_plan(domains.take(0)) =~= Seq::<(DomainCfg, PrefixCfg)>::empty());
        assert(pre.skip(1) =~= Seq::<DomainCfg>::empty());
        assert(cfg_target_plan(Seq::<DomainCfg>::empty())
            =~= Seq::<(DomainCfg, PrefixCfg)>::empty());
        assert(cfg_target_plan(pre) =~= domain_targets(pre[0]) + cfg_target_plan(pre.skip(1)));
        assert(cfg_target_plan(pre) =~= domain_targets(domains[0]));
    } else {
        assert(pre.skip(1) =~= domains.skip(1).take(i));
        assert(domains.take(i).skip(1) =~= domains.skip(1).take(i - 1));
        lemma_cfg_target_plan_step(domains.skip(1), i - 1);
        assert(domains.skip(1)[i - 1] == domains[i]);
        assert(domains.take(i)[0] == domains[0]);
    }
}

/// The empty prefix of the domain list yields no targets.
proof fn lemma_cfg_target_plan_take(domains: Seq<DomainCfg>, i: int)
    ensures
        cfg_target_plan(domains.take(0)) == Seq::<(DomainCfg, PrefixCfg)>::empty(),
{
    assert(domains.take(0) =~= Seq::<DomainCfg>::empty());
}

} // verus!
