//! The alert row, the file-defined templates it is expanded from, and the
//! hosts it targets.

use vstd::prelude::*;
use vstd::string::StringSliceAdditionalSpecFns;

verus! {

/// One monitored condition on one host.
pub struct Alert {
    pub id: i64,
    pub name: String,
    pub table: String,
    pub lookup: String,
    pub timing: i32,
    pub warn: String,
    pub crit: String,
    pub info: Option<String>,
    pub host_uuid: String,
    pub hostname: String,
    pub where_clause: Option<String>,
    pub active: bool,
}

/// A copy of an optional string.
pub fn clone_opt(o: &Option<String>) -> (r: Option<String>)
    ensures
        r == *o,
{
    match o {
        Some(s) => Some(s.clone()),
        None => None,
    }
}

impl Alert {
    /// A field-by-field copy.
    pub fn duplicate(&self) -> (r: Alert)
        ensures
            r == *self,
    {
        Alert {
            id: self.id,
            name: self.name.clone(),
            table: self.table.clone(),
            lookup: self.lookup.clone(),
            timing: self.timing,
            warn: self.warn.clone(),
            crit: self.crit.clone(),
            info: clone_opt(&self.info),
            host_uuid: self.host_uuid.clone(),
            hostname: self.hostname.clone(),
            where_clause: clone_opt(&self.where_clause),
            active: self.active,
        }
    }
}

/// Which hosts a file-defined alert template applies to.
pub enum HostTargeted {
    All,
    Specific(String),
}

/// A file-defined alert template, expanded into one alert per matching host.
pub struct AlertConfig {
    pub name: String,
    pub table: String,
    pub lookup: String,
    pub warn: String,
    pub crit: String,
    pub where_clause: Option<String>,
    pub info: Option<String>,
    pub timing: i32,
    pub host_targeted: HostTargeted,
}

/// A host of the metrics platform.
pub struct Host {
    pub uuid: String,
    pub hostname: String,
}

/// Why a set of templates could not be expanded.
#[derive(Debug, PartialEq, Eq, Clone, Copy, Structural)]
pub enum ExpandError {
    /// The template of this index targets a host that is not known exactly once.
    UnknownHost(usize),
}

pub const FNV_OFFSET: u64 = 0xcbf2_9ce4_8422_2325;

pub const FNV_PRIME: u64 = 0x0000_0100_0000_01b3;

/// One FNV-1a step.
pub open spec fn fnv_step(h: u64, b: u8) -> u64 {
    (h ^ (b as u64)).wrapping_mul(FNV_PRIME)
}

/// FNV-1a of `bytes`, starting from `h`.
pub open spec fn fnv_from(h: u64, bytes: Seq<u8>) -> u64
    decreases bytes.len(),
{
    if bytes.len() == 0 {
        h
    } else {
        fnv_step(fnv_from(h, bytes.drop_last()), bytes.last())
    }
}

/// The bytes an alert identifier is derived from: the host uuid, a zero
/// byte, then the alert name, in UTF-8.
pub open spec fn id_bytes(host_uuid: Seq<char>, name: Seq<char>) -> Seq<u8> {
    vstd::utf8::encode_utf8(host_uuid) + seq![0u8] + vstd::utf8::encode_utf8(name)
}

/// The identifier of the alert `name` on host `host_uuid`: the FNV-1a hash
/// of their bytes, shifted right by one so that it is never negative.
pub open spec fn alert_id(host_uuid: Seq<char>, name: Seq<char>) -> i64 {
    (fnv_from(FNV_OFFSET, id_bytes(host_uuid, name)) >> 1u64) as i64
}

proof fn lemma_fnv_concat(h: u64, a: Seq<u8>, b: Seq<u8>)
    ensures
        fnv_from(h, a + b) == fnv_from(fnv_from(h, a), b),
    decreases b.len(),
{
    if b.len() == 0 {
        assert(a + b =~= a);
    } else {
        lemma_fnv_concat(h, a, b.drop_last());
        assert((a + b).drop_last() =~= a + b.drop_last());
        assert((a + b).last() == b.last());
    }
}

/// FNV-1a of `bytes`, starting from `h`.
fn fnv_extend(h: u64, bytes: &[u8]) -> (r: u64)
    ensures
        r == fnv_from(h, bytes@),
{
    let mut acc = h;
    let mut i: usize = 0;
    while i < bytes.len()
        invariant
            i <= bytes@.len(),
            acc == fnv_from(h, bytes@.take(i as int)),
        decreases bytes@.len() - i,
    {
        assert(bytes@.take(i + 1).drop_last() =~= bytes@.take(i as int));
        acc = (acc ^ (bytes[i] as u64)).wrapping_mul(FNV_PRIME);
        i = i + 1;
    }
    assert(bytes@.take(i as int) =~= bytes@);
    acc
}

/// The stable identifier of the alert `name` on host `host_uuid`.
pub fn generate_id(host_uuid: &str, name: &str) -> (r: i64)
    ensures
        r == alert_id(host_uuid@, name@),
        r >= 0,
{
    let h1 = fnv_extend(FNV_OFFSET, host_uuid.as_bytes());
    let h2 = (h1 ^ 0u64).wrapping_mul(FNV_PRIME);
    let h3 = fnv_extend(h2, name.as_bytes());
    proof {
        let u = vstd::utf8::encode_utf8(host_uuid@);
        let n = vstd::utf8::encode_utf8(name@);
        assert(host_uuid.spec_bytes() == u);
        assert(name.spec_bytes() == n);
        assert((u + seq![0u8]).drop_last() =~= u);
        assert(fnv_from(FNV_OFFSET, u + seq![0u8]) == h2);
        lemma_fnv_concat(FNV_OFFSET, u + seq![0u8], n);
    }
    let shifted = h3 >> 1u64;
    assert(shifted <= 0x7fff_ffff_ffff_ffffu64) by (bit_vector)
        requires
            shifted == h3 >> 1u64,
    ;
    shifted as i64
}

/// The alert that template `c` gives on host `h`.
pub open spec fn alert_for(c: AlertConfig, h: Host) -> Alert {
    Alert {
        id: alert_id(h.uuid@, c.name@),
        name: c.name,
        table: c.table,
        lookup: c.lookup,
        timing: c.timing,
        warn: c.warn,
        crit: c.crit,
        info: c.info,
        host_uuid: h.uuid,
        hostname: h.hostname,
        where_clause: c.where_clause,
        active: true,
    }
}

/// The alert that template `c` gives on host `h`.
pub fn build_from_config(c: &AlertConfig, h: &Host) -> (r: Alert)
    ensures
        r == alert_for(*c, *h),
{
    Alert {
        id: generate_id(h.uuid.as_str(), c.name.as_str()),
        name: c.name.clone(),
        table: c.table.clone(),
        lookup: c.lookup.clone(),
        timing: c.timing,
        warn: c.warn.clone(),
        crit: c.crit.clone(),
        info: clone_opt(&c.info),
        host_uuid: h.uuid.clone(),
        hostname: h.hostname.clone(),
        where_clause: clone_opt(&c.where_clause),
        active: true,
    }
}

/// How many hosts carry uuid `u`.
pub open spec fn uuid_count(hosts: Seq<Host>, u: Seq<char>) -> nat
    decreases hosts.len(),
{
    if hosts.len() == 0 {
        0
    } else {
        uuid_count(hosts.drop_last(), u) + if hosts.last().uuid@ == u {
            1nat
        } else {
            0nat
        }
    }
}

/// The index of the first host with uuid `u`, or -1.
pub open spec fn first_with_uuid(hosts: Seq<Host>, u: Seq<char>) -> int
    decreases hosts.len(),
{
    if hosts.len() == 0 {
        -1
    } else {
        let f = first_with_uuid(hosts.drop_last(), u);
        if f >= 0 {
            f
        } else if hosts.last().uuid@ == u {
            hosts.len() - 1
        } else {
            -1
        }
    }
}

/// The alerts of template `c` over `hosts`, or `None` when it targets a host
/// that is not known exactly once.
pub open spec fn expand_one(c: AlertConfig, hosts: Seq<Host>) -> Option<Seq<Alert>> {
    match c.host_targeted {
        HostTargeted::All => Some(hosts.map_values(|h: Host| alert_for(c, h))),
        HostTargeted::Specific(u) => if uuid_count(hosts, u@) == 1 {
            Some(seq![alert_for(c, hosts[first_with_uuid(hosts, u@)])])
        } else {
            None
        },
    }
}

/// The alerts of all templates, in order, or the first template that fails.
pub open spec fn expansion(configs: Seq<AlertConfig>, hosts: Seq<Host>) -> Result<
    Seq<Alert>,
    ExpandError,
>
    decreases configs.len(),
{
    if configs.len() == 0 {
        Ok(Seq::empty())
    } else {
        match expansion(configs.drop_last(), hosts) {
            Err(e) => Err(e),
            Ok(prev) => match expand_one(configs.last(), hosts) {
                None => Err(ExpandError::UnknownHost((configs.len() - 1) as usize)),
                Some(more) => Ok(prev + more),
            },
        }
    }
}

proof fn lemma_expansion_stops(configs: Seq<AlertConfig>, hosts: Seq<Host>, k: int)
    requires
        0 <= k <= configs.len(),
        expansion(configs.take(k), hosts) is Err,
    ensures
        expansion(configs, hosts) == expansion(configs.take(k), hosts),
    decreases configs.len(),
{
    if k == configs.len() {
        assert(configs.take(k) =~= configs);
    } else {
        assert(configs.drop_last().take(k) =~= configs.take(k));
        lemma_expansion_stops(configs.drop_last(), hosts, k);
    }
}

/// Finds how many hosts carry `u`, and the first of them.
fn locate_host(hosts: &Vec<Host>, u: &String) -> (r: (usize, usize))
    ensures
        r.0 == uuid_count(hosts@, u@),
        r.0 > 0 ==> r.1 as int == first_with_uuid(hosts@, u@),
        r.0 == 0 ==> first_with_uuid(hosts@, u@) == -1,
{
    let mut count: usize = 0;
    let mut first: usize = 0;
    let mut i: usize = 0;
    while i < hosts.len()
        invariant
            i <= hosts@.len(),
            count as nat == uuid_count(hosts@.take(i as int), u@),
            count <= i,
            count > 0 ==> first as int == first_with_uuid(hosts@.take(i as int), u@),
            count == 0 ==> first_with_uuid(hosts@.take(i as int), u@) == -1,
            first_with_uuid(hosts@.take(i as int), u@) < i,
        decreases hosts@.len() - i,
    {
        assert(hosts@.take(i + 1).drop_last() =~= hosts@.take(i as int));
        assert(hosts@.take(i + 1).last() == hosts@[i as int]);
        if hosts[i].uuid == *u {
            if count == 0 {
                first = i;
            }
            count = count + 1;
        }
        i = i + 1;
    }
    assert(hosts@.take(i as int) =~= hosts@);
    (count, first)
}

proof fn lemma_first_in_range(hosts: Seq<Host>, u: Seq<char>)
    ensures
        first_with_uuid(hosts, u) < hosts.len(),
        first_with_uuid(hosts, u) >= 0 ==> hosts[first_with_uuid(hosts, u)].uuid@ == u,
        uuid_count(hosts, u) > 0 ==> first_with_uuid(hosts, u) >= 0,
    decreases hosts.len(),
{
    if hosts.len() > 0 {
        lemma_first_in_range(hosts.drop_last(), u);
    }
}

/// Expands the templates over the known hosts: one alert per host for a
/// template that targets all hosts, one for a template that targets a single
/// host, which must be known exactly once.
pub fn alerts_from_config(configs: &Vec<AlertConfig>, hosts: &Vec<Host>) -> (r: Result<
    Vec<Alert>,
    ExpandError,
>)
    ensures
        match expansion(configs@, hosts@) {
            Ok(v) => r is Ok && r->Ok_0@ == v,
            Err(e) => r == Err::<Vec<Alert>, ExpandError>(e),
        },
{
    let mut out: Vec<Alert> = Vec::new();
    let mut ci: usize = 0;
    assert(configs@.take(0) =~= Seq::<AlertConfig>::empty());
    while ci < configs.len()
        invariant
            ci <= configs@.len(),
            expansion(configs@.take(ci as int), hosts@) == Ok::<Seq<Alert>, ExpandError>(out@),
        decreases configs@.len() - ci,
    {
        let c = &configs[ci];
        assert(configs@.take(ci + 1).drop_last() =~= configs@.take(ci as int));
        assert(configs@.take(ci + 1).last() == *c);
        let ghost base = out@;
        match &c.host_targeted {
            HostTargeted::All => {
                let mut j: usize = 0;
                assert(hosts@.take(0).map_values(|h: Host| alert_for(*c, h)) =~= Seq::<
                    Alert,
                >::empty());
                assert(base + Seq::<Alert>::empty() =~= base);
                while j < hosts.len()
                    invariant
                        j <= hosts@.len(),
                        out@ == base + hosts@.take(j as int).map_values(
                            |h: Host| alert_for(*c, h),
                        ),
                    decreases hosts@.len() - j,
                {
                    let a = build_from_config(c, &hosts[j]);
                    out.push(a);
                    assert(hosts@.take(j + 1).map_values(|h: Host| alert_for(*c, h))
                        =~= hosts@.take(j as int).map_values(|h: Host| alert_for(*c, h)).push(
                        alert_for(*c, hosts@[j as int]),
                    ));
                    j = j + 1;
                }
                assert(hosts@.take(j as int) =~= hosts@);
            },
            HostTargeted::Specific(u) => {
                let (count, first) = locate_host(hosts, u);
                proof {
                    lemma_first_in_range(hosts@, u@);
                }
                if count != 1 {
                    proof {
                        lemma_expansion_stops(configs@, hosts@, ci + 1);
                    }
                    return Err(ExpandError::UnknownHost(ci));
                }
                let a = build_from_config(c, &hosts[first]);
                out.push(a);
                assert(out@ =~= base + seq![alert_for(*c, hosts@[first as int])]);
            },
        }
        ci = ci + 1;
    }
    assert(configs@.take(ci as int) =~= configs@);
    Ok(out)
}

/// Template `c` applies to the host with uuid `u`.
pub open spec fn targets(c: AlertConfig, u: Seq<char>) -> bool {
    match c.host_targeted {
        HostTargeted::All => true,
        HostTargeted::Specific(t) => t@ == u,
    }
}

/// The alerts that the templates give on a newly seen host, in template order.
pub open spec fn alerts_for(configs: Seq<AlertConfig>, h: Host) -> Seq<Alert>
    decreases configs.len(),
{
    if configs.len() == 0 {
        Seq::empty()
    } else {
        alerts_for(configs.drop_last(), h) + if targets(configs.last(), h.uuid@) {
            seq![alert_for(configs.last(), h)]
        } else {
            Seq::empty()
        }
    }
}

/// The alerts that the templates give on a newly seen host: those of the
/// templates that target all hosts or this one.
pub fn alerts_for_host(configs: &Vec<AlertConfig>, h: &Host) -> (r: Vec<Alert>)
    ensures
        r@ == alerts_for(configs@, *h),
{
    let mut out: Vec<Alert> = Vec::new();
    let mut ci: usize = 0;
    assert(configs@.take(0) =~= Seq::<AlertConfig>::empty());
    while ci < configs.len()
        invariant
            ci <= configs@.len(),
            out@ == alerts_for(configs@.take(ci as int), *h),
        decreases configs@.len() - ci,
    {
        let c = &configs[ci];
        assert(configs@.take(ci + 1).drop_last() =~= configs@.take(ci as int));
        assert(configs@.take(ci + 1).last() == *c);
        let applies = match &c.host_targeted {
            HostTargeted::All => true,
            HostTargeted::Specific(t) => *t == h.uuid,
        };
        if applies {
            out.push(build_from_config(c, h));
            assert(out@ =~= alerts_for(configs@.take(ci + 1), *h));
        } else {
            assert(out@ =~= alerts_for(configs@.take(ci + 1), *h));
        }
        ci = ci + 1;
    }
    assert(configs@.take(ci as int) =~= configs@);
    out
}

/// Identifiers are a function of the host and the alert name: the same pair
/// always gives the same identifier, so a restart finds its alerts again.
pub proof fn alert_id_is_stable(u1: Seq<char>, n1: Seq<char>, u2: Seq<char>, n2: Seq<char>)
    requires
        u1 == u2,
        n1 == n2,
    ensures
        alert_id(u1, n1) == alert_id(u2, n2),
{
}

} // verus!
