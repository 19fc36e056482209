//! The fleet registry (`control-plane.json`) as the library holds it, and what
//! the status, health and gaps commands compute from it: service lookup, gap
//! listing, display names, deployment-status styling and the status table layout.

use vstd::prelude::*;
use crate::calls::{to_uppercase, uppercase};
use crate::checks::Tint;
use crate::text::{
    decimal, decimal_digits, last_segment, last_segment_of, pad_end, pad_start, padded_end,
    padded_start, same_text, texts,
};

verus! {

/// A broker service of the fleet.
#[derive(Clone, Debug)]
pub struct Broker {
    pub name: String,
    pub port: u16,
    pub language: String,
    pub status: Option<String>,
    pub note: Option<String>,
    pub gaps: Vec<String>,
}

/// A runtime service of the fleet (live or scaffolded).
#[derive(Clone, Debug)]
pub struct Runtime {
    pub name: String,
    pub port: u16,
    pub language: String,
    pub gaps: Vec<String>,
    pub tools: Vec<String>,
    pub auth: Option<String>,
}

/// A product-tier service of the fleet.
#[derive(Clone, Debug)]
pub struct ProductService {
    pub name: String,
    pub port: u16,
    pub product: String,
    /// Path probed for liveness.
    pub health_path: String,
    /// Full path probed for the auth gate; `None` skips that check.
    pub probe: Option<String>,
    pub auth: Option<String>,
}

/// The whole fleet registry.
#[derive(Clone, Debug)]
pub struct ControlPlane {
    pub brokers: Vec<Broker>,
    pub live_runtimes: Vec<Runtime>,
    pub scaffolded_runtimes: Vec<Runtime>,
    pub product_services: Vec<ProductService>,
}

/// The liveness path of a product service that declares none.
pub fn default_health_path() -> (r: String)
    ensures
        r@ == "/health"@,
{
    "/health".to_owned()
}

/// The short name of a runtime: the last `/`-separated segment of its name.
pub fn short_name(name: &str) -> (r: String)
    ensures
        r@ == last_segment(name@, '/'),
{
    last_segment_of(name, '/')
}

/// The name shown for a broker: `<name> [<status>]` when it has a status.
pub open spec fn broker_display_name_of(name: Seq<char>, status: Option<Seq<char>>) -> Seq<char> {
    match status {
        Some(s) => name + " ["@ + s + "]"@,
        None => name,
    }
}

/// The name shown for a broker.
pub fn broker_display_name(b: &Broker) -> (r: String)
    ensures
        r@ == broker_display_name_of(b.name@, match b.status { Some(s) => Some(s@), None => None }),
{
    match &b.status {
        Some(s) => {
            let mut out = b.name.clone();
            out.append(" [");
            out.append(s.as_str());
            out.append("]");
            out
        },
        None => b.name.clone(),
    }
}

/// The first element of `s` that satisfies `p`, if any.
pub open spec fn first_match<T>(s: Seq<T>, p: spec_fn(T) -> bool) -> Option<T>
    decreases s.len(),
{
    if s.len() == 0 {
        None
    } else if p(s[0]) {
        Some(s[0])
    } else {
        first_match(s.drop_first(), p)
    }
}

/// The first match in a concatenation is the first match in its first part,
/// else the first match in its second part.
pub proof fn first_match_concat<T>(a: Seq<T>, b: Seq<T>, p: spec_fn(T) -> bool)
    ensures
        first_match(a + b, p) == (match first_match(a, p) {
            Some(x) => Some(x),
            None => first_match(b, p),
        }),
    decreases a.len(),
{
    if a.len() == 0 {
        assert(a + b =~= b);
    } else {
        assert((a + b).drop_first() =~= a.drop_first() + b);
        first_match_concat(a.drop_first(), b, p);
    }
}

/// The first match in `s` is the first match in `s` from position `i` on, when
/// nothing before `i` matches.
proof fn first_match_skip<T>(s: Seq<T>, p: spec_fn(T) -> bool, i: int)
    requires
        0 <= i <= s.len(),
        forall|k: int| 0 <= k < i ==> !p(s[k]),
    ensures
        first_match(s, p) == first_match(s.skip(i), p),
    decreases i,
{
    if i > 0 {
        first_match_skip(s.drop_first(), p, i - 1);
        assert(s.drop_first().skip(i - 1) =~= s.skip(i));
    } else {
        assert(s.skip(0) =~= s);
    }
}

/// A broker answers to a name when the name is its own.
pub open spec fn broker_named(name: Seq<char>) -> spec_fn(Broker) -> bool {
    |b: Broker| b.name@ == name
}

/// A runtime answers to a name when the name is its full name or its short name.
pub open spec fn runtime_named(name: Seq<char>) -> spec_fn(Runtime) -> bool {
    |r: Runtime| r.name@ == name || last_segment(r.name@, '/') == name
}

/// The port and language of the service a health ping for `name` goes to: the
/// first broker of that name, else the first live or scaffolded runtime that
/// answers to it.
pub open spec fn health_target_of(cp: ControlPlane, name: Seq<char>) -> Option<(u16, Seq<char>)> {
    match first_match(cp.brokers@, broker_named(name)) {
        Some(b) => Some((b.port, b.language@)),
        None => match first_match(cp.live_runtimes@ + cp.scaffolded_runtimes@, runtime_named(name)) {
            Some(r) => Some((r.port, r.language@)),
            None => None,
        },
    }
}

fn find_broker(bs: &Vec<Broker>, name: &str) -> (r: Option<usize>)
    ensures
        match r {
            Some(i) => i < bs@.len() && first_match(bs@, broker_named(name@)) == Some(bs@[i as int]),
            None => first_match(bs@, broker_named(name@)) is None,
        },
{
    let mut i: usize = 0;
    while i < bs.len()
        invariant
            i <= bs@.len(),
            forall|k: int| 0 <= k < i ==> !broker_named(name@)(bs@[k]),
        decreases bs.len() - i,
    {
        if same_text(bs[i].name.as_str(), name) {
            proof {
                first_match_skip(bs@, broker_named(name@), i as int);
            }
            return Some(i);
        }
        i = i + 1;
    }
    proof {
        first_match_skip(bs@, broker_named(name@), i as int);
    }
    None
}

fn find_runtime(rs: &Vec<Runtime>, name: &str) -> (r: Option<usize>)
    ensures
        match r {
            Some(i) => i < rs@.len() && first_match(rs@, runtime_named(name@)) == Some(rs@[i as int]),
            None => first_match(rs@, runtime_named(name@)) is None,
        },
{
    let mut i: usize = 0;
    while i < rs.len()
        invariant
            i <= rs@.len(),
            forall|k: int| 0 <= k < i ==> !runtime_named(name@)(rs@[k]),
        decreases rs.len() - i,
    {
        let full = same_text(rs[i].name.as_str(), name);
        let short = short_name(rs[i].name.as_str());
        if full || same_text(short.as_str(), name) {
            proof {
                first_match_skip(rs@, runtime_named(name@), i as int);
            }
            return Some(i);
        }
        i = i + 1;
    }
    proof {
        first_match_skip(rs@, runtime_named(name@), i as int);
    }
    None
}

/// Finds the port and language of the service `name` for a health ping.
pub fn health_target(cp: &ControlPlane, name: &str) -> (r: Option<(u16, String)>)
    ensures
        match r {
            Some(t) => health_target_of(*cp, name@) == Some((t.0, t.1@)),
            None => health_target_of(*cp, name@) is None,
        },
{
    proof {
        first_match_concat(cp.live_runtimes@, cp.scaffolded_runtimes@, runtime_named(name@));
    }
    match find_broker(&cp.brokers, name) {
        Some(i) => Some((cp.brokers[i].port, cp.brokers[i].language.clone())),
        None => match find_runtime(&cp.live_runtimes, name) {
            Some(i) => Some((cp.live_runtimes[i].port, cp.live_runtimes[i].language.clone())),
            None => match find_runtime(&cp.scaffolded_runtimes, name) {
                Some(i) => Some(
                    (cp.scaffolded_runtimes[i].port, cp.scaffolded_runtimes[i].language.clone()),
                ),
                None => None,
            },
        },
    }
}

/// Each gap of a service, paired with the service's name.
pub open spec fn gaps_of(name: Seq<char>, gaps: Seq<String>) -> Seq<(Seq<char>, Seq<char>)> {
    gaps.map_values(|g: String| (name, g@))
}

/// The gaps of a list of brokers, service by service.
pub open spec fn broker_gaps(bs: Seq<Broker>) -> Seq<(Seq<char>, Seq<char>)>
    decreases bs.len(),
{
    if bs.len() == 0 {
        Seq::empty()
    } else {
        broker_gaps(bs.drop_last()) + gaps_of(bs.last().name@, bs.last().gaps@)
    }
}

/// The gaps of a list of runtimes, service by service.
pub open spec fn runtime_gaps(rs: Seq<Runtime>) -> Seq<(Seq<char>, Seq<char>)>
    decreases rs.len(),
{
    if rs.len() == 0 {
        Seq::empty()
    } else {
        runtime_gaps(rs.drop_last()) + gaps_of(rs.last().name@, rs.last().gaps@)
    }
}

/// Every recorded gap of the fleet with its service: brokers first, then live
/// runtimes, then scaffolded runtimes, each service's gaps in order.
pub open spec fn fleet_gaps(cp: ControlPlane) -> Seq<(Seq<char>, Seq<char>)> {
    broker_gaps(cp.brokers@) + runtime_gaps(cp.live_runtimes@ + cp.scaffolded_runtimes@)
}

/// The texts of a sequence of pairs of strings.
pub open spec fn text_pairs(v: Seq<(String, String)>) -> Seq<(Seq<char>, Seq<char>)> {
    v.map_values(|p: (String, String)| (p.0@, p.1@))
}

fn push_gaps(out: &mut Vec<(String, String)>, name: &String, gaps: &Vec<String>)
    ensures
        text_pairs(final(out)@) == text_pairs(old(out)@) + gaps_of(name@, gaps@),
{
    let ghost start = text_pairs(out@);
    let mut i: usize = 0;
    while i < gaps.len()
        invariant
            i <= gaps@.len(),
            text_pairs(out@) == start + gaps_of(name@, gaps@.take(i as int)),
        decreases gaps.len() - i,
    {
        let ghost before = text_pairs(out@);
        let item = (name.clone(), gaps[i].clone());
        out.push(item);
        assert(text_pairs(out@) =~= before.push((name@, gaps@[i as int]@)));
        assert(gaps_of(name@, gaps@.take(i + 1)) =~= gaps_of(name@, gaps@.take(i as int)).push(
            (name@, gaps@[i as int]@),
        ));
        i = i + 1;
        assert(text_pairs(out@) =~= start + gaps_of(name@, gaps@.take(i as int)));
    }
    assert(gaps@.take(gaps@.len() as int) =~= gaps@);
}

fn push_runtime_gaps(out: &mut Vec<(String, String)>, rs: &Vec<Runtime>)
    ensures
        text_pairs(final(out)@) == text_pairs(old(out)@) + runtime_gaps(rs@),
{
    let ghost start = text_pairs(out@);
    let mut i: usize = 0;
    while i < rs.len()
        invariant
            i <= rs@.len(),
            text_pairs(out@) == start + runtime_gaps(rs@.take(i as int)),
        decreases rs.len() - i,
    {
        assert(rs@.take(i + 1).drop_last() =~= rs@.take(i as int));
        push_gaps(out, &rs[i].name, &rs[i].gaps);
        i = i + 1;
        assert(text_pairs(out@) =~= start + runtime_gaps(rs@.take(i as int)));
    }
    assert(rs@.take(rs@.len() as int) =~= rs@);
}

proof fn runtime_gaps_concat(a: Seq<Runtime>, b: Seq<Runtime>)
    ensures
        runtime_gaps(a + b) == runtime_gaps(a) + runtime_gaps(b),
    decreases b.len(),
{
    if b.len() == 0 {
        assert(a + b =~= a);
        assert(runtime_gaps(a) + runtime_gaps(b) =~= runtime_gaps(a));
    } else {
        assert((a + b).drop_last() =~= a + b.drop_last());
        runtime_gaps_concat(a, b.drop_last());
        assert(runtime_gaps(a) + runtime_gaps(b) =~= runtime_gaps(a) + runtime_gaps(b.drop_last())
            + gaps_of(b.last().name@, b.last().gaps@));
    }
}

/// Lists every recorded gap of the fleet with the name of its service.
pub fn collect_gaps(cp: &ControlPlane) -> (r: Vec<(String, String)>)
    ensures
        text_pairs(r@) == fleet_gaps(*cp),
{
    let mut out: Vec<(String, String)> = Vec::new();
    assert(text_pairs(out@) =~= Seq::<(Seq<char>, Seq<char>)>::empty());
    let mut i: usize = 0;
    while i < cp.brokers.len()
        invariant
            i <= cp.brokers@.len(),
            text_pairs(out@) == broker_gaps(cp.brokers@.take(i as int)),
        decreases cp.brokers.len() - i,
    {
        assert(cp.brokers@.take(i + 1).drop_last() =~= cp.brokers@.take(i as int));
        push_gaps(&mut out, &cp.brokers[i].name, &cp.brokers[i].gaps);
        i = i + 1;
    }
    assert(cp.brokers@.take(cp.brokers@.len() as int) =~= cp.brokers@);
    push_runtime_gaps(&mut out, &cp.live_runtimes);
    push_runtime_gaps(&mut out, &cp.scaffolded_runtimes);
    proof {
        runtime_gaps_concat(cp.live_runtimes@, cp.scaffolded_runtimes@);
    }
    assert(text_pairs(out@) =~= fleet_gaps(*cp));
    out
}

proof fn broker_gaps_empty(bs: Seq<Broker>)
    ensures
        broker_gaps(bs).len() == 0 <==> forall|i: int| 0 <= i < bs.len() ==> bs[i].gaps@.len() == 0,
    decreases bs.len(),
{
    if bs.len() > 0 {
        broker_gaps_empty(bs.drop_last());
        assert forall|i: int| 0 <= i < bs.len() - 1 implies bs.drop_last()[i] == bs[i] by {}
    }
}

proof fn runtime_gaps_empty(rs: Seq<Runtime>)
    ensures
        runtime_gaps(rs).len() == 0 <==> forall|i: int| 0 <= i < rs.len() ==> rs[i].gaps@.len() == 0,
    decreases rs.len(),
{
    if rs.len() > 0 {
        runtime_gaps_empty(rs.drop_last());
        assert forall|i: int| 0 <= i < rs.len() - 1 implies rs.drop_last()[i] == rs[i] by {}
    }
}

/// The gaps listing is empty ("no gaps recorded") exactly when no broker and no
/// live or scaffolded runtime records a gap.
pub proof fn no_gaps_exactly_when_none_recorded(cp: ControlPlane)
    ensures
        fleet_gaps(cp).len() == 0 <==> (
            (forall|i: int| 0 <= i < cp.brokers@.len() ==> cp.brokers@[i].gaps@.len() == 0)
            && (forall|i: int| 0 <= i < cp.live_runtimes@.len() ==> cp.live_runtimes@[i].gaps@.len() == 0)
            && (forall|i: int| 0 <= i < cp.scaffolded_runtimes@.len()
                ==> cp.scaffolded_runtimes@[i].gaps@.len() == 0)
        ),
{
    let all = cp.live_runtimes@ + cp.scaffolded_runtimes@;
    broker_gaps_empty(cp.brokers@);
    runtime_gaps_empty(all);
    let n = cp.live_runtimes@.len();
    let live_empty = forall|i: int| 0 <= i < n ==> cp.live_runtimes@[i].gaps@.len() == 0;
    let scaf_empty = forall|i: int| 0 <= i < cp.scaffolded_runtimes@.len()
        ==> cp.scaffolded_runtimes@[i].gaps@.len() == 0;
    let all_empty = forall|i: int| 0 <= i < all.len() ==> all[i].gaps@.len() == 0;
    if all_empty {
        assert forall|i: int| 0 <= i < n implies cp.live_runtimes@[i].gaps@.len() == 0 by {
            assert(all[i] == cp.live_runtimes@[i]);
        }
        assert forall|i: int| 0 <= i < cp.scaffolded_runtimes@.len()
            implies cp.scaffolded_runtimes@[i].gaps@.len() == 0 by {
            assert(all[n + i] == cp.scaffolded_runtimes@[i]);
        }
    }
    if live_empty && scaf_empty {
        assert forall|i: int| 0 <= i < all.len() implies all[i].gaps@.len() == 0 by {
            if i < n {
                assert(all[i] == cp.live_runtimes@[i]);
            } else {
                assert(all[i] == cp.scaffolded_runtimes@[i - n]);
            }
        }
    }
    assert(all_empty <==> (live_empty && scaf_empty));
}

/// The number of gaps recorded by a list of brokers.
pub open spec fn broker_gap_count(bs: Seq<Broker>) -> nat
    decreases bs.len(),
{
    if bs.len() == 0 {
        0
    } else {
        broker_gap_count(bs.drop_last()) + bs.last().gaps@.len()
    }
}

/// The number of gaps recorded by a list of runtimes.
pub open spec fn runtime_gap_count(rs: Seq<Runtime>) -> nat
    decreases rs.len(),
{
    if rs.len() == 0 {
        0
    } else {
        runtime_gap_count(rs.drop_last()) + rs.last().gaps@.len()
    }
}

proof fn broker_gaps_placed(bs: Seq<Broker>, i: int, j: int)
    requires
        0 <= i < bs.len(),
        0 <= j < bs[i].gaps@.len(),
    ensures
        broker_gaps(bs).len() == broker_gap_count(bs),
        broker_gap_count(bs.take(i)) + j < broker_gaps(bs).len(),
        broker_gaps(bs)[broker_gap_count(bs.take(i)) + j] == (bs[i].name@, bs[i].gaps@[j]@),
    decreases bs.len(),
{
    broker_gaps_count(bs);
    let last = bs.len() - 1;
    broker_gaps_count(bs.drop_last());
    if i == last {
        assert(bs.take(i) =~= bs.drop_last());
    } else {
        broker_gaps_placed(bs.drop_last(), i, j);
        assert(bs.drop_last().take(i) =~= bs.take(i));
        assert(bs.drop_last()[i] == bs[i]);
    }
}

proof fn broker_gaps_count(bs: Seq<Broker>)
    ensures
        broker_gaps(bs).len() == broker_gap_count(bs),
    decreases bs.len(),
{
    if bs.len() > 0 {
        broker_gaps_count(bs.drop_last());
    }
}

proof fn runtime_gaps_count(rs: Seq<Runtime>)
    ensures
        runtime_gaps(rs).len() == runtime_gap_count(rs),
    decreases rs.len(),
{
    if rs.len() > 0 {
        runtime_gaps_count(rs.drop_last());
    }
}

proof fn runtime_gaps_placed(rs: Seq<Runtime>, i: int, j: int)
    requires
        0 <= i < rs.len(),
        0 <= j < rs[i].gaps@.len(),
    ensures
        runtime_gap_count(rs.take(i)) + j < runtime_gaps(rs).len(),
        runtime_gaps(rs)[runtime_gap_count(rs.take(i)) + j] == (rs[i].name@, rs[i].gaps@[j]@),
    decreases rs.len(),
{
    runtime_gaps_count(rs);
    runtime_gaps_count(rs.drop_last());
    if i == rs.len() - 1 {
        assert(rs.take(i) =~= rs.drop_last());
    } else {
        runtime_gaps_placed(rs.drop_last(), i, j);
        assert(rs.drop_last().take(i) =~= rs.take(i));
        assert(rs.drop_last()[i] == rs[i]);
    }
}

/// The gaps listing holds every recorded gap and nothing else: its length is the
/// total number of gaps of brokers, live runtimes and scaffolded runtimes.
pub proof fn gaps_listing_counts_every_gap(cp: ControlPlane)
    ensures
        fleet_gaps(cp).len() == broker_gap_count(cp.brokers@) + runtime_gap_count(cp.live_runtimes@)
            + runtime_gap_count(cp.scaffolded_runtimes@),
{
    broker_gaps_count(cp.brokers@);
    runtime_gaps_concat(cp.live_runtimes@, cp.scaffolded_runtimes@);
    runtime_gaps_count(cp.live_runtimes@);
    runtime_gaps_count(cp.scaffolded_runtimes@);
}

/// Gap `j` of broker `i` is listed with the broker's name at position (gaps of the
/// brokers before it) + `j`: each broker's gaps appear in full, in order, after
/// those of the brokers before it.
pub proof fn broker_gap_is_listed(cp: ControlPlane, i: int, j: int)
    requires
        0 <= i < cp.brokers@.len(),
        0 <= j < cp.brokers@[i].gaps@.len(),
    ensures
        broker_gap_count(cp.brokers@.take(i)) + j < fleet_gaps(cp).len(),
        fleet_gaps(cp)[broker_gap_count(cp.brokers@.take(i)) + j] == (
            cp.brokers@[i].name@,
            cp.brokers@[i].gaps@[j]@,
        ),
{
    broker_gaps_placed(cp.brokers@, i, j);
}

/// Gap `j` of live runtime `i` is listed with its name after all broker gaps and
/// the gaps of the live runtimes before it.
pub proof fn live_runtime_gap_is_listed(cp: ControlPlane, i: int, j: int)
    requires
        0 <= i < cp.live_runtimes@.len(),
        0 <= j < cp.live_runtimes@[i].gaps@.len(),
    ensures
        fleet_gaps(cp)[broker_gap_count(cp.brokers@) + runtime_gap_count(cp.live_runtimes@.take(i)) + j] == (
            cp.live_runtimes@[i].name@,
            cp.live_runtimes@[i].gaps@[j]@,
        ),
{
    broker_gaps_count(cp.brokers@);
    runtime_gaps_concat(cp.live_runtimes@, cp.scaffolded_runtimes@);
    runtime_gaps_placed(cp.live_runtimes@, i, j);
}

/// Gap `j` of scaffolded runtime `i` is listed with its name after all broker and
/// live-runtime gaps and the gaps of the scaffolded runtimes before it.
pub proof fn scaffolded_runtime_gap_is_listed(cp: ControlPlane, i: int, j: int)
    requires
        0 <= i < cp.scaffolded_runtimes@.len(),
        0 <= j < cp.scaffolded_runtimes@[i].gaps@.len(),
    ensures
        fleet_gaps(cp)[broker_gap_count(cp.brokers@) + runtime_gap_count(cp.live_runtimes@)
            + runtime_gap_count(cp.scaffolded_runtimes@.take(i)) + j] == (
            cp.scaffolded_runtimes@[i].name@,
            cp.scaffolded_runtimes@[i].gaps@[j]@,
        ),
{
    broker_gaps_count(cp.brokers@);
    runtime_gaps_count(cp.live_runtimes@);
    runtime_gaps_concat(cp.live_runtimes@, cp.scaffolded_runtimes@);
    runtime_gaps_placed(cp.scaffolded_runtimes@, i, j);
}

/// The style of a deployment status, judged on its uppercase form: `SUCCESS`
/// green, `FAILED` or `CRASHED` bold red, `DEPLOYING` or `BUILDING` yellow,
/// anything else plain.
pub open spec fn status_tint_of(upper: Seq<char>) -> Tint {
    if upper == "SUCCESS"@ {
        Tint::Green
    } else if upper == "FAILED"@ || upper == "CRASHED"@ {
        Tint::RedBold
    } else if upper == "DEPLOYING"@ || upper == "BUILDING"@ {
        Tint::Yellow
    } else {
        Tint::Plain
    }
}

/// The style of a deployment status given its uppercase form.
pub fn tint_for_uppercase_status(upper: &str) -> (r: Tint)
    ensures
        r == status_tint_of(upper@),
{
    if same_text(upper, "SUCCESS") {
        Tint::Green
    } else if same_text(upper, "FAILED") || same_text(upper, "CRASHED") {
        Tint::RedBold
    } else if same_text(upper, "DEPLOYING") || same_text(upper, "BUILDING") {
        Tint::Yellow
    } else {
        Tint::Plain
    }
}

/// The style of a deployment status as Railway reports it (any case); the status
/// is uppercased with `str::to_uppercase` first.
pub fn railway_status_tint(status: &str) -> (r: Tint)
    ensures
        r == status_tint_of(uppercase(status@)),
{
    let upper = to_uppercase(status);
    tint_for_uppercase_status(upper.as_str())
}

/// The Railway column of a status row: the deployment status styled by
/// `railway_status_tint`, or a dimmed `—` when there is none (no token, or no
/// answer).
pub fn railway_cell(status: Option<&str>) -> (r: (String, Tint))
    ensures
        match status {
            Some(s) => r.0@ == s@ && r.1 == status_tint_of(uppercase(s@)),
            None => r.0@ == "—"@ && r.1 == Tint::Dimmed,
        },
{
    match status {
        Some(s) => (s.to_owned(), railway_status_tint(s)),
        None => ("—".to_owned(), Tint::Dimmed),
    }
}

/// Width of the name column of the status table.
pub const NAME_WIDTH: usize = 38;
/// Width of the port column.
pub const PORT_WIDTH: usize = 6;
/// Width of the language column.
pub const LANG_WIDTH: usize = 12;
/// Width of the Railway status column.
pub const RAIL_WIDTH: usize = 16;
/// Width of the local health column.
pub const LOCAL_WIDTH: usize = 14;

/// One row of the status table: name, port (right-aligned), language, Railway
/// column and local column, in their widths.
pub open spec fn table_row_of(
    name: Seq<char>,
    port: u16,
    lang: Seq<char>,
    rail: Seq<char>,
    local: Seq<char>,
) -> Seq<char> {
    padded_end(name, 38) + " "@ + padded_start(decimal_digits(port as nat), 6) + "  "@
        + padded_end(lang, 12) + " "@ + padded_end(rail, 16) + " "@ + local
}

/// Lays out one row of the status table; `rail` and `local` are the already
/// styled Railway and local-health texts.
pub fn table_row(name: &str, port: u16, lang: &str, rail: &str, local: &str) -> (r: String)
    ensures
        r@ == table_row_of(name@, port, lang@, rail@, local@),
{
    let mut out = pad_end(name, NAME_WIDTH);
    out.append(" ");
    out.append(pad_start(decimal(port as u64).as_str(), PORT_WIDTH).as_str());
    out.append("  ");
    out.append(pad_end(lang, LANG_WIDTH).as_str());
    out.append(" ");
    out.append(pad_end(rail, RAIL_WIDTH).as_str());
    out.append(" ");
    out.append(local);
    out
}

/// The rule under the table header: one `─` per column character and separator.
pub fn table_rule() -> (r: String)
    ensures
        r@ == Seq::new(92, |i: int| '─'),
{
    let total = NAME_WIDTH + PORT_WIDTH + LANG_WIDTH + RAIL_WIDTH + LOCAL_WIDTH + 6;
    let mut out = String::new();
    let mut i: usize = 0;
    while i < total
        invariant
            total == 92,
            i <= total,
            out@ =~= Seq::new(i as nat, |k: int| '─'),
        decreases total - i,
    {
        crate::calls::push_char(&mut out, '─');
        i = i + 1;
    }
    out
}

} // verus!
