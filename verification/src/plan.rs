//! Planning a verify run: which services a filter selects and what each one is
//! probed with, plus the heading of the run.

use vstd::prelude::*;
use crate::calls::{lowercase, to_lowercase};
use crate::fleet::{ControlPlane, ProductService, Runtime};
use crate::text::contains_text;
use crate::text::contains;

verus! {

/// The probes planned for one service.
#[derive(Clone, Debug)]
pub struct ServiceCheck {
    pub name: String,
    pub port: u16,
    /// Full path probed for liveness.
    pub health_path: String,
    /// Full path probed for the auth gate; `None` skips that check.
    pub probe_path: Option<String>,
}

/// The model of a planned service check.
pub struct ServiceCheckView {
    pub name: Seq<char>,
    pub port: u16,
    pub health_path: Seq<char>,
    pub probe_path: Option<Seq<char>>,
}

impl View for ServiceCheck {
    type V = ServiceCheckView;

    open spec fn view(&self) -> ServiceCheckView {
        ServiceCheckView {
            name: self.name@,
            port: self.port,
            health_path: self.health_path@,
            probe_path: match self.probe_path {
                Some(p) => Some(p@),
                None => None,
            },
        }
    }
}

/// The models of a sequence of planned checks.
pub open spec fn check_views(v: Seq<ServiceCheck>) -> Seq<ServiceCheckView> {
    v.map_values(|c: ServiceCheck| c@)
}

/// A runtime's auth is internal-only when its `auth` text mentions it.
pub open spec fn internal_only(r: Runtime) -> bool {
    match r.auth {
        Some(a) => contains_text(a@, "internal-only"@),
        None => false,
    }
}

/// The checks of a live runtime: liveness on `/health`, and the auth gate on
/// `/v1/<first tool>` unless its auth is internal-only or it has no tool.
pub open spec fn runtime_check_of(r: Runtime) -> ServiceCheckView {
    ServiceCheckView {
        name: r.name@,
        port: r.port,
        health_path: "/health"@,
        probe_path: if internal_only(r) || r.tools@.len() == 0 {
            None
        } else {
            Some("/v1/"@ + r.tools@[0]@)
        },
    }
}

/// The checks of a product service: liveness on its declared health path, and the
/// auth gate on its declared probe path, if any.
pub open spec fn product_check_of(p: ProductService) -> ServiceCheckView {
    ServiceCheckView {
        name: p.name@,
        port: p.port,
        health_path: p.health_path@,
        probe_path: match p.probe {
            Some(x) => Some(x@),
            None => None,
        },
    }
}

/// Whether a service is selected by a (lowercased) filter: every service when
/// there is none, else one whose lowercased name, or lowercased product, holds it.
pub open spec fn filter_selects(
    name_lower: Seq<char>,
    product_lower: Option<Seq<char>>,
    filter_lower: Option<Seq<char>>,
) -> bool {
    match filter_lower {
        None => true,
        Some(f) => contains_text(name_lower, f) || match product_lower {
            Some(p) => contains_text(p, f),
            None => false,
        },
    }
}

/// The checks of the live runtimes that the filter selects, in order.
pub open spec fn selected_runtimes(rs: Seq<Runtime>, f: Option<Seq<char>>) -> Seq<ServiceCheckView>
    decreases rs.len(),
{
    if rs.len() == 0 {
        Seq::empty()
    } else {
        let rest = selected_runtimes(rs.drop_last(), f);
        if filter_selects(lowercase(rs.last().name@), None, f) {
            rest.push(runtime_check_of(rs.last()))
        } else {
            rest
        }
    }
}

/// The checks of the product services that the filter selects, in order.
pub open spec fn selected_products(ps: Seq<ProductService>, f: Option<Seq<char>>) -> Seq<ServiceCheckView>
    decreases ps.len(),
{
    if ps.len() == 0 {
        Seq::empty()
    } else {
        let rest = selected_products(ps.drop_last(), f);
        let p = ps.last();
        if filter_selects(lowercase(p.name@), Some(lowercase(p.product@)), f) {
            rest.push(product_check_of(p))
        } else {
            rest
        }
    }
}

/// The plan of a verify run: the selected live runtimes, then the selected
/// product services; `None` (an error) when a filter was given and selects
/// nothing.
pub open spec fn verify_plan_of(cp: ControlPlane, filter: Option<Seq<char>>) -> Option<Seq<ServiceCheckView>> {
    let f = match filter {
        Some(x) => Some(lowercase(x)),
        None => None,
    };
    let rt = selected_runtimes(cp.live_runtimes@, f);
    let pr = selected_products(cp.product_services@, f);
    if rt.len() == 0 && pr.len() == 0 && filter is Some {
        None
    } else {
        Some(rt + pr)
    }
}

/// Whether a service is selected, given the lowercased forms of its name, of its
/// product and of the filter.
pub fn service_selected(name_lower: &str, product_lower: Option<&str>, filter_lower: Option<&str>) -> (r: bool)
    ensures
        r == filter_selects(
            name_lower@,
            match product_lower { Some(p) => Some(p@), None => None },
            match filter_lower { Some(f) => Some(f@), None => None },
        ),
{
    match filter_lower {
        None => true,
        Some(f) => {
            if contains(name_lower, f) {
                true
            } else {
                match product_lower {
                    Some(p) => contains(p, f),
                    None => false,
                }
            }
        },
    }
}

fn prefixed(prefix: &str, rest: &str) -> (r: String)
    ensures
        r@ == prefix@ + rest@,
{
    let mut out = prefix.to_owned();
    out.append(rest);
    out
}

/// The checks planned for a live runtime.
pub fn runtime_check(r: &Runtime) -> (c: ServiceCheck)
    ensures
        c@ == runtime_check_of(*r),
{
    let skip_auth = match &r.auth {
        Some(a) => contains(a.as_str(), "internal-only"),
        None => false,
    };
    let probe_path = if skip_auth || r.tools.len() == 0 {
        None
    } else {
        Some(prefixed("/v1/", r.tools[0].as_str()))
    };
    ServiceCheck { name: r.name.clone(), port: r.port, health_path: "/health".to_owned(), probe_path }
}

/// The checks planned for a product service.
pub fn product_check(p: &ProductService) -> (c: ServiceCheck)
    ensures
        c@ == product_check_of(*p),
{
    let probe_path = match &p.probe {
        Some(x) => Some(x.clone()),
        None => None,
    };
    ServiceCheck { name: p.name.clone(), port: p.port, health_path: p.health_path.clone(), probe_path }
}

/// Plans a verify run over the registry with an optional name or product filter,
/// matched case-insensitively through `str::to_lowercase`; `None` when a filter
/// was given and no service matches it.
pub fn plan_verify(cp: &ControlPlane, filter: Option<&str>) -> (r: Option<Vec<ServiceCheck>>)
    ensures
        match r {
            Some(v) => verify_plan_of(*cp, match filter { Some(f) => Some(f@), None => None }) == Some(check_views(v@)),
            None => verify_plan_of(*cp, match filter { Some(f) => Some(f@), None => None }) is None,
        },
{
    let f_lower: Option<String> = match filter {
        Some(f) => Some(to_lowercase(f)),
        None => None,
    };
    let ghost fl = match filter { Some(x) => Some(lowercase(x@)), None => None };
    let mut out: Vec<ServiceCheck> = Vec::new();
    let mut i: usize = 0;
    while i < cp.live_runtimes.len()
        invariant
            i <= cp.live_runtimes@.len(),
            fl == match f_lower { Some(x) => Some(x@), None => None },
            check_views(out@) == selected_runtimes(cp.live_runtimes@.take(i as int), fl),
        decreases cp.live_runtimes.len() - i,
    {
        let r = &cp.live_runtimes[i];
        assert(cp.live_runtimes@.take(i + 1).drop_last() =~= cp.live_runtimes@.take(i as int));
        assert(cp.live_runtimes@.take(i + 1).last() == *r);
        let name_lower = to_lowercase(r.name.as_str());
        let keep = match &f_lower {
            Some(x) => service_selected(name_lower.as_str(), None, Some(x.as_str())),
            None => service_selected(name_lower.as_str(), None, None),
        };
        if keep {
            let ghost before = check_views(out@);
            let c = runtime_check(r);
            out.push(c);
            assert(check_views(out@) =~= before.push(c@));
        }
        i = i + 1;
    }
    assert(cp.live_runtimes@.take(cp.live_runtimes@.len() as int) =~= cp.live_runtimes@);
    let n_runtimes = out.len();
    let ghost rt = check_views(out@);
    let mut j: usize = 0;
    while j < cp.product_services.len()
        invariant
            j <= cp.product_services@.len(),
            fl == match f_lower { Some(x) => Some(x@), None => None },
            rt == selected_runtimes(cp.live_runtimes@, fl),
            n_runtimes == rt.len(),
            check_views(out@) == rt + selected_products(cp.product_services@.take(j as int), fl),
        decreases cp.product_services.len() - j,
    {
        let p = &cp.product_services[j];
        assert(cp.product_services@.take(j + 1).drop_last() =~= cp.product_services@.take(j as int));
        assert(cp.product_services@.take(j + 1).last() == *p);
        let name_lower = to_lowercase(p.name.as_str());
        let product_lower = to_lowercase(p.product.as_str());
        let keep = match &f_lower {
            Some(x) => service_selected(name_lower.as_str(), Some(product_lower.as_str()), Some(x.as_str())),
            None => service_selected(name_lower.as_str(), Some(product_lower.as_str()), None),
        };
        if keep {
            let ghost before = check_views(out@);
            let c = product_check(p);
            out.push(c);
            assert(check_views(out@) =~= before.push(c@));
            assert(rt + selected_products(cp.product_services@.take(j + 1), fl) =~= before.push(c@));
        }
        j = j + 1;
    }
    assert(cp.product_services@.take(cp.product_services@.len() as int) =~= cp.product_services@);
    if out.len() == 0 && filter.is_some() {
        None
    } else {
        Some(out)
    }
}

/// The heading of a verify run.
pub fn verify_heading(filter: Option<&str>) -> (r: String)
    ensures
        r@ == "── "@ + (match filter {
            Some(f) => "VERIFY: "@ + f@,
            None => "VERIFY: all live runtimes"@,
        }) + " ──────────────────────────────────────────────"@,
{
    let mut out = "── ".to_owned();
    match filter {
        Some(f) => {
            out.append("VERIFY: ");
            out.append(f);
        },
        None => out.append("VERIFY: all live runtimes"),
    }
    out.append(" ──────────────────────────────────────────────");
    out
}

proof fn selected_runtimes_unfiltered(rs: Seq<Runtime>)
    ensures
        selected_runtimes(rs, None) == rs.map_values(|r: Runtime| runtime_check_of(r)),
    decreases rs.len(),
{
    if rs.len() > 0 {
        selected_runtimes_unfiltered(rs.drop_last());
        assert(rs.map_values(|r: Runtime| runtime_check_of(r)) =~= rs.drop_last().map_values(
            |r: Runtime| runtime_check_of(r),
        ).push(runtime_check_of(rs.last())));
    } else {
        assert(rs.map_values(|r: Runtime| runtime_check_of(r)) =~= Seq::<ServiceCheckView>::empty());
    }
}

proof fn selected_products_unfiltered(ps: Seq<ProductService>)
    ensures
        selected_products(ps, None) == ps.map_values(|p: ProductService| product_check_of(p)),
    decreases ps.len(),
{
    if ps.len() > 0 {
        selected_products_unfiltered(ps.drop_last());
        assert(ps.map_values(|p: ProductService| product_check_of(p)) =~= ps.drop_last().map_values(
            |p: ProductService| product_check_of(p),
        ).push(product_check_of(ps.last())));
    } else {
        assert(ps.map_values(|p: ProductService| product_check_of(p)) =~= Seq::<ServiceCheckView>::empty());
    }
}

/// Without a filter, a verify run checks every live runtime and then every
/// product service, each exactly once and in registry order.
pub proof fn unfiltered_plan_covers_all(cp: ControlPlane)
    ensures
        verify_plan_of(cp, None) == Some(
            cp.live_runtimes@.map_values(|r: Runtime| runtime_check_of(r))
                + cp.product_services@.map_values(|p: ProductService| product_check_of(p)),
        ),
{
    selected_runtimes_unfiltered(cp.live_runtimes@);
    selected_products_unfiltered(cp.product_services@);
}

/// A verify run with a filter is refused exactly when the filter selects no live
/// runtime and no product service.
pub proof fn filtered_plan_refused_when_nothing_matches(cp: ControlPlane, filter: Seq<char>)
    ensures
        verify_plan_of(cp, Some(filter)) is None <==> (
            selected_runtimes(cp.live_runtimes@, Some(lowercase(filter))).len() == 0
            && selected_products(cp.product_services@, Some(lowercase(filter))).len() == 0
        ),
{
}

proof fn selected_products_holds(ps: Seq<ProductService>, f: Seq<char>, j: int)
    requires
        0 <= j < ps.len(),
        contains_text(lowercase(ps[j].name@), f) || contains_text(lowercase(ps[j].product@), f),
    ensures
        selected_products(ps, Some(f)).contains(product_check_of(ps[j])),
    decreases ps.len(),
{
    let rest = selected_products(ps.drop_last(), Some(f));
    if j == ps.len() - 1 {
        assert(selected_products(ps, Some(f)) == rest.push(product_check_of(ps[j])));
        assert(selected_products(ps, Some(f))[rest.len() as int] == product_check_of(ps[j]));
    } else {
        selected_products_holds(ps.drop_last(), f, j);
        assert(ps.drop_last()[j] == ps[j]);
        let k = choose|k: int| 0 <= k < rest.len() && rest[k] == product_check_of(ps[j]);
        let all = selected_products(ps, Some(f));
        assert(all.len() >= rest.len());
        assert(all[k] == rest[k]);
    }
}

proof fn selected_runtimes_holds(rs: Seq<Runtime>, f: Seq<char>, j: int)
    requires
        0 <= j < rs.len(),
        contains_text(lowercase(rs[j].name@), f),
    ensures
        selected_runtimes(rs, Some(f)).contains(runtime_check_of(rs[j])),
    decreases rs.len(),
{
    let rest = selected_runtimes(rs.drop_last(), Some(f));
    if j == rs.len() - 1 {
        assert(selected_runtimes(rs, Some(f)) == rest.push(runtime_check_of(rs[j])));
        assert(selected_runtimes(rs, Some(f))[rest.len() as int] == runtime_check_of(rs[j]));
    } else {
        selected_runtimes_holds(rs.drop_last(), f, j);
        assert(rs.drop_last()[j] == rs[j]);
        let k = choose|k: int| 0 <= k < rest.len() && rest[k] == runtime_check_of(rs[j]);
        let all = selected_runtimes(rs, Some(f));
        assert(all.len() >= rest.len());
        assert(all[k] == rest[k]);
    }
}

/// A product service whose lowercased name or lowercased product holds the
/// lowercased filter is checked: the run is not refused, and its plan probes that
/// service on its port and declared health path, with its declared auth probe.
pub proof fn matching_product_is_planned(cp: ControlPlane, filter: Seq<char>, j: int)
    requires
        0 <= j < cp.product_services@.len(),
        contains_text(lowercase(cp.product_services@[j].name@), lowercase(filter))
            || contains_text(lowercase(cp.product_services@[j].product@), lowercase(filter)),
    ensures
        verify_plan_of(cp, Some(filter)) is Some,
        exists|k: int|
            0 <= k < verify_plan_of(cp, Some(filter))->0.len() && #[trigger] verify_plan_of(
                cp,
                Some(filter),
            )->0[k] == (ServiceCheckView {
                name: cp.product_services@[j].name@,
                port: cp.product_services@[j].port,
                health_path: cp.product_services@[j].health_path@,
                probe_path: match cp.product_services@[j].probe {
                    Some(x) => Some(x@),
                    None => None,
                },
            }),
{
    let f = lowercase(filter);
    let rt = selected_runtimes(cp.live_runtimes@, Some(f));
    let pr = selected_products(cp.product_services@, Some(f));
    selected_products_holds(cp.product_services@, f, j);
    let k = choose|k: int| 0 <= k < pr.len() && pr[k] == product_check_of(cp.product_services@[j]);
    assert((rt + pr)[rt.len() + k] == pr[k]);
    assert(verify_plan_of(cp, Some(filter))->0 == rt + pr);
    let w = rt.len() + k;
    assert(verify_plan_of(cp, Some(filter))->0[w] == product_check_of(cp.product_services@[j]));
}

/// A live runtime whose lowercased name holds the lowercased filter is checked: the
/// run is not refused, and its plan probes that runtime on its port at `/health`.
pub proof fn matching_runtime_is_planned(cp: ControlPlane, filter: Seq<char>, j: int)
    requires
        0 <= j < cp.live_runtimes@.len(),
        contains_text(lowercase(cp.live_runtimes@[j].name@), lowercase(filter)),
    ensures
        verify_plan_of(cp, Some(filter)) is Some,
        exists|k: int|
            0 <= k < verify_plan_of(cp, Some(filter))->0.len() && #[trigger] verify_plan_of(
                cp,
                Some(filter),
            )->0[k].name == cp.live_runtimes@[j].name@ && verify_plan_of(cp, Some(filter))->0[k].port
                == cp.live_runtimes@[j].port && verify_plan_of(cp, Some(filter))->0[k].health_path
                == "/health"@,
{
    let f = lowercase(filter);
    let rt = selected_runtimes(cp.live_runtimes@, Some(f));
    let pr = selected_products(cp.product_services@, Some(f));
    selected_runtimes_holds(cp.live_runtimes@, f, j);
    let k = choose|k: int| 0 <= k < rt.len() && rt[k] == runtime_check_of(cp.live_runtimes@[j]);
    assert((rt + pr)[k] == rt[k]);
    assert(verify_plan_of(cp, Some(filter))->0 == rt + pr);
    assert(verify_plan_of(cp, Some(filter))->0[k] == runtime_check_of(cp.live_runtimes@[j]));
    assert(verify_plan_of(cp, Some(filter))->0[k].name == cp.live_runtimes@[j].name@);
}

/// A runtime whose auth text mentions `internal-only` anywhere is planned with no
/// auth-gate probe; any other runtime with a tool is probed at `/v1/<first tool>`.
pub proof fn internal_only_runtime_skips_auth_gate(r: Runtime)
    ensures
        (r.auth matches Some(a) && contains_text(a@, "internal-only"@)) ==> runtime_check_of(r).probe_path is None,
        (!(r.auth matches Some(a) && contains_text(a@, "internal-only"@)) && r.tools@.len() > 0)
            ==> runtime_check_of(r).probe_path == Some("/v1/"@ + r.tools@[0]@),
        runtime_check_of(r).health_path == "/health"@,
        runtime_check_of(r).name == r.name@ && runtime_check_of(r).port == r.port,
{
}

proof fn selected_runtimes_sound(rs: Seq<Runtime>, f: Seq<char>, k: int)
    requires
        0 <= k < selected_runtimes(rs, Some(f)).len(),
    ensures
        exists|i: int|
            0 <= i < rs.len() && contains_text(lowercase(rs[i].name@), f)
                && selected_runtimes(rs, Some(f))[k] == #[trigger] runtime_check_of(rs[i]),
    decreases rs.len(),
{
    let rest = selected_runtimes(rs.drop_last(), Some(f));
    if k < rest.len() {
        selected_runtimes_sound(rs.drop_last(), f, k);
        let i = choose|i: int|
            0 <= i < rs.drop_last().len() && contains_text(lowercase(rs.drop_last()[i].name@), f)
                && rest[k] == #[trigger] runtime_check_of(rs.drop_last()[i]);
        assert(rs.drop_last()[i] == rs[i]);
        assert(selected_runtimes(rs, Some(f))[k] == rest[k]);
    } else {
        let i = rs.len() - 1;
        assert(selected_runtimes(rs, Some(f))[k] == runtime_check_of(rs[i]));
    }
}

proof fn selected_products_sound(ps: Seq<ProductService>, f: Seq<char>, k: int)
    requires
        0 <= k < selected_products(ps, Some(f)).len(),
    ensures
        exists|i: int|
            0 <= i < ps.len() && (contains_text(lowercase(ps[i].name@), f) || contains_text(
                lowercase(ps[i].product@),
                f,
            )) && selected_products(ps, Some(f))[k] == #[trigger] product_check_of(ps[i]),
    decreases ps.len(),
{
    let rest = selected_products(ps.drop_last(), Some(f));
    if k < rest.len() {
        selected_products_sound(ps.drop_last(), f, k);
        let i = choose|i: int|
            0 <= i < ps.drop_last().len() && (contains_text(lowercase(ps.drop_last()[i].name@), f)
                || contains_text(lowercase(ps.drop_last()[i].product@), f)) && rest[k]
                == #[trigger] product_check_of(ps.drop_last()[i]);
        assert(ps.drop_last()[i] == ps[i]);
        assert(selected_products(ps, Some(f))[k] == rest[k]);
    } else {
        let i = ps.len() - 1;
        assert(selected_products(ps, Some(f))[k] == product_check_of(ps[i]));
    }
}

/// A filtered plan holds nothing but matching services: each entry probes a live
/// runtime whose lowercased name holds the lowercased filter (at `/health`, on its
/// port), or a product service whose lowercased name or product holds it (on its
/// declared health path and probe).
pub proof fn filtered_plan_holds_only_matches(cp: ControlPlane, filter: Seq<char>, k: int)
    requires
        verify_plan_of(cp, Some(filter)) is Some,
        0 <= k < verify_plan_of(cp, Some(filter))->0.len(),
    ensures
        (exists|i: int|
            0 <= i < cp.live_runtimes@.len() && contains_text(lowercase(cp.live_runtimes@[i].name@), lowercase(filter))
                && verify_plan_of(cp, Some(filter))->0[k].name == #[trigger] cp.live_runtimes@[i].name@
                && verify_plan_of(cp, Some(filter))->0[k].port == cp.live_runtimes@[i].port
                && verify_plan_of(cp, Some(filter))->0[k].health_path == "/health"@)
        || (exists|i: int|
            0 <= i < cp.product_services@.len() && (contains_text(
                lowercase(cp.product_services@[i].name@),
                lowercase(filter),
            ) || contains_text(lowercase(cp.product_services@[i].product@), lowercase(filter)))
                && verify_plan_of(cp, Some(filter))->0[k].name == #[trigger] cp.product_services@[i].name@
                && verify_plan_of(cp, Some(filter))->0[k].port == cp.product_services@[i].port
                && verify_plan_of(cp, Some(filter))->0[k].health_path == cp.product_services@[i].health_path@),
{
    let f = lowercase(filter);
    let rt = selected_runtimes(cp.live_runtimes@, Some(f));
    let pr = selected_products(cp.product_services@, Some(f));
    let plan = verify_plan_of(cp, Some(filter))->0;
    assert(plan == rt + pr);
    if k < rt.len() {
        selected_runtimes_sound(cp.live_runtimes@, f, k);
        let i = choose|i: int|
            0 <= i < cp.live_runtimes@.len() && contains_text(lowercase(cp.live_runtimes@[i].name@), f)
                && rt[k] == #[trigger] runtime_check_of(cp.live_runtimes@[i]);
        assert(plan[k] == rt[k]);
        assert(plan[k].name == cp.live_runtimes@[i].name@);
    } else {
        selected_products_sound(cp.product_services@, f, k - rt.len());
        let i = choose|i: int|
            0 <= i < cp.product_services@.len() && (contains_text(lowercase(cp.product_services@[i].name@), f)
                || contains_text(lowercase(cp.product_services@[i].product@), f)) && pr[k - rt.len()]
                == #[trigger] product_check_of(cp.product_services@[i]);
        assert(plan[k] == pr[k - rt.len()]);
        assert(plan[k].name == cp.product_services@[i].name@);
    }
}

} // verus!
