//! The dependency pruner: after code generation, a discovered dependency is
//! kept only if its resolved specifier is star-exported or still occurs in
//! the emitted text as a double-quoted string literal.

use vstd::prelude::*;

verus! {

use crate::resolver::DependencyDescriptor;
use crate::resolver::DependencyView;
use crate::resolver::Resolver;
use crate::text::contains_seq;
use crate::text::contains_substr;
use crate::text::str_lit_view;
use crate::text::to_str_lit;

/// A dependency survives pruning: its specifier is in the star-export set, or
/// the emitted code holds it as a double-quoted string literal.
pub open spec fn dep_kept(d: DependencyView, stars: Seq<Seq<char>>, code: Seq<char>) -> bool {
    stars.contains(d.specifier) || contains_seq(code, str_lit_view(d.specifier))
}

/// The surviving dependencies, in their original order.
pub open spec fn prune_model(
    deps: Seq<DependencyView>,
    stars: Seq<Seq<char>>,
    code: Seq<char>,
) -> Seq<DependencyView>
    decreases deps.len(),
{
    if deps.len() == 0 {
        seq![]
    } else {
        (if dep_kept(deps[0], stars, code) {
            seq![deps[0]]
        } else {
            seq![]
        }) + prune_model(deps.drop_first(), stars, code)
    }
}

/// Whatever survives pruning was in the ledger: the final dependency list is
/// a selection from the discovered dependencies, never an addition.
pub proof fn lemma_pruned_is_subset(
    deps: Seq<DependencyView>,
    stars: Seq<Seq<char>>,
    code: Seq<char>,
)
    ensures
        forall|i: int|
            0 <= i < prune_model(deps, stars, code).len() ==> deps.contains(
                #[trigger] prune_model(deps, stars, code)[i],
            ),
    decreases deps.len(),
{
    if deps.len() > 0 {
        lemma_pruned_is_subset(deps.drop_first(), stars, code);
        let p = prune_model(deps, stars, code);
        let pr = prune_model(deps.drop_first(), stars, code);
        assert forall|i: int| 0 <= i < p.len() implies deps.contains(p[i]) by {
            let kept_head: int = if dep_kept(deps[0], stars, code) {
                1
            } else {
                0
            };
            if i < kept_head {
                assert(p[i] == deps[0]);
                assert(deps.contains(deps[0]));
            } else {
                assert(p[i] == pr[i - kept_head]);
                assert(deps.drop_first().contains(pr[i - kept_head]));
                let j = choose|j: int|
                    0 <= j < deps.drop_first().len() && deps.drop_first()[j] == pr[i - kept_head];
                assert(deps[j + 1] == pr[i - kept_head]);
                assert(deps.contains(deps[j + 1]));
            }
        }
    }
}

/// Whether `url` is a member of the star-export set.
fn star_exports_contain(resolver: &Resolver, url: &String) -> (r: bool)
    ensures
        r == resolver.stars_view().contains(url@),
{
    let n = resolver.star_exports.len();
    let mut i: usize = 0;
    while i < n
        invariant
            n == resolver.star_exports.len(),
            i <= n,
            forall|j: int| 0 <= j < i ==> resolver.stars_view()[j] != url@,
        decreases n - i,
    {
        if resolver.star_exports[i].eq(url) {
            proof {
                assert(resolver.stars_view()[i as int] == url@);
            }
            return true;
        }
        proof {
            assert(resolver.stars_view()[i as int] == resolver.star_exports@[i as int]@);
        }
        i = i + 1;
    }
    proof {
        if resolver.stars_view().contains(url@) {
            let j = choose|j: int|
                0 <= j < resolver.stars_view().len() && resolver.stars_view()[j] == url@;
            assert(resolver.stars_view()[j] != url@);
        }
    }
    false
}

/// Drops every ledger entry whose resolved specifier is neither
/// star-exported nor present in the emitted `code` as a double-quoted string
/// literal. The survivors keep their discovery order.
pub fn prune_deps(resolver: &mut Resolver, code: &str)
    ensures
        final(resolver).table == old(resolver).table,
        final(resolver).specifier_is_remote == old(resolver).specifier_is_remote,
        final(resolver).star_exports == old(resolver).star_exports,
        final(resolver).deps_view() == prune_model(
            old(resolver).deps_view(),
            old(resolver).stars_view(),
            code@,
        ),
{
    let ghost full = resolver.deps_view();
    let ghost stars_v = resolver.stars_view();
    let mut rest: Vec<DependencyDescriptor> = Vec::new();
    core::mem::swap(&mut rest, &mut resolver.deps);
    proof {
        assert(resolver.deps@ =~= Seq::<DependencyDescriptor>::empty());
        assert(resolver.deps_view() =~= Seq::<DependencyView>::empty());
    }
    let mut kept: Vec<DependencyDescriptor> = Vec::new();
    while rest.len() > 0
        invariant
            stars_v == resolver.stars_view(),
            resolver.table == old(resolver).table,
            resolver.specifier_is_remote == old(resolver).specifier_is_remote,
            resolver.star_exports == old(resolver).star_exports,
            stars_v == old(resolver).stars_view(),
            full == old(resolver).deps_view(),
            prune_model(full, stars_v, code@) == kept@.map_values(
                |d: DependencyDescriptor| d.view(),
            ) + prune_model(
                rest@.map_values(|d: DependencyDescriptor| d.view()),
                stars_v,
                code@,
            ),
        decreases rest.len(),
    {
        let ghost rest_v0 = rest@.map_values(|d: DependencyDescriptor| d.view());
        let ghost kept_v0 = kept@.map_values(|d: DependencyDescriptor| d.view());
        let d = rest.remove(0);
        let ghost d_v = d.view();
        proof {
            assert(rest_v0[0] == d_v);
            assert(rest@.map_values(|dd: DependencyDescriptor| dd.view()) =~= rest_v0.drop_first());
        }
        let lit = to_str_lit(d.specifier.as_str());
        let keep = star_exports_contain(resolver, &d.specifier) || contains_substr(
            code,
            lit.as_str(),
        );
        proof {
            assert(keep == dep_kept(d_v, stars_v, code@));
        }
        if keep {
            kept.push(d);
            proof {
                assert(kept@.map_values(|dd: DependencyDescriptor| dd.view()) =~= kept_v0.push(
                    d_v,
                ));
                assert(kept_v0 + (seq![d_v] + prune_model(rest_v0.drop_first(), stars_v, code@))
                    =~= kept_v0.push(d_v) + prune_model(rest_v0.drop_first(), stars_v, code@));
            }
        } else {
            proof {
                assert(kept_v0 + (seq![] + prune_model(rest_v0.drop_first(), stars_v, code@))
                    =~= kept_v0 + prune_model(rest_v0.drop_first(), stars_v, code@));
            }
        }
    }
    proof {
        assert(rest@.map_values(|dd: DependencyDescriptor| dd.view()) =~= Seq::<
            DependencyView,
        >::empty());
        assert(kept@.map_values(|dd: DependencyDescriptor| dd.view()) + prune_model(
            Seq::<DependencyView>::empty(),
            stars_v,
            code@,
        ) =~= kept@.map_values(|dd: DependencyDescriptor| dd.view()));
    }
    core::mem::swap(&mut kept, &mut resolver.deps);
}

} // verus!
