//! The request payloads for reading and writing domain settings.

use crate::settings::{
    clone_equivalent_domains, Domains, EquivalentDomains, GlobalEquivalentDomainsType,
    GlobalEquivalentDomainsView,
};
use vstd::prelude::*;

verus! {

/// A request for retrieving domain settings; it carries nothing.
#[derive(Debug, Default, Clone, Copy, PartialEq, Eq, Hash)]
pub struct GetDomains;

/// A request for modifying domain settings: the user's own groups, and the
/// provider numbers of the global groups the user excludes.
#[derive(Debug, Clone, PartialEq, Eq, Hash)]
pub struct ModifyDomains {
    pub equivalent_domains: Vec<EquivalentDomains>,
    pub excluded_global_equivalent_domains: Vec<GlobalEquivalentDomainsType>,
}

/// The provider numbers of the excluded global groups of a settings value, in
/// order.
pub open spec fn spec_excluded_types(globals: Seq<GlobalEquivalentDomainsView>) -> Seq<u8> {
    globals.filter(|g: GlobalEquivalentDomainsView| g.excluded).map_values(
        |g: GlobalEquivalentDomainsView| g.ty,
    )
}

impl ModifyDomains {
    /// A modification that keeps current settings as they are: the same
    /// groups, and exactly the global groups that are already excluded.
    pub fn inherit(domains: Domains) -> (r: ModifyDomains)
        ensures
            r.equivalent_domains.deep_view() == domains.equivalent_domains.deep_view(),
            r.excluded_global_equivalent_domains@.map_values(|t: GlobalEquivalentDomainsType| t.0)
                == spec_excluded_types(domains.global_equivalent_domains.deep_view()),
    {
        let ghost p = |g: GlobalEquivalentDomainsView| g.excluded;
        let ghost f = |g: GlobalEquivalentDomainsView| g.ty;
        let mut eq: Vec<EquivalentDomains> = Vec::new();
        let mut i: usize = 0;
        while i < domains.equivalent_domains.len()
            invariant
                i <= domains.equivalent_domains.len(),
                eq.deep_view() == domains.equivalent_domains.deep_view().subrange(0, i as int),
            decreases domains.equivalent_domains.len() - i,
        {
            let ghost prev = eq;
            let x = clone_equivalent_domains(&domains.equivalent_domains[i]);
            eq.push(x);
            proof {
                crate::settings::lemma_deep_view_push(prev, eq, x);
                assert(eq.deep_view() =~= domains.equivalent_domains.deep_view().subrange(
                    0,
                    i + 1,
                ));
            }
            i += 1;
        }
        proof {
            assert(domains.equivalent_domains.deep_view().subrange(
                0,
                domains.equivalent_domains.len() as int,
            ) =~= domains.equivalent_domains.deep_view());
        }
        let mut excluded: Vec<GlobalEquivalentDomainsType> = Vec::new();
        let ghost tys = |t: GlobalEquivalentDomainsType| t.0;
        proof {
            assert(Seq::<GlobalEquivalentDomainsView>::empty().filter(p).map_values(f)
                =~= Seq::<u8>::empty()) by {
                reveal(Seq::filter);
            }
            assert(excluded@.map_values(tys) =~= Seq::<u8>::empty());
        }
        let mut j: usize = 0;
        while j < domains.global_equivalent_domains.len()
            invariant
                j <= domains.global_equivalent_domains.len(),
                excluded@.map_values(tys) == domains.global_equivalent_domains.deep_view()
                    .subrange(0, j as int).filter(p).map_values(f),
                p == (|g: GlobalEquivalentDomainsView| g.excluded),
                f == (|g: GlobalEquivalentDomainsView| g.ty),
                tys == (|t: GlobalEquivalentDomainsType| t.0),
            decreases domains.global_equivalent_domains.len() - j,
        {
            let g = &domains.global_equivalent_domains[j];
            let ghost prefix = domains.global_equivalent_domains.deep_view().subrange(0, j as int);
            let ghost next = domains.global_equivalent_domains.deep_view().subrange(0, j + 1);
            proof {
                assert(next.drop_last() =~= prefix);
                assert(next.last() == g.deep_view());
                reveal(Seq::filter);
                if g.excluded {
                    assert(next.filter(p) =~= prefix.filter(p).push(g.deep_view()));
                    assert(next.filter(p).map_values(f) =~= prefix.filter(p).map_values(f).push(
                        g.deep_view().ty,
                    ));
                } else {
                    assert(next.filter(p) =~= prefix.filter(p));
                }
            }
            if g.excluded {
                excluded.push(g.ty);
                proof {
                    assert(excluded@.map_values(tys) =~= next.filter(p).map_values(f));
                }
            }
            j += 1;
        }
        proof {
            assert(domains.global_equivalent_domains.deep_view().subrange(
                0,
                domains.global_equivalent_domains.len() as int,
            ) =~= domains.global_equivalent_domains.deep_view());
        }
        ModifyDomains { equivalent_domains: eq, excluded_global_equivalent_domains: excluded }
    }
}

} // verus!
