//! Domain settings: groups of domains that count as equivalent for matching.

use vstd::prelude::*;

pub use request::{GetDomains, ModifyDomains};

mod request;

verus! {

/// Multiple equivalent domains.
#[derive(Debug, Clone, PartialEq, Eq, Hash)]
pub struct EquivalentDomains(pub Vec<String>);

impl View for EquivalentDomains {
    type V = Seq<Seq<char>>;

    open spec fn view(&self) -> Seq<Seq<char>> {
        self.0.deep_view()
    }
}

impl DeepView for EquivalentDomains {
    type V = Seq<Seq<char>>;

    open spec fn deep_view(&self) -> Seq<Seq<char>> {
        self.view()
    }
}

/// The type of global equivalent domains: a protocol-defined provider number.
#[derive(Debug, Clone, Copy, PartialEq, Eq, Hash, Structural)]
pub struct GlobalEquivalentDomainsType(pub u8);

/// The mathematical view of one globally equivalent domain group.
pub struct GlobalEquivalentDomainsView {
    pub ty: u8,
    pub domains: Seq<Seq<char>>,
    pub excluded: bool,
}

/// Multiple globally equivalent domains.
#[derive(Debug, Clone, PartialEq, Eq, Hash)]
pub struct GlobalEquivalentDomains {
    pub ty: GlobalEquivalentDomainsType,
    pub domains: EquivalentDomains,
    pub excluded: bool,
}

impl View for GlobalEquivalentDomains {
    type V = GlobalEquivalentDomainsView;

    open spec fn view(&self) -> GlobalEquivalentDomainsView {
        GlobalEquivalentDomainsView {
            ty: self.ty.0,
            domains: self.domains@,
            excluded: self.excluded,
        }
    }
}

impl DeepView for GlobalEquivalentDomains {
    type V = GlobalEquivalentDomainsView;

    open spec fn deep_view(&self) -> GlobalEquivalentDomainsView {
        self.view()
    }
}

/// Pushing an element extends the element-wise view of a vector by the
/// element's view.
pub proof fn lemma_deep_view_push<T: DeepView>(prev: Vec<T>, cur: Vec<T>, x: T)
    requires
        cur@ == prev@.push(x),
    ensures
        cur.deep_view() == prev.deep_view().push(x.deep_view()),
{
    assert forall|k: int| 0 <= k < cur@.len() implies cur.deep_view()[k] == prev.deep_view().push(
        x.deep_view(),
    )[k] by {
        assert(cur.deep_view()[k] == cur@[k].deep_view());
        if k < prev@.len() {
            assert(cur@[k] == prev@[k]);
            assert(prev.deep_view()[k] == prev@[k].deep_view());
        }
    }
    assert(cur.deep_view() =~= prev.deep_view().push(x.deep_view()));
}

/// Domain settings.
#[derive(Debug, Clone, PartialEq, Eq, Hash)]
pub struct Domains {
    pub equivalent_domains: Vec<EquivalentDomains>,
    pub global_equivalent_domains: Vec<GlobalEquivalentDomains>,
}

/// All equivalent domain groups of a settings value: the user's own groups,
/// followed by the domains of every global group that is not excluded, in
/// order.
pub open spec fn spec_all_equivalent_domains(
    eq: Seq<Seq<Seq<char>>>,
    globals: Seq<GlobalEquivalentDomainsView>,
) -> Seq<Seq<Seq<char>>> {
    eq + globals.filter(|g: GlobalEquivalentDomainsView| !g.excluded).map_values(
        |g: GlobalEquivalentDomainsView| g.domains,
    )
}

impl Domains {
    /// Returns a list of all equivalent domain groups, as
    /// [`spec_all_equivalent_domains`] says.
    pub fn all_equivalent_domains(&self) -> (r: Vec<EquivalentDomains>)
        ensures
            r.deep_view() == spec_all_equivalent_domains(
                self.equivalent_domains.deep_view(),
                self.global_equivalent_domains.deep_view(),
            ),
    {
        let ghost p = |g: GlobalEquivalentDomainsView| !g.excluded;
        let ghost f = |g: GlobalEquivalentDomainsView| g.domains;
        let mut out: Vec<EquivalentDomains> = Vec::new();
        let mut i: usize = 0;
        while i < self.equivalent_domains.len()
            invariant
                i <= self.equivalent_domains.len(),
                out.deep_view() == self.equivalent_domains.deep_view().subrange(0, i as int),
            decreases self.equivalent_domains.len() - i,
        {
            let ghost prev = out;
            let x = clone_equivalent_domains(&self.equivalent_domains[i]);
            out.push(x);
            proof {
                lemma_deep_view_push(prev, out, x);
                assert(out.deep_view() =~= self.equivalent_domains.deep_view().subrange(
                    0,
                    i + 1,
                ));
            }
            i += 1;
        }
        proof {
            assert(self.equivalent_domains.deep_view().subrange(
                0,
                self.equivalent_domains.len() as int,
            ) =~= self.equivalent_domains.deep_view());
            assert(Seq::<GlobalEquivalentDomainsView>::empty().filter(p).map_values(f)
                =~= Seq::<Seq<Seq<char>>>::empty()) by {
                reveal(Seq::filter);
            }
        }
        let mut j: usize = 0;
        while j < self.global_equivalent_domains.len()
            invariant
                j <= self.global_equivalent_domains.len(),
                out.deep_view() == self.equivalent_domains.deep_view()
                    + self.global_equivalent_domains.deep_view().subrange(0, j as int).filter(
                    p,
                ).map_values(f),
                p == (|g: GlobalEquivalentDomainsView| !g.excluded),
                f == (|g: GlobalEquivalentDomainsView| g.domains),
            decreases self.global_equivalent_domains.len() - j,
        {
            let g = &self.global_equivalent_domains[j];
            let ghost prefix = self.global_equivalent_domains.deep_view().subrange(0, j as int);
            let ghost next = self.global_equivalent_domains.deep_view().subrange(0, j + 1);
            proof {
                assert(next.drop_last() =~= prefix);
                assert(next.last() == g.deep_view());
                reveal(Seq::filter);
                if !g.excluded {
                    assert(next.filter(p) =~= prefix.filter(p).push(g.deep_view()));
                    assert(next.filter(p).map_values(f) =~= prefix.filter(p).map_values(f).push(
                        g.deep_view().domains,
                    ));
                } else {
                    assert(next.filter(p) =~= prefix.filter(p));
                }
            }
            if !g.excluded {
                let ghost prev = out;
                let x = clone_equivalent_domains(&g.domains);
                out.push(x);
                proof {
                    lemma_deep_view_push(prev, out, x);
                    assert(out.deep_view() =~= self.equivalent_domains.deep_view() + next.filter(
                        p,
                    ).map_values(f));
                }
            }
            j += 1;
        }
        proof {
            assert(self.global_equivalent_domains.deep_view().subrange(
                0,
                self.global_equivalent_domains.len() as int,
            ) =~= self.global_equivalent_domains.deep_view());
        }
        out
    }
}

/// An owned copy of one equivalent-domain group.
pub fn clone_equivalent_domains(v: &EquivalentDomains) -> (r: EquivalentDomains)
    ensures
        r.deep_view() == v.deep_view(),
{
    let mut out: Vec<String> = Vec::new();
    let mut i: usize = 0;
    while i < v.0.len()
        invariant
            i <= v.0.len(),
            out.deep_view() == v.0.deep_view().subrange(0, i as int),
        decreases v.0.len() - i,
    {
        let ghost prev = out;
        let x = v.0[i].clone();
        out.push(x);
        proof {
            lemma_deep_view_push(prev, out, x);
            assert(out.deep_view() =~= v.0.deep_view().subrange(0, i + 1));
        }
        i += 1;
    }
    proof {
        assert(v.0.deep_view().subrange(0, v.0.len() as int) =~= v.0.deep_view());
    }
    EquivalentDomains(out)
}

} // verus!
