//! The hierarchy of interrupt domains.
//!
//! The domains of a platform form a forest. A root domain owns every source
//! at first. A domain can delegate a source to one of its children, which
//! then owns the source, unless it delegates the source further. Whatever
//! the source is to interrupt is then decided in the owner alone: the
//! flags that the domains above keep for the source mean nothing.

use crate::error::Error;
use crate::peripheral::aplic::{valid_source, Aplic, AplicView, SourceConfig, SOURCES};
use vstd::prelude::*;

verus! {

/// The shape of a forest of domains, as the contracts speak of it.
pub struct ForestView {
    /// For each domain its parent, or `None` for a root.
    pub parent: Seq<Option<int>>,
    /// For each domain its children, in the order of their child indices.
    pub children: Seq<Seq<int>>,
}

impl ForestView {
    /// Number of domains.
    pub open spec fn len(self) -> nat {
        self.children.len()
    }

    /// The shape is a forest: every child comes after its parent in the
    /// numbering and has the domain that lists it as its one parent.
    pub open spec fn wf(self) -> bool {
        &&& self.parent.len() == self.children.len()
        &&& forall|d: int, k: int|
            0 <= d < self.children.len() && 0 <= k < self.children[d].len() ==> d < (
            #[trigger] self.children[d][k]) < self.children.len()
                && self.parent[self.children[d][k]]
                == Some(d)
        &&& forall|d: int|
            0 <= d < self.parent.len() ==> match #[trigger] self.parent[d] {
                Some(p) => 0 <= p < d,
                None => true,
            }
    }

    /// The domain that owns source `id`, seen from domain `d`: `d` itself
    /// where it handles the source in a mode, else the owner seen from the
    /// child that `d` delegates the source to, and no domain where `d` has
    /// no child of that index.
    pub open spec fn owner(self, domains: Seq<AplicView>, d: int, id: int) -> Option<int>
        decreases self.children.len() - d,
    {
        if 0 <= d < self.children.len() && d < domains.len() {
            match domains[d].source_config(id) {
                SourceConfig::Mode(_) => Some(d),
                SourceConfig::DelegatedTo(c) => {
                    if c < self.children[d].len() && d < self.children[d][c as int]
                        < self.children.len() {
                        self.owner(domains, self.children[d][c as int], id)
                    } else {
                        None
                    }
                },
            }
        } else {
            None
        }
    }
}

/// The states of a row of domains.
pub open spec fn views(domains: Seq<Aplic>) -> Seq<AplicView> {
    Seq::new(domains.len(), |d: int| domains[d]@)
}

/// The forest that the interrupt domains of a platform form.
pub struct Forest {
    parent: Vec<Option<usize>>,
    children: Vec<Vec<usize>>,
}

impl View for Forest {
    type V = ForestView;

    closed spec fn view(&self) -> ForestView {
        ForestView {
            parent: Seq::new(
                self.parent@.len(),
                |d: int|
                    match self.parent@[d] {
                        Some(p) => Some(p as int),
                        None => None,
                    },
            ),
            children: Seq::new(
                self.children@.len(),
                |d: int| Seq::new(self.children@[d]@.len(), |k: int| self.children@[d]@[k] as int),
            ),
        }
    }
}

impl Forest {
    /// The forest is sound: its shape is one.
    pub open spec fn wf(&self) -> bool {
        self@.wf()
    }

    /// The forest without a domain.
    pub fn new() -> (r: Forest)
        ensures
            r.wf(),
            r@.len() == 0,
    {
        Forest { parent: Vec::new(), children: Vec::new() }
    }

    /// Number of domains.
    pub fn len(&self) -> (r: usize)
        ensures
            r == self@.len(),
    {
        self.children.len()
    }

    /// Adds a root domain and returns its number.
    pub fn add_root(&mut self) -> (r: usize)
        requires
            old(self).wf(),
        ensures
            final(self).wf(),
            r == old(self)@.len(),
            final(self)@.parent == old(self)@.parent.push(None),
            final(self)@.children == old(self)@.children.push(Seq::empty()),
    {
        let d = self.children.len();
        self.parent.push(None);
        self.children.push(Vec::new());
        proof {
            assert(self@.parent =~= old(self)@.parent.push(None));
            assert(self@.children =~~= old(self)@.children.push(Seq::empty()));
        }
        d
    }

    /// Adds a domain as the next child of `parent` and returns its number;
    /// `OutOfRange` where the forest has no domain `parent`.
    pub fn add_child(&mut self, parent: usize) -> (r: Result<usize, Error>)
        requires
            old(self).wf(),
        ensures
            final(self).wf(),
            parent >= old(self)@.len() ==> r == Err::<usize, Error>(Error::OutOfRange)
                && final(self)@ == old(self)@,
            parent < old(self)@.len() ==> r == Ok::<usize, Error>(old(self)@.len() as usize)
                && final(self)@.parent == old(self)@.parent.push(Some(parent as int))
                    && final(self)@.children == old(self)@.children.update(
                parent as int,
                old(self)@.children[parent as int].push(old(self)@.len() as int),
            ).push(Seq::empty()),
    {
        let d = self.children.len();
        if parent >= d {
            return Err(Error::OutOfRange);
        }
        let mut siblings: Vec<usize> = Vec::new();
        let mut k: usize = 0;
        while k < self.children[parent].len()
            invariant
                parent < self.children@.len(),
                k <= self.children@[parent as int]@.len(),
                siblings@ == self.children@[parent as int]@.subrange(0, k as int),
            decreases self.children@[parent as int]@.len() - k,
        {
            siblings.push(self.children[parent][k]);
            k = k + 1;
            assert(siblings@ =~= self.children@[parent as int]@.subrange(0, k as int));
        }
        assert(siblings@ =~= self.children@[parent as int]@);
        siblings.push(d);
        self.children.set(parent, siblings);
        self.parent.push(Some(parent));
        self.children.push(Vec::new());
        proof {
            assert(self@.parent =~= old(self)@.parent.push(Some(parent as int)));
            assert(self@.children =~~= old(self)@.children.update(
                parent as int,
                old(self)@.children[parent as int].push(d as int),
            ).push(Seq::empty()));
            assert forall|e: int, j: int|
                0 <= e < self@.children.len() && 0 <= j < self@.children[e].len() implies e < (
            #[trigger] self@.children[e][j]) < self@.children.len()
                && self@.parent[self@.children[e][j]] == Some(e) by {
                if e < d && !(e == parent && j == old(self)@.children[e].len()) {
                    assert(self@.children[e][j] == old(self)@.children[e][j]);
                }
            }
            assert forall|e: int| 0 <= e < self@.parent.len() implies match #[trigger] self@.parent[e]
            {
                Some(p) => 0 <= p < e,
                None => true,
            } by {
                if e < d {
                    assert(self@.parent[e] == old(self)@.parent[e]);
                }
            }
        }
        Ok(d)
    }

    /// The domain that is child `child` of domain `d`, or `None` where
    /// there is no such domain or it has no such child.
    pub fn child(&self, d: usize, child: u32) -> (r: Option<usize>)
        requires
            self.wf(),
        ensures
            d < self@.len() && child < self@.children[d as int].len() ==> r == Some(
                self@.children[d as int][child as int] as usize,
            ),
            !(d < self@.len() && child < self@.children[d as int].len()) ==> r.is_none(),
    {
        if d >= self.children.len() {
            return None;
        }
        if child as usize >= self.children[d].len() {
            return None;
        }
        let c = self.children[d][child as usize];
        assert(c as int == self@.children[d as int][child as int]);
        Some(c)
    }

    /// The parent of domain `d`, or `None` for a root and where there is
    /// no such domain.
    pub fn parent(&self, d: usize) -> (r: Option<usize>)
        requires
            self.wf(),
        ensures
            d < self@.len() ==> match r {
                Some(p) => self@.parent[d as int] == Some(p as int),
                None => self@.parent[d as int].is_none(),
            },
            d >= self@.len() ==> r.is_none(),
    {
        if d >= self.parent.len() {
            return None;
        }
        assert(self@.parent.len() == self@.children.len());
        self.parent[d]
    }

    /// Finds the domain that owns source `id`, seen from domain `root`:
    /// the delegations are followed down from `root` until a domain
    /// handles the source itself. `None` where a domain on the way
    /// delegates the source to a child that it does not have. `OutOfRange`
    /// where `id` names no source or the forest has no domain `root`.
    pub fn owner(&self, domains: &Vec<Aplic>, root: usize, id: u32) -> (r: Result<
        Option<usize>,
        Error,
    >)
        requires
            self.wf(),
            domains@.len() == self@.len(),
            forall|d: int| 0 <= d < domains@.len() ==> (#[trigger] domains@[d]).wf(),
        ensures
            valid_source(id) && root < self@.len() ==> match r {
                Ok(Some(d)) => self@.owner(views(domains@), root as int, id as int) == Some(
                    d as int,
                ),
                Ok(None) => self@.owner(views(domains@), root as int, id as int).is_none(),
                Err(_) => false,
            },
            !(valid_source(id) && root < self@.len()) ==> r == Err::<Option<usize>, Error>(
                Error::OutOfRange,
            ),
    {
        let n = self.children.len();
        if id == 0 || id >= SOURCES || root >= n {
            return Err(Error::OutOfRange);
        }
        let ghost v = views(domains@);
        let mut d: usize = root;
        loop
            invariant
                self.wf(),
                n == self@.len(),
                domains@.len() == n,
                forall|e: int| 0 <= e < domains@.len() ==> (#[trigger] domains@[e]).wf(),
                v == views(domains@),
                valid_source(id),
                d < n,
                root < n,
                self@.owner(v, root as int, id as int) == self@.owner(v, d as int, id as int),
            decreases n - d,
        {
            assert(domains@[d as int].wf());
            assert(v[d as int] == domains@[d as int]@);
            match domains[d].source_config_of(id) {
                SourceConfig::Mode(_) => {
                    return Ok(Some(d));
                },
                SourceConfig::DelegatedTo(c) => {
                    match self.child(d, c) {
                        None => {
                            return Ok(None);
                        },
                        Some(next) => {
                            d = next;
                        },
                    }
                },
            }
        }
    }
}

/// The domain that owns a source handles it in a mode, and lies at or
/// below the domain that the search started from.
pub proof fn lemma_owner_owns(f: ForestView, domains: Seq<AplicView>, root: int, id: int)
    requires
        f.wf(),
        domains.len() == f.len(),
        0 <= root < f.len(),
        0 < id < SOURCES,
        f.owner(domains, root, id).is_some(),
    ensures
        root <= f.owner(domains, root, id).unwrap() < f.len(),
        domains[f.owner(domains, root, id).unwrap()].source_config(id) is Mode,
    decreases f.len() - root,
{
    match domains[root].source_config(id) {
        SourceConfig::Mode(_) => {},
        SourceConfig::DelegatedTo(c) => {
            lemma_owner_owns(f, domains, f.children[root][c as int], id);
        },
    }
}

/// A domain that has not delegated a source owns it, whatever its
/// children hold for the source: their flags for it mean nothing.
pub proof fn lemma_undelegated_is_owned(f: ForestView, domains: Seq<AplicView>, root: int, id: int)
    requires
        f.wf(),
        domains.len() == f.len(),
        0 <= root < f.len(),
        domains[root].source_config(id) is Mode,
    ensures
        f.owner(domains, root, id) == Some(root),
{
}

/// What the domains above the owner hold for a source does not decide who
/// owns it below them: the owner seen from a domain that delegates the
/// source to an existing child is the owner seen from that child.
pub proof fn lemma_delegated_is_childs(
    f: ForestView,
    domains: Seq<AplicView>,
    root: int,
    id: int,
    child: u32,
)
    requires
        f.wf(),
        domains.len() == f.len(),
        0 <= root < f.len(),
        domains[root].source_config(id) == SourceConfig::DelegatedTo(child),
        child < f.children[root].len(),
    ensures
        f.owner(domains, root, id) == f.owner(domains, f.children[root][child as int], id),
{
}

} // verus!
