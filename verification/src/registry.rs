//! The state of the credential registry: who backs it, and how far its
//! management log has come.

use vstd::prelude::*;

verus! {

/// A setting of a registry that its inception event carries.
#[derive(Clone, Copy, Debug, PartialEq, Eq, Structural)]
pub enum Config {
    /// The registry has no backers and never will.
    NoBackers,
}

/// The state that the management log of a registry folds to.
#[derive(Debug, PartialEq, Eq)]
pub struct Registry {
    /// The identifier of the registry.
    pub id: String,
    /// The identifier of the issuer that the registry belongs to.
    pub issuer: String,
    /// The backers, in the order in which they came.
    pub backers: Vec<String>,
    /// How many backers have to attest.
    pub backer_threshold: u64,
    /// Whether the registry was set up to have no backers.
    pub no_backers: bool,
    /// The place of the last management event.
    pub sn: u64,
}

pub struct RegistryView {
    pub id: Seq<char>,
    pub issuer: Seq<char>,
    pub backers: Seq<Seq<char>>,
    pub backer_threshold: u64,
    pub no_backers: bool,
    pub sn: u64,
}

impl View for Registry {
    type V = RegistryView;

    open spec fn view(&self) -> RegistryView {
        RegistryView {
            id: self.id@,
            issuer: self.issuer@,
            backers: self.backers.deep_view(),
            backer_threshold: self.backer_threshold,
            no_backers: self.no_backers,
            sn: self.sn,
        }
    }
}

impl DeepView for Registry {
    type V = RegistryView;

    open spec fn deep_view(&self) -> RegistryView {
        self@
    }
}

/// The backers of `backers` that `removed` does not name, in their order.
pub open spec fn without(backers: Seq<Seq<char>>, removed: Seq<Seq<char>>) -> Seq<Seq<char>>
    decreases backers.len(),
{
    if backers.len() == 0 {
        Seq::empty()
    } else if removed.contains(backers.last()) {
        without(backers.drop_last(), removed)
    } else {
        without(backers.drop_last(), removed).push(backers.last())
    }
}

/// Whether some identifier is in both lists.
pub open spec fn overlapping(left: Seq<Seq<char>>, right: Seq<Seq<char>>) -> bool {
    exists|i: int| 0 <= i < left.len() && right.contains(#[trigger] left[i])
}

impl RegistryView {
    /// The registry of `issuer` right after its inception: with the given
    /// backers, or set up without any where none are given.
    pub open spec fn incepted(
        id: Seq<char>,
        issuer: Seq<char>,
        backers: Option<Seq<Seq<char>>>,
        backer_threshold: u64,
    ) -> RegistryView {
        RegistryView {
            id,
            issuer,
            backers: match backers {
                Some(list) => list,
                None => Seq::empty(),
            },
            backer_threshold,
            no_backers: backers is None,
            sn: 0,
        }
    }

    /// Whether the backers of the registry can change by `added` and
    /// `removed`: it has backers at all, no identifier is both added and
    /// removed, and the log has room for one more event.
    pub open spec fn can_rotate(self, added: Seq<Seq<char>>, removed: Seq<Seq<char>>) -> bool {
        !self.no_backers && !overlapping(added, removed) && self.sn < u64::MAX
    }

    /// The registry after a rotation: the backers that stay, then the ones
    /// that come, one event further in the log.
    pub open spec fn rotated(self, added: Seq<Seq<char>>, removed: Seq<Seq<char>>) -> RegistryView {
        RegistryView {
            backers: without(self.backers, removed) + added,
            sn: (self.sn + 1) as u64,
            ..self
        }
    }
}

/// What the inception event of a registry is built from: its settings and its
/// first backers. A registry for which no backers are given is set up as one
/// without backers.
pub fn inception_config(backers: Option<Vec<String>>) -> (parts: (Vec<Config>, Vec<String>))
    ensures
        parts.0@ == if backers is None {
            seq![Config::NoBackers]
        } else {
            Seq::<Config>::empty()
        },
        parts.1.deep_view() == RegistryView::incepted(
            Seq::empty(),
            Seq::empty(),
            backers.deep_view(),
            0,
        ).backers,
{
    match backers {
        Some(list) => (Vec::new(), list),
        None => {
            let mut config: Vec<Config> = Vec::new();
            config.push(Config::NoBackers);
            let none: Vec<String> = Vec::new();
            assert(none.deep_view() =~= Seq::empty());
            (config, none)
        },
    }
}

/// Whether `list` names `id`.
pub fn names(list: &[String], id: &String) -> (yes: bool)
    ensures
        yes == list.deep_view().contains(id@),
{
    let mut i: usize = 0;
    while i < list.len()
        invariant
            i <= list.len(),
            forall|j: int| 0 <= j < i ==> list.deep_view()[j] != id@,
        decreases list.len() - i,
    {
        if list[i] == *id {
            assert(list.deep_view()[i as int] == id@);
            return true;
        }
        i += 1;
    }
    false
}

/// Whether some identifier is in both lists.
pub fn overlap(left: &[String], right: &[String]) -> (yes: bool)
    ensures
        yes == overlapping(left.deep_view(), right.deep_view()),
{
    let mut i: usize = 0;
    while i < left.len()
        invariant
            i <= left.len(),
            forall|j: int| 0 <= j < i ==> !right.deep_view().contains(#[trigger] left.deep_view()[j]),
        decreases left.len() - i,
    {
        if names(right, &left[i]) {
            assert(right.deep_view().contains(left.deep_view()[i as int]));
            return true;
        }
        i += 1;
    }
    false
}

/// A copy of a list of identifiers.
pub fn copy_ids(list: &[String]) -> (copy: Vec<String>)
    ensures
        copy.deep_view() == list.deep_view(),
{
    let mut copy: Vec<String> = Vec::new();
    let mut i: usize = 0;
    while i < list.len()
        invariant
            i <= list.len(),
            copy.deep_view() =~= list.deep_view().take(i as int),
        decreases list.len() - i,
    {
        let ghost before = copy.deep_view();
        let id = list[i].clone();
        copy.push(id);
        assert(copy.deep_view() =~= before.push(id@));
        i += 1;
    }
    assert(list.deep_view().take(list.len() as int) =~= list.deep_view());
    copy
}

impl Registry {
    /// The registry of `issuer` right after its inception.
    pub fn incept(
        id: String,
        issuer: String,
        backers: Option<Vec<String>>,
        backer_threshold: u64,
    ) -> (registry: Registry)
        ensures
            registry@ == RegistryView::incepted(
                id@,
                issuer@,
                backers.deep_view(),
                backer_threshold,
            ),
    {
        let no_backers = backers.is_none();
        let list: Vec<String> = match backers {
            Some(list) => list,
            None => Vec::new(),
        };
        assert(backers is None ==> list.deep_view() =~= Seq::empty());
        Registry { id, issuer, backers: list, backer_threshold, no_backers, sn: 0 }
    }

    /// The registry after a rotation of its backers, where it can have one.
    pub fn rotate(&self, added: &[String], removed: &[String]) -> (next: Option<Registry>)
        ensures
            next is Some == self@.can_rotate(added.deep_view(), removed.deep_view()),
            next is Some ==> next->0@ == self@.rotated(added.deep_view(), removed.deep_view()),
    {
        if self.no_backers || self.sn == u64::MAX || overlap(added, removed) {
            return None;
        }
        let mut backers: Vec<String> = Vec::new();
        let mut i: usize = 0;
        while i < self.backers.len()
            invariant
                i <= self.backers.len(),
                backers.deep_view() =~= without(
                    self.backers.deep_view().take(i as int),
                    removed.deep_view(),
                ),
            decreases self.backers.len() - i,
        {
            proof {
                let all = self.backers.deep_view();
                assert(all.take(i + 1).drop_last() =~= all.take(i as int));
                assert(all.take(i + 1).last() == self.backers[i as int]@);
            }
            if !names(removed, &self.backers[i]) {
                let ghost before = backers.deep_view();
                let id = self.backers[i].clone();
                backers.push(id);
                assert(backers.deep_view() =~= before.push(id@));
            }
            i += 1;
        }
        assert(self.backers.deep_view().take(self.backers.len() as int)
            =~= self.backers.deep_view());
        let ghost kept = backers.deep_view();
        let mut j: usize = 0;
        while j < added.len()
            invariant
                j <= added.len(),
                backers.deep_view() =~= kept + added.deep_view().take(j as int),
            decreases added.len() - j,
        {
            let ghost before = backers.deep_view();
            let id = added[j].clone();
            backers.push(id);
            assert(backers.deep_view() =~= before.push(id@));
            j += 1;
        }
        assert(added.deep_view().take(added.len() as int) =~= added.deep_view());
        Some(
            Registry {
                id: self.id.clone(),
                issuer: self.issuer.clone(),
                backers,
                backer_threshold: self.backer_threshold,
                no_backers: self.no_backers,
                sn: self.sn + 1,
            },
        )
    }
}

impl Clone for Registry {
    fn clone(&self) -> (copy: Self)
        ensures
            copy@ == self@,
    {
        Registry {
            id: self.id.clone(),
            issuer: self.issuer.clone(),
            backers: copy_ids(self.backers.as_slice()),
            backer_threshold: self.backer_threshold,
            no_backers: self.no_backers,
            sn: self.sn,
        }
    }
}

} // verus!
