//! The supervisor's book of workers: one entry for each twin seed.

use vstd::prelude::*;
use vstd::string::*;

use crate::client::views;

verus! {

/// What the supervisor knows of one worker. `created` turns true once the
/// worker has reported that its twin exists; no data goes to it before.
#[derive(Debug, Clone, Copy, PartialEq, Eq, Structural)]
pub struct TwinActorInfo {
    pub created: bool,
}

/// One entry of the registry.
#[derive(Debug, PartialEq, Eq)]
pub struct RegistryEntry {
    pub seed: String,
    pub info: TwinActorInfo,
}

impl View for RegistryEntry {
    type V = (Seq<char>, TwinActorInfo);

    open spec fn view(&self) -> (Seq<char>, TwinActorInfo) {
        (self.seed@, self.info)
    }
}

/// The seeds of `entries`, in order.
pub open spec fn seeds_of(entries: Seq<(Seq<char>, TwinActorInfo)>) -> Seq<Seq<char>> {
    Seq::new(entries.len(), |i: int| entries[i].0)
}

/// What `entries` holds for `seed`, if anything.
pub open spec fn info_of(entries: Seq<(Seq<char>, TwinActorInfo)>, seed: Seq<char>) -> Option<
    TwinActorInfo,
> {
    if seeds_of(entries).contains(seed) {
        Some(entries[seeds_of(entries).index_of(seed)].1)
    } else {
        None
    }
}

/// `entries` after `seed` was registered with `info`: an earlier entry of
/// that seed is replaced where it stands, a new seed goes to the end.
pub open spec fn with_entry(
    entries: Seq<(Seq<char>, TwinActorInfo)>,
    seed: Seq<char>,
    info: TwinActorInfo,
) -> Seq<(Seq<char>, TwinActorInfo)> {
    if seeds_of(entries).contains(seed) {
        entries.update(seeds_of(entries).index_of(seed), (seed, info))
    } else {
        entries.push((seed, info))
    }
}

/// `entries` after the worker of `seed` reported its twin created. Nothing
/// changes when `seed` has no entry.
pub open spec fn marked_created(entries: Seq<(Seq<char>, TwinActorInfo)>, seed: Seq<char>) -> Seq<
    (Seq<char>, TwinActorInfo),
> {
    if seeds_of(entries).contains(seed) {
        entries.update(seeds_of(entries).index_of(seed), (seed, TwinActorInfo { created: true }))
    } else {
        entries
    }
}

/// `entries` without those whose seed is among `dead`, the others in their
/// order.
pub open spec fn without_seeds(
    entries: Seq<(Seq<char>, TwinActorInfo)>,
    dead: Seq<Seq<char>>,
) -> Seq<(Seq<char>, TwinActorInfo)>
    decreases entries.len(),
{
    if entries.len() == 0 {
        entries
    } else {
        let before = without_seeds(entries.drop_last(), dead);
        if dead.contains(entries.last().0) {
            before
        } else {
            before.push(entries.last())
        }
    }
}

/// Registering a seed leaves one entry for each seed, the new one under its
/// own seed and every other as it was.
pub proof fn lemma_with_entry(
    entries: Seq<(Seq<char>, TwinActorInfo)>,
    seed: Seq<char>,
    info: TwinActorInfo,
    other: Seq<char>,
)
    requires
        seeds_of(entries).no_duplicates(),
    ensures
        seeds_of(with_entry(entries, seed, info)).no_duplicates(),
        info_of(with_entry(entries, seed, info), other) == if other == seed {
            Some(info)
        } else {
            info_of(entries, other)
        },
{
    let seeds = seeds_of(entries);
    let after = with_entry(entries, seed, info);
    let seeds_after = seeds_of(after);
    if seeds.contains(seed) {
        let at = seeds.index_of(seed);
        assert(seeds_after =~= seeds);
        if other == seed {
            assert(seeds_after[seeds_after.index_of(other)] == seeds_after[at]);
        } else if seeds.contains(other) {
            assert(seeds[seeds.index_of(other)] != seeds[at]);
        }
    } else {
        assert(seeds_after =~= seeds.push(seed));
        assert forall|i: int, j: int|
            0 <= i < seeds_after.len() && 0 <= j < seeds_after.len() && i != j implies seeds_after[i]
            != seeds_after[j] by {
            if i < seeds.len() {
                assert(seeds[i] == seeds_after[i]);
            }
            if j < seeds.len() {
                assert(seeds[j] == seeds_after[j]);
            }
        }
        assert(after.last() == (seed, info));
        lemma_info_of_last(after);
        if other != seed {
            lemma_info_of_shorter(after, other);
            assert(after.drop_last() =~= entries);
        }
    }
}

/// Marking a seed created leaves one entry for each seed, and only the
/// entry of that seed is touched.
pub proof fn lemma_marked_created(
    entries: Seq<(Seq<char>, TwinActorInfo)>,
    seed: Seq<char>,
    other: Seq<char>,
)
    requires
        seeds_of(entries).no_duplicates(),
    ensures
        seeds_of(marked_created(entries, seed)).no_duplicates(),
        marked_created(entries, seed).len() == entries.len(),
        info_of(marked_created(entries, seed), other) == if other == seed
            && info_of(entries, seed).is_some() {
            Some(TwinActorInfo { created: true })
        } else {
            info_of(entries, other)
        },
{
    if seeds_of(entries).contains(seed) {
        lemma_with_entry(entries, seed, TwinActorInfo { created: true }, other);
    }
}

/// What `without_seeds` keeps: every entry that it keeps was there before
/// and is not dead, and every entry that was there and is not dead is kept.
pub proof fn lemma_without_seeds(
    entries: Seq<(Seq<char>, TwinActorInfo)>,
    dead: Seq<Seq<char>>,
    seed: Seq<char>,
)
    requires
        seeds_of(entries).no_duplicates(),
    ensures
        seeds_of(without_seeds(entries, dead)).no_duplicates(),
        without_seeds(entries, dead).len() <= entries.len(),
        info_of(without_seeds(entries, dead), seed) == if dead.contains(seed) {
            None
        } else {
            info_of(entries, seed)
        },
    decreases entries.len(),
{
    let kept = without_seeds(entries, dead);
    if entries.len() > 0 {
        let shorter = entries.drop_last();
        let before = without_seeds(shorter, dead);
        let last = entries.last();
        assert forall|i: int, j: int|
            0 <= i < shorter.len() && 0 <= j < shorter.len() && i != j implies seeds_of(
            shorter,
        )[i] != seeds_of(shorter)[j] by {
            assert(seeds_of(entries)[i] != seeds_of(entries)[j]);
        }
        lemma_without_seeds(shorter, dead, seed);
        lemma_without_seeds(shorter, dead, last.0);
        // The last seed occurs nowhere before the last entry.
        assert(!seeds_of(shorter).contains(last.0)) by {
            if seeds_of(shorter).contains(last.0) {
                let k = seeds_of(shorter).index_of(last.0);
                assert(seeds_of(entries)[k] == seeds_of(entries)[entries.len() - 1]);
            }
        }
        assert(info_of(before, last.0).is_none());
        lemma_info_of_last(entries);
        if dead.contains(last.0) {
            if seed != last.0 {
                lemma_info_of_shorter(entries, seed);
            }
        } else {
            assert(seeds_of(kept) =~= seeds_of(before).push(last.0));
            lemma_info_of_last(kept);
            if seed != last.0 {
                lemma_info_of_shorter(entries, seed);
                lemma_info_of_shorter(kept, seed);
                assert(kept.drop_last() =~= before);
            }
        }
    }
}

/// The last entry is found under its seed when no seed occurs twice.
proof fn lemma_info_of_last(entries: Seq<(Seq<char>, TwinActorInfo)>)
    requires
        entries.len() > 0,
        seeds_of(entries).no_duplicates(),
    ensures
        info_of(entries, entries.last().0) == Some(entries.last().1),
{
    let seeds = seeds_of(entries);
    assert(seeds[entries.len() - 1] == entries.last().0);
    let k = seeds.index_of(entries.last().0);
    assert(seeds[k] == seeds[entries.len() - 1]);
}

/// A seed other than the last is looked up as if the last entry were not
/// there.
proof fn lemma_info_of_shorter(entries: Seq<(Seq<char>, TwinActorInfo)>, seed: Seq<char>)
    requires
        entries.len() > 0,
        seeds_of(entries).no_duplicates(),
        seed != entries.last().0,
    ensures
        info_of(entries, seed) == info_of(entries.drop_last(), seed),
{
    let seeds = seeds_of(entries);
    let shorter = entries.drop_last();
    let fewer = seeds_of(shorter);
    if seeds.contains(seed) {
        let k = seeds.index_of(seed);
        assert(fewer[k] == seed);
        let m = fewer.index_of(seed);
        assert(seeds[m] == seeds[k]);
    } else if fewer.contains(seed) {
        let m = fewer.index_of(seed);
        assert(seeds[m] == seed);
    }
}

/// Whether `needle` is among `list`.
pub fn contains_text(list: &Vec<String>, needle: &String) -> (found: bool)
    ensures
        found == views(list@).contains(needle@),
{
    let mut i: usize = 0;
    while i < list.len()
        invariant
            i <= list.len(),
            forall|j: int| 0 <= j < i ==> list@[j]@ != needle@,
        decreases list.len() - i,
    {
        if list[i] == *needle {
            assert(views(list@)[i as int] == needle@);
            return true;
        }
        i = i + 1;
    }
    proof {
        if views(list@).contains(needle@) {
            let k = views(list@).index_of(needle@);
            assert(list@[k]@ == needle@);
        }
    }
    false
}

/// The workers that a supervisor has started, each under the seed of its
/// twin, in the order in which the seeds were first registered. No seed has
/// two entries.
#[derive(Debug, PartialEq, Eq)]
pub struct TwinRegistry {
    entries: Vec<RegistryEntry>,
}

impl View for TwinRegistry {
    type V = Seq<(Seq<char>, TwinActorInfo)>;

    closed spec fn view(&self) -> Seq<(Seq<char>, TwinActorInfo)> {
        views(self.entries@)
    }
}

impl TwinRegistry {
    #[verifier::type_invariant]
    spec fn one_entry_for_each_seed(self) -> bool {
        seeds_of(views(self.entries@)).no_duplicates()
    }

    /// No workers.
    pub fn new() -> (registry: TwinRegistry)
        ensures
            registry@ == Seq::<(Seq<char>, TwinActorInfo)>::empty(),
    {
        let registry = TwinRegistry { entries: Vec::new() };
        assert(registry@ =~= Seq::<(Seq<char>, TwinActorInfo)>::empty());
        registry
    }

    /// Number of registered workers.
    pub fn len(&self) -> (n: usize)
        ensures
            n == self@.len(),
            seeds_of(self@).no_duplicates(),
    {
        proof {
            use_type_invariant(self);
        }
        self.entries.len()
    }

    fn position(&self, seed: &String) -> (found: Option<usize>)
        ensures
            seeds_of(self@).no_duplicates(),
            match found {
                Some(i) => i < self@.len() && seeds_of(self@).contains(seed@) && i == seeds_of(
                    self@,
                ).index_of(seed@),
                None => !seeds_of(self@).contains(seed@),
            },
    {
        proof {
            use_type_invariant(self);
        }
        let mut i: usize = 0;
        while i < self.entries.len()
            invariant
                i <= self.entries.len(),
                seeds_of(self@).no_duplicates(),
                forall|j: int| 0 <= j < i ==> self.entries@[j].seed@ != seed@,
            decreases self.entries.len() - i,
        {
            if self.entries[i].seed == *seed {
                proof {
                    let seeds = seeds_of(self@);
                    assert(seeds[i as int] == seed@);
                    assert(seeds[seeds.index_of(seed@)] == seeds[i as int]);
                }
                return Some(i);
            }
            i = i + 1;
        }
        proof {
            let seeds = seeds_of(self@);
            if seeds.contains(seed@) {
                let k = seeds.index_of(seed@);
                assert(self.entries@[k].seed@ == seeds[k]);
            }
        }
        None
    }

    /// What is registered under `seed`, if anything.
    pub fn get(&self, seed: &String) -> (info: Option<TwinActorInfo>)
        ensures
            info == info_of(self@, seed@),
    {
        match self.position(seed) {
            Some(i) => Some(self.entries[i].info),
            None => None,
        }
    }

    /// Registers `info` under `seed`, in place of what was registered under
    /// it before.
    pub fn insert(&mut self, seed: String, info: TwinActorInfo)
        ensures
            final(self)@ == with_entry(old(self)@, seed@, info),
    {
        let ghost before = self@;
        let ghost text = seed@;
        let found = self.position(&seed);
        // The entries are worked on outside the struct, which holds none
        // meanwhile, and are put back once they are in order.
        let mut entries: Vec<RegistryEntry> = Vec::new();
        core::mem::swap(&mut self.entries, &mut entries);
        match found {
            Some(i) => {
                entries.set(i, RegistryEntry { seed, info });
                proof {
                    assert(views(entries@) =~= before.update(i as int, (text, info)));
                    assert(seeds_of(views(entries@)) =~= seeds_of(before));
                }
            },
            None => {
                entries.push(RegistryEntry { seed, info });
                proof {
                    assert(views(entries@) =~= before.push((text, info)));
                    assert(seeds_of(views(entries@)) =~= seeds_of(before).push(text));
                }
            },
        }
        self.entries = entries;
    }

    /// Notes that the worker of `seed` has its twin. Nothing changes when no
    /// worker is registered under `seed`.
    pub fn mark_created(&mut self, seed: &String)
        ensures
            final(self)@ == marked_created(old(self)@, seed@),
    {
        if self.position(seed).is_some() {
            self.insert(seed.clone(), TwinActorInfo { created: true });
        }
    }

    /// Strikes the workers whose seed is among `dead`.
    pub fn remove_all(&mut self, dead: &Vec<String>)
        ensures
            final(self)@ == without_seeds(old(self)@, views(dead@)),
    {
        proof {
            use_type_invariant(&*self);
        }
        let ghost before = self@;
        let mut entries: Vec<RegistryEntry> = Vec::new();
        core::mem::swap(&mut self.entries, &mut entries);
        let mut kept: Vec<RegistryEntry> = Vec::new();
        let mut i: usize = 0;
        while i < entries.len()
            invariant
                i <= entries.len(),
                views(entries@) == before,
                views(kept@) == without_seeds(before.take(i as int), views(dead@)),
            decreases entries.len() - i,
        {
            assert(before.take(i + 1).drop_last() =~= before.take(i as int));
            assert(before.take(i + 1).last() == entries@[i as int]@);
            if !contains_text(dead, &entries[i].seed) {
                let ghost earlier = views(kept@);
                kept.push(RegistryEntry { seed: entries[i].seed.clone(), info: entries[i].info });
                assert(views(kept@) =~= earlier.push(entries@[i as int]@));
            }
            i = i + 1;
        }
        proof {
            assert(before.take(i as int) =~= before);
            lemma_without_seeds(before, views(dead@), Seq::empty());
        }
        self.entries = kept;
    }

    /// The seeds of the registered workers, in order.
    pub fn seeds(&self) -> (seeds: Vec<String>)
        ensures
            views(seeds@) == seeds_of(self@),
    {
        let mut seeds: Vec<String> = Vec::new();
        let mut i: usize = 0;
        while i < self.entries.len()
            invariant
                i <= self.entries.len(),
                seeds.len() == i,
                forall|j: int| 0 <= j < i ==> seeds@[j]@ == self.entries@[j].seed@,
            decreases self.entries.len() - i,
        {
            seeds.push(self.entries[i].seed.clone());
            i = i + 1;
        }
        proof {
            assert(views(seeds@) =~= seeds_of(self@));
        }
        seeds
    }
}

} // verus!
