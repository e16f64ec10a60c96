//! The table of configured repositories, keyed by name.

use vstd::prelude::*;

verus! {

/// A named storage location of the backup tool, protected by a password file.
#[derive(Debug, Clone, PartialEq, Eq)]
pub struct Repo {
    pub name: String,
    pub path: String,
    pub pw_file: String,
}

impl Repo {
    /// A copy of this repository record, field for field.
    pub fn duplicate(&self) -> (copy: Repo)
        ensures
            copy == *self,
    {
        Repo { name: self.name.clone(), path: self.path.clone(), pw_file: self.pw_file.clone() }
    }
}

/// No two entries carry the same name.
pub open spec fn names_distinct(entries: Seq<Repo>) -> bool {
    forall|i: int, j: int|
        0 <= i < entries.len() && 0 <= j < entries.len() && i != j
            ==> entries[i].name@ != entries[j].name@
}

/// Some entry carries `name`.
pub open spec fn has_name(entries: Seq<Repo>, name: Seq<char>) -> bool {
    exists|i: int| 0 <= i < entries.len() && entries[i].name@ == name
}

/// The position of an entry that carries `name`; meaningful where `has_name` holds.
pub open spec fn position_of(entries: Seq<Repo>, name: Seq<char>) -> int {
    choose|i: int| 0 <= i < entries.len() && entries[i].name@ == name
}

/// The entry that carries `name`, if there is one.
pub open spec fn lookup(entries: Seq<Repo>, name: Seq<char>) -> Option<Repo> {
    if has_name(entries, name) {
        Some(entries[position_of(entries, name)])
    } else {
        None
    }
}

/// The names of the entries, in their order.
pub open spec fn names_of(entries: Seq<Repo>) -> Seq<Seq<char>> {
    Seq::new(entries.len(), |i: int| entries[i].name@)
}

/// Among entries with distinct names, the one found under a name is the one
/// that stands at any position carrying that name.
pub proof fn lemma_lookup_at(entries: Seq<Repo>, i: int)
    requires
        names_distinct(entries),
        0 <= i < entries.len(),
    ensures
        has_name(entries, entries[i].name@),
        position_of(entries, entries[i].name@) == i,
        lookup(entries, entries[i].name@) == Some(entries[i]),
{
    assert(has_name(entries, entries[i].name@));
}

/// Replacing the entry of a name, or adding an entry under a new name, keeps
/// the names distinct, makes that entry the one found under its name, and
/// leaves what is found under every other name as it was.
pub proof fn lemma_insert_is_map_update(before: Seq<Repo>, after: Seq<Repo>, repo: Repo)
    requires
        names_distinct(before),
        has_name(before, repo.name@) ==> after == before.update(
            position_of(before, repo.name@),
            repo,
        ),
        !has_name(before, repo.name@) ==> after == before.push(repo),
    ensures
        names_distinct(after),
        lookup(after, repo.name@) == Some(repo),
        forall|other: Seq<char>|
            other != repo.name@ ==> #[trigger] lookup(after, other) == lookup(before, other),
{
    let at = if has_name(before, repo.name@) {
        position_of(before, repo.name@)
    } else {
        before.len() as int
    };
    lemma_lookup_at(after, at);
    assert forall|other: Seq<char>| other != repo.name@ implies #[trigger] lookup(after, other)
        == lookup(before, other) by {
        if has_name(before, other) {
            let i = position_of(before, other);
            lemma_lookup_at(after, i);
            lemma_lookup_at(before, i);
        } else if has_name(after, other) {
            assert(before[position_of(after, other)].name@ == other);
        }
    }
}

/// The configured repositories: a mapping from name to repository that
/// remembers the order in which names were first inserted.
#[derive(Debug)]
pub struct Repos {
    entries: Vec<Repo>,
}

impl View for Repos {
    type V = Seq<Repo>;

    /// The entries in iteration order.
    closed spec fn view(&self) -> Seq<Repo> {
        self.entries@
    }
}

impl Repos {
    #[verifier::type_invariant]
    spec fn unique_names(&self) -> bool {
        names_distinct(self.entries@)
    }

    /// The entries in iteration order. Each name occurs once among them.
    pub fn entries(&self) -> (entries: &Vec<Repo>)
        ensures
            entries@ == self@,
            names_distinct(self@),
    {
        proof {
            use_type_invariant(self);
        }
        &self.entries
    }

    /// The empty table.
    pub fn new() -> (repos: Repos)
        ensures
            repos@ == Seq::<Repo>::empty(),
    {
        Repos { entries: Vec::new() }
    }

    /// The number of repositories.
    pub fn len(&self) -> (n: usize)
        ensures
            n == self@.len(),
    {
        self.entries.len()
    }

    /// The position of the entry named `name`, if any.
    fn find(&self, name: &str) -> (found: Option<usize>)
        ensures
            match found {
                Some(i) => i < self@.len() && self@[i as int].name@ == name@,
                None => !has_name(self@, name@),
            },
    {
        let key = name.to_owned();
        let mut i: usize = 0;
        while i < self.entries.len()
            invariant
                i <= self.entries.len(),
                key@ == name@,
                forall|j: int| 0 <= j < i ==> self.entries@[j].name@ != name@,
            decreases self.entries.len() - i,
        {
            if self.entries[i].name == key {
                return Some(i);
            }
            i += 1;
        }
        None
    }

    /// The repository stored under `name`.
    pub fn get(&self, name: &str) -> (found: Option<&Repo>)
        ensures
            match found {
                Some(repo) => lookup(self@, name@) == Some(*repo),
                None => lookup(self@, name@).is_none(),
            },
    {
        match self.find(name) {
            Some(i) => {
                proof {
                    use_type_invariant(self);
                    lemma_lookup_at(self.entries@, i as int);
                }
                Some(&self.entries[i])
            },
            None => None,
        }
    }

    /// Stores `repo` under its name. A repository already stored under that
    /// name is replaced where it stands and handed back; a new name goes to
    /// the end.
    pub fn insert(&mut self, repo: Repo) -> (previous: Option<Repo>)
        ensures
            previous == lookup(old(self)@, repo.name@),
            has_name(old(self)@, repo.name@) ==> final(self)@ == old(self)@.update(
                position_of(old(self)@, repo.name@),
                repo,
            ),
            !has_name(old(self)@, repo.name@) ==> final(self)@ == old(self)@.push(repo),
            lookup(final(self)@, repo.name@) == Some(repo),
            forall|other: Seq<char>|
                other != repo.name@ ==> #[trigger] lookup(final(self)@, other) == lookup(
                    old(self)@,
                    other,
                ),
    {
        proof {
            use_type_invariant(&*self);
        }
        let found = self.find(repo.name.as_str());
        let mut entries: Vec<Repo> = Vec::new();
        core::mem::swap(&mut self.entries, &mut entries);
        let previous = match found {
            Some(i) => {
                proof {
                    lemma_lookup_at(entries@, i as int);
                }
                let previous = entries[i].duplicate();
                entries.set(i, repo);
                Some(previous)
            },
            None => {
                entries.push(repo);
                None
            },
        };
        proof {
            lemma_insert_is_map_update(old(self).entries@, entries@, repo);
        }
        core::mem::swap(&mut self.entries, &mut entries);
        previous
    }

    /// The configured names, in iteration order.
    pub fn names(&self) -> (names: Vec<String>)
        ensures
            names@.len() == self@.len(),
            forall|i: int| 0 <= i < names@.len() ==> names@[i]@ == self@[i].name@,
    {
        let mut names: Vec<String> = Vec::new();
        let mut i: usize = 0;
        while i < self.entries.len()
            invariant
                i <= self.entries.len(),
                names@.len() == i,
                forall|j: int| 0 <= j < i ==> names@[j]@ == self.entries@[j].name@,
            decreases self.entries.len() - i,
        {
            names.push(self.entries[i].name.clone());
            i += 1;
        }
        names
    }

    /// Whether a repository is stored under `name`.
    pub fn contains(&self, name: &str) -> (present: bool)
        ensures
            present == has_name(self@, name@),
    {
        self.find(name).is_some()
    }
}

} // verus!
