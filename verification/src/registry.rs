//! Named registries: the implementations a factory hands out by provider
//! name, and the repositories of the storage backends.

use vstd::prelude::*;
use vstd::string::StringExecFns;
use crate::text::{lemma_index_of_unique, str_eq};

verus! {

/// Implementations registered under provider names, in registration order.
/// A name is registered at most once: the first registration under a name
/// stays.
pub struct ProviderRegistry<H> {
    entries: Vec<(String, H)>,
}

impl<H> ProviderRegistry<H> {
    /// The registered names, in registration order.
    pub closed spec fn names(&self) -> Seq<Seq<char>> {
        self.entries@.map_values(|e: (String, H)| e.0@)
    }

    /// The implementation registered at a position.
    pub closed spec fn handler_at(&self, i: int) -> H {
        self.entries@[i].1
    }

    /// Whether an implementation is registered under a name.
    pub open spec fn has(&self, name: Seq<char>) -> bool {
        self.names().contains(name)
    }

    /// The implementation registered under each registered name.
    pub closed spec fn handlers(&self) -> Map<Seq<char>, H> {
        Map::new(
            |n: Seq<char>| self.has(n),
            |n: Seq<char>| self.handler_at(self.names().index_of(n)),
        )
    }

    /// No name is registered twice.
    pub open spec fn wf(&self) -> bool {
        self.names().no_duplicates()
    }

    /// An empty registry.
    pub fn new() -> (r: Self)
        ensures
            r.wf(),
            r.names() == Seq::<Seq<char>>::empty(),
    {
        let r = ProviderRegistry { entries: Vec::new() };
        assert(r.names() =~= Seq::<Seq<char>>::empty());
        r
    }

    fn find(&self, name: &str) -> (r: Option<usize>)
        ensures
            match r {
                Some(i) => i < self.names().len() && self.names()[i as int] == name@,
                None => !self.has(name@),
            },
    {
        let mut i: usize = 0;
        while i < self.entries.len()
            invariant
                i <= self.entries.len(),
                forall|j: int| 0 <= j < i ==> self.names()[j] != name@,
            decreases self.entries.len() - i,
        {
            if str_eq(self.entries[i].0.as_str(), name) {
                return Some(i);
            }
            i += 1;
        }
        None
    }

    /// Registers `handler` under `name` unless the name is taken, in which
    /// case the registry stays as it was; says whether it was stored.
    pub fn register0(&mut self, name: &str, handler: H) -> (stored: bool)
        requires
            old(self).wf(),
        ensures
            final(self).wf(),
            stored == !old(self).has(name@),
            final(self).has(name@),
            !stored ==> final(self).names() == old(self).names()
                && forall|i: int| 0 <= i < old(self).names().len() ==> #[trigger] final(self).handler_at(i) == old(self).handler_at(i),
            stored ==> final(self).names() == old(self).names().push(name@)
                && final(self).handler_at(old(self).names().len() as int) == handler
                && forall|i: int| 0 <= i < old(self).names().len() ==> #[trigger] final(self).handler_at(i) == old(self).handler_at(i),
            final(self).handlers() == with_registration(old(self).handlers(), name@, handler),
    {
        match self.find(name) {
            Some(_) => {
                assert(old(self).handlers().contains_key(name@));
                assert(self.handlers() =~= old(self).handlers());
                false
            },
            None => {
                let ghost before = self.names();
                let ghost old_reg = *old(self);
                self.entries.push((String::from_str(name), handler));
                assert(self.names() =~= before.push(name@));
                proof {
                    let after = self.names();
                    assert(after[before.len() as int] == name@);
                    assert forall|a: int, b: int| 0 <= a < after.len() && 0 <= b < after.len() && a != b
                        implies after[a] != after[b] by {
                        if a < before.len() && b < before.len() {
                            assert(after[a] == before[a] && after[b] == before[b]);
                        } else if a == before.len() {
                            assert(after[b] == before[b]);
                        } else {
                            assert(after[a] == before[a]);
                        }
                    }
                    lemma_index_of_unique(after, before.len() as int);
                    assert forall|n: Seq<char>| #[trigger] self.has(n) == (old_reg.has(n) || n == name@) by {
                        if old_reg.has(n) {
                            let k = choose|k: int| 0 <= k < before.len() && before[k] == n;
                            assert(after[k] == n);
                        }
                        if self.has(n) && n != name@ {
                            let k = choose|k: int| 0 <= k < after.len() && after[k] == n;
                            assert(k < before.len());
                            assert(before[k] == n);
                        }
                    }
                    assert forall|n: Seq<char>| #[trigger] old_reg.has(n)
                        implies self.handlers()[n] == old_reg.handlers()[n] by {
                        let k = choose|k: int| 0 <= k < before.len() && before[k] == n;
                        lemma_index_of_unique(before, k);
                        assert(after[k] == n);
                        lemma_index_of_unique(after, k);
                    }
                    assert(self.handlers() =~= old_reg.handlers().insert(name@, handler));
                }
                true
            },
        }
    }

    /// The implementation registered under a name.
    pub fn get_implementation(&self, name: &str) -> (r: Option<&H>)
        requires
            self.wf(),
        ensures
            self.has(name@) <==> r is Some,
            r matches Some(h) ==> exists|i: int| 0 <= i < self.names().len() && self.names()[i] == name@
                && #[trigger] self.handler_at(i) == *h,
            self.handlers().contains_key(name@) <==> r is Some,
            r matches Some(h) ==> *h == self.handlers()[name@],
    {
        match self.find(name) {
            Some(i) => {
                let h = &self.entries[i].1;
                assert(self.handler_at(i as int) == *h);
                proof { lemma_index_of_unique(self.names(), i as int); }
                Some(h)
            },
            None => None,
        }
    }

    /// The registered names.
    pub fn registered(&self) -> (r: Vec<String>)
        ensures
            r@.map_values(|s: String| s@) == self.names(),
    {
        let mut r: Vec<String> = Vec::new();
        let mut i: usize = 0;
        while i < self.entries.len()
            invariant
                i <= self.entries.len(),
                r@.len() == i,
                forall|k: int| 0 <= k < i ==> #[trigger] r@[k]@ == self.names()[k],
            decreases self.entries.len() - i,
        {
            r.push(self.entries[i].0.clone());
            i += 1;
        }
        assert(r@.map_values(|s: String| s@) =~= self.names());
        r
    }
}

/// The handlers after a registration under `name`: unchanged when the name
/// is taken, else with `handler` added under it.
pub open spec fn with_registration<H>(m: Map<Seq<char>, H>, name: Seq<char>, handler: H) -> Map<Seq<char>, H> {
    if m.contains_key(name) { m } else { m.insert(name, handler) }
}

/// After a registration under a name, that name is served: by the first
/// implementation registered under it, which a later registration does not
/// replace; the other names are served as before.
pub proof fn lemma_lookup_after_registration<H>(m: Map<Seq<char>, H>, name: Seq<char>, handler: H, other: Seq<char>)
    ensures
        with_registration(m, name, handler).contains_key(name),
        with_registration(m, name, handler)[name] == (if m.contains_key(name) { m[name] } else { handler }),
        other != name ==> (with_registration(m, name, handler).contains_key(other) == m.contains_key(other)),
        other != name && m.contains_key(other) ==> with_registration(m, name, handler)[other] == m[other],
{
}

/// The error text of a backtest manager that is not registered.
pub fn backtest_manager_missing(name: &str) -> (s: String)
    ensures
        s@ == "Could not obtain registered Sigbot Backtest manager '"@ + name@ + "'."@,
{
    let mut s = String::from_str("Could not obtain registered Sigbot Backtest manager '");
    s.append(name);
    s.append("'.");
    s
}

/// The error text of an LLM operation that is not registered.
pub fn llm_operation_missing(provider: &str) -> (s: String)
    ensures
        s@ == "Could not get LLM operation with provider: '"@ + provider@ + "'."@,
{
    let mut s = String::from_str("Could not get LLM operation with provider: '");
    s.append(provider);
    s.append("'.");
    s
}

/// The storage backend of the application database.
#[derive(Clone, Copy, Debug, PartialEq, Eq, Structural)]
pub enum AppDBType {
    SQLITE,
    POSTGRESQL,
    MONGODB,
    TIMESCALEDB,
}

/// One repository per storage backend; only those that were set up are present.
pub struct RepositoryContainer<R> {
    pub sqlite_repo: Option<R>,
    pub postgres_repo: Option<R>,
    pub mongo_repo: Option<R>,
    pub timescaledb_repo: Option<R>,
}

impl<R> RepositoryContainer<R> {
    /// The repository slot of a backend.
    pub open spec fn slot(&self, db_type: AppDBType) -> Option<R> {
        match db_type {
            AppDBType::SQLITE => self.sqlite_repo,
            AppDBType::POSTGRESQL => self.postgres_repo,
            AppDBType::MONGODB => self.mongo_repo,
            AppDBType::TIMESCALEDB => self.timescaledb_repo,
        }
    }

    /// A container with the repository of the configured backend only.
    pub fn for_backend(db_type: AppDBType, repo: R) -> (c: Self)
        ensures
            c.slot(db_type) == Some(repo),
            forall|t: AppDBType| t != db_type ==> (#[trigger] c.slot(t)) is None,
    {
        match db_type {
            AppDBType::SQLITE => RepositoryContainer { sqlite_repo: Some(repo), postgres_repo: None, mongo_repo: None, timescaledb_repo: None },
            AppDBType::POSTGRESQL => RepositoryContainer { sqlite_repo: None, postgres_repo: Some(repo), mongo_repo: None, timescaledb_repo: None },
            AppDBType::MONGODB => RepositoryContainer { sqlite_repo: None, postgres_repo: None, mongo_repo: Some(repo), timescaledb_repo: None },
            AppDBType::TIMESCALEDB => RepositoryContainer { sqlite_repo: None, postgres_repo: None, mongo_repo: None, timescaledb_repo: Some(repo) },
        }
    }

    /// A container whose only repository is the PostgreSQL one, present when
    /// the configured backend is PostgreSQL (the lock store has no other).
    pub fn postgres_only(db_type: AppDBType, repo: R) -> (c: Self)
        ensures
            db_type == AppDBType::POSTGRESQL ==> c.slot(AppDBType::POSTGRESQL) == Some(repo),
            forall|t: AppDBType| t != AppDBType::POSTGRESQL ==> (#[trigger] c.slot(t)) is None,
            db_type != AppDBType::POSTGRESQL ==> c.slot(AppDBType::POSTGRESQL) is None,
    {
        RepositoryContainer {
            sqlite_repo: None,
            postgres_repo: if db_type == AppDBType::POSTGRESQL { Some(repo) } else { None },
            mongo_repo: None,
            timescaledb_repo: None,
        }
    }

    /// The repository of the configured backend; using a backend whose
    /// repository was not set up is a configuration error.
    pub fn get(&self, db_type: AppDBType) -> (r: &R)
        requires
            self.slot(db_type) is Some,
        ensures
            Some(*r) == self.slot(db_type),
    {
        match db_type {
            AppDBType::SQLITE => self.sqlite_repo.as_ref().unwrap(),
            AppDBType::POSTGRESQL => self.postgres_repo.as_ref().unwrap(),
            AppDBType::MONGODB => self.mongo_repo.as_ref().unwrap(),
            AppDBType::TIMESCALEDB => self.timescaledb_repo.as_ref().unwrap(),
        }
    }

    /// The repository of the configured backend, if it was set up.
    pub fn try_get(&self, db_type: AppDBType) -> (r: Option<&R>)
        ensures
            match r {
                Some(x) => self.slot(db_type) == Some(*x),
                None => self.slot(db_type) is None,
            },
    {
        match db_type {
            AppDBType::SQLITE => self.sqlite_repo.as_ref(),
            AppDBType::POSTGRESQL => self.postgres_repo.as_ref(),
            AppDBType::MONGODB => self.mongo_repo.as_ref(),
            AppDBType::TIMESCALEDB => self.timescaledb_repo.as_ref(),
        }
    }

    /// The message of the panic for a backend whose repository is missing.
    pub fn missing_message(db_type: AppDBType) -> (s: &'static str)
        ensures
            s@ == (match db_type {
                AppDBType::SQLITE => "The sqlite repository not configured."@,
                AppDBType::POSTGRESQL => "The postgresql repository not configured."@,
                AppDBType::MONGODB => "The mongodb repository not configured."@,
                AppDBType::TIMESCALEDB => "The timescaledb repository not configured."@,
            }),
    {
        match db_type {
            AppDBType::SQLITE => "The sqlite repository not configured.",
            AppDBType::POSTGRESQL => "The postgresql repository not configured.",
            AppDBType::MONGODB => "The mongodb repository not configured.",
            AppDBType::TIMESCALEDB => "The timescaledb repository not configured.",
        }
    }
}

} // verus!
