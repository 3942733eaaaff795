//! The registry of processor extensions: factories keyed by type URL.
//!
//! A builder collects registrations; the registry it builds is immutable and
//! answers, for a type URL, the factory registered for it. Registering a type
//! URL again replaces its factory and keeps its place; the unique form of
//! registration refuses a type URL already present.
use vstd::prelude::*;

use crate::text::{push_str, str_eq};

verus! {

/// The type URLs of a list of registrations, in order.
pub open spec fn urls_of<F>(entries: Seq<(String, F)>) -> Seq<Seq<char>> {
    entries.map_values(|e: (String, F)| e.0@)
}

/// No type URL occurs twice.
pub open spec fn distinct_urls<F>(entries: Seq<(String, F)>) -> bool {
    forall|i: int, j: int| 0 <= i < j < entries.len() ==> (#[trigger] entries[i]).0@ != (#[trigger] entries[j]).0@
}

/// The position of a type URL among the registrations, if it is there.
pub open spec fn position_of<F>(entries: Seq<(String, F)>, url: Seq<char>) -> Option<int> {
    if exists|i: int| 0 <= i < entries.len() && (#[trigger] entries[i]).0@ == url {
        Some(choose|i: int| 0 <= i < entries.len() && (#[trigger] entries[i]).0@ == url)
    } else {
        None
    }
}

/// The factory registered for a type URL, if any.
pub open spec fn factory_of<F>(entries: Seq<(String, F)>, url: Seq<char>) -> Option<F> {
    match position_of(entries, url) {
        Some(i) => Some(entries[i].1),
        None => None,
    }
}

/// Errors of registration and lookup.
#[derive(Debug, Clone, PartialEq, Eq)]
pub enum RegistryError {
    /// No factory is registered for the type URL.
    UnknownTypeUrl {
        /// The type URL asked for.
        type_url: String,
        /// The registered type URLs, in registration order.
        available: Vec<String>,
    },
    /// The type URL was registered twice where that is refused.
    DuplicateTypeUrl {
        /// The type URL registered twice.
        type_url: String,
    },
}

/// The registered type URLs joined by `, `.
pub open spec fn joined(urls: Seq<Seq<char>>) -> Seq<char>
    decreases urls.len(),
{
    if urls.len() == 0 {
        Seq::empty()
    } else if urls.len() == 1 {
        urls[0]
    } else {
        joined(urls.drop_last()) + ", "@ + urls.last()
    }
}

impl RegistryError {
    /// The rendering of this error.
    pub open spec fn text(self) -> Seq<char> {
        match self {
            RegistryError::UnknownTypeUrl { type_url, available } => "unknown type URL '"@ + type_url@
                + "' (registered: "@ + joined(available@.map_values(|s: String| s@)) + ")"@,
            RegistryError::DuplicateTypeUrl { type_url } => "duplicate type URL '"@ + type_url@ + "'"@,
        }
    }

    /// Human-readable rendering: `unknown type URL '<url>' (registered: <a>, <b>)`
    /// or `duplicate type URL '<url>'`.
    pub fn to_string(&self) -> (r: String)
        ensures
            r@ == self.text(),
    {
        match self {
            RegistryError::UnknownTypeUrl { type_url, available } => {
                let mut r = String::from_str("unknown type URL '");
                push_str(&mut r, type_url.as_str());
                push_str(&mut r, "' (registered: ");
                let ghost start = r@;
                let ghost urls = available@.map_values(|s: String| s@);
                let mut i: usize = 0;
                while i < available.len()
                    invariant
                        0 <= i <= available@.len(),
                        urls == available@.map_values(|s: String| s@),
                        r@ == start + joined(urls.take(i as int)),
                    decreases available@.len() - i,
                {
                    if i > 0 {
                        push_str(&mut r, ", ");
                    }
                    push_str(&mut r, available[i].as_str());
                    proof {
                        let t = urls.take(i + 1);
                        assert(t.drop_last() =~= urls.take(i as int));
                        assert(t.last() == available@[i as int]@);
                    }
                    i = i + 1;
                }
                assert(urls.take(available@.len() as int) =~= urls);
                push_str(&mut r, ")");
                r
            },
            RegistryError::DuplicateTypeUrl { type_url } => {
                let mut r = String::from_str("duplicate type URL '");
                push_str(&mut r, type_url.as_str());
                push_str(&mut r, "'");
                r
            },
        }
    }
}

/// The position of `url` among the entries, found by a scan.
fn find<F>(entries: &Vec<(String, F)>, url: &str) -> (r: Option<usize>)
    requires
        distinct_urls(entries@),
    ensures
        match r {
            Some(i) => i < entries@.len() && entries@[i as int].0@ == url@ && position_of(entries@, url@) == Some(
                i as int,
            ),
            None => position_of(entries@, url@) is None,
        },
{
    let mut i: usize = 0;
    while i < entries.len()
        invariant
            0 <= i <= entries@.len(),
            distinct_urls(entries@),
            forall|k: int| 0 <= k < i ==> (#[trigger] entries@[k]).0@ != url@,
        decreases entries@.len() - i,
    {
        if str_eq(entries[i].0.as_str(), url) {
            let ghost j = choose|j: int| 0 <= j < entries@.len() && (#[trigger] entries@[j]).0@ == url@;
            assert(j == i) by {
                if j != i {
                    if j < i {
                        assert(entries@[j].0@ != url@);
                    } else {
                        assert(entries@[i as int].0@ != entries@[j].0@);
                    }
                }
            }
            return Some(i);
        }
        i = i + 1;
    }
    None
}

/// The type URLs of the entries, in order.
fn urls<F>(entries: &Vec<(String, F)>) -> (r: Vec<String>)
    ensures
        r@.map_values(|s: String| s@) == urls_of(entries@),
{
    let mut r: Vec<String> = Vec::new();
    let mut i: usize = 0;
    while i < entries.len()
        invariant
            0 <= i <= entries@.len(),
            r@.len() == i,
            urls_of(entries@).len() == entries@.len(),
            r@.map_values(|s: String| s@) == urls_of(entries@).take(i as int),
        decreases entries@.len() - i,
    {
        let ghost before = r@;
        let key = entries[i].0.clone();
        r.push(key);
        proof {
            assert(r@ == before.push(key));
            assert(key@ == entries@[i as int].0@);
            let m = r@.map_values(|s: String| s@);
            let t = urls_of(entries@).take(i + 1);
            assert(m.len() == t.len());
            assert forall|k: int| 0 <= k < m.len() implies m[k] == t[k] by {
                if k < i {
                    assert(m[k] == before.map_values(|s: String| s@)[k]);
                }
            }
            assert(m =~= t);
        }
        i = i + 1;
    }
    assert(urls_of(entries@).take(i as int) =~= urls_of(entries@));
    r
}

/// Collects factory registrations before the registry is built.
pub struct TypedRegistryBuilder<F> {
    entries: Vec<(String, F)>,
}

impl<F> TypedRegistryBuilder<F> {
    #[verifier::type_invariant]
    closed spec fn wf(self) -> bool {
        distinct_urls(self.entries@)
    }

    /// The registered type URLs, in order of first registration.
    pub closed spec fn type_url_seq(self) -> Seq<Seq<char>> {
        urls_of(self.entries@)
    }

    /// The factory registered for a type URL, if any.
    pub closed spec fn factory(self, url: Seq<char>) -> Option<F> {
        factory_of(self.entries@, url)
    }

    /// A builder with nothing registered.
    pub fn new() -> (r: Self)
        ensures
            r.type_url_seq().len() == 0,
            forall|u: Seq<char>| #[trigger] r.factory(u) is None,
    {
        TypedRegistryBuilder { entries: Vec::new() }
    }

    /// Register a factory for a type URL. A type URL registered before keeps
    /// its place and gets the new factory: the last registration wins.
    pub fn register(self, type_url: &str, factory: F) -> (r: Self)
        ensures
            r.factory(type_url@) == Some(factory),
            forall|u: Seq<char>| u != type_url@ ==> #[trigger] r.factory(u) == self.factory(u),
            self.type_url_seq().contains(type_url@) ==> r.type_url_seq() == self.type_url_seq(),
            !self.type_url_seq().contains(type_url@) ==> r.type_url_seq() == self.type_url_seq().push(type_url@),
    {
        proof {
            use_type_invariant(&self);
        }
        let mut entries = self.entries;
        let ghost old_entries = entries@;
        match find(&entries, type_url) {
            Some(i) => {
                let key = String::from_str(type_url);
                entries.set(i, (key, factory));
                proof {
                    let e = entries@;
                    assert(urls_of(e) =~= urls_of(old_entries));
                    assert forall|u: Seq<char>| #[trigger] position_of(e, u) == position_of(old_entries, u) by {
                        assert forall|k: int| 0 <= k < e.len() implies (#[trigger] e[k]).0@ == old_entries[k].0@ by {}
                        if exists|k: int| 0 <= k < e.len() && (#[trigger] e[k]).0@ == u {
                            let k = choose|k: int| 0 <= k < e.len() && (#[trigger] e[k]).0@ == u;
                            assert(old_entries[k].0@ == u);
                        }
                        if exists|k: int| 0 <= k < old_entries.len() && (#[trigger] old_entries[k]).0@ == u {
                            let k = choose|k: int| 0 <= k < old_entries.len() && (#[trigger] old_entries[k]).0@ == u;
                            assert(e[k].0@ == u);
                        }
                    }
                    assert forall|u: Seq<char>| u != type_url@ implies #[trigger] factory_of(e, u) == factory_of(old_entries, u) by {
                        if let Some(k) = position_of(e, u) {
                            assert(position_of(old_entries, u) == Some(k));
                            assert(k != i);
                        }
                    }
                    assert(urls_of(old_entries)[i as int] == type_url@);
                    assert(position_of(e, type_url@) == Some(i as int));
                }
                TypedRegistryBuilder { entries }
            },
            None => {
                let key = String::from_str(type_url);
                entries.push((key, factory));
                proof {
                    let e = entries@;
                    let n = old_entries.len() as int;
                    assert(urls_of(e) =~= urls_of(old_entries).push(type_url@));
                    assert(!urls_of(old_entries).contains(type_url@)) by {
                        if urls_of(old_entries).contains(type_url@) {
                            let k = choose|k: int| 0 <= k < urls_of(old_entries).len() && urls_of(old_entries)[k] == type_url@;
                            assert(old_entries[k].0@ == type_url@);
                        }
                    }
                    assert forall|a: int, b: int| 0 <= a < b < e.len() implies (#[trigger] e[a]).0@ != (#[trigger] e[b]).0@ by {
                        if b == n {
                            assert(old_entries[a].0@ != type_url@);
                        } else {
                            assert(e[a] == old_entries[a] && e[b] == old_entries[b]);
                        }
                    }
                    assert(e[n].0@ == type_url@);
                    assert(position_of(e, type_url@) == Some(n)) by {
                        let k = choose|k: int| 0 <= k < e.len() && (#[trigger] e[k]).0@ == type_url@;
                        if k != n {
                            assert(e[k] == old_entries[k]);
                        }
                    }
                    assert forall|u: Seq<char>| u != type_url@ implies #[trigger] factory_of(e, u) == factory_of(old_entries, u) by {
                        if exists|k: int| 0 <= k < e.len() && (#[trigger] e[k]).0@ == u {
                            let k = choose|k: int| 0 <= k < e.len() && (#[trigger] e[k]).0@ == u;
                            assert(k != n);
                            assert(e[k] == old_entries[k]);
                            let k2 = choose|k2: int| 0 <= k2 < old_entries.len() && (#[trigger] old_entries[k2]).0@ == u;
                            assert(k2 == k) by {
                                if k2 != k {
                                    assert(e[k2] == old_entries[k2]);
                                    if k2 < k {
                                        assert(e[k2].0@ != e[k].0@);
                                    } else {
                                        assert(e[k].0@ != e[k2].0@);
                                    }
                                }
                            }
                        }
                        if exists|k: int| 0 <= k < old_entries.len() && (#[trigger] old_entries[k]).0@ == u {
                            let k = choose|k: int| 0 <= k < old_entries.len() && (#[trigger] old_entries[k]).0@ == u;
                            assert(e[k] == old_entries[k]);
                        }
                    }
                }
                TypedRegistryBuilder { entries }
            },
        }
    }

    /// Register a factory for a type URL not registered before; a type URL
    /// already present is refused.
    pub fn register_unique(self, type_url: &str, factory: F) -> (r: Result<Self, RegistryError>)
        ensures
            self.type_url_seq().contains(type_url@) <==> r is Err,
            r matches Err(e) ==> (e matches RegistryError::DuplicateTypeUrl { type_url: u } && u@ == type_url@),
            r matches Ok(b) ==> {
                &&& b.factory(type_url@) == Some(factory)
                &&& forall|u: Seq<char>| u != type_url@ ==> #[trigger] b.factory(u) == self.factory(u)
                &&& b.type_url_seq() == self.type_url_seq().push(type_url@)
            },
    {
        proof {
            use_type_invariant(&self);
        }
        match find(&self.entries, type_url) {
            Some(i) => {
                proof {
                    assert(urls_of(self.entries@)[i as int] == type_url@);
                }
                Err(RegistryError::DuplicateTypeUrl { type_url: String::from_str(type_url) })
            },
            None => {
                proof {
                    if urls_of(self.entries@).contains(type_url@) {
                        let k = choose|k: int| 0 <= k < urls_of(self.entries@).len() && urls_of(self.entries@)[k] == type_url@;
                        assert(self.entries@[k].0@ == type_url@);
                    }
                }
                Ok(self.register(type_url, factory))
            },
        }
    }

    /// Freeze the registrations into a registry.
    pub fn build(self) -> (r: TypedRegistry<F>)
        ensures
            r.type_url_seq() == self.type_url_seq(),
            forall|u: Seq<char>| #[trigger] r.factory(u) == self.factory(u),
    {
        proof {
            use_type_invariant(&self);
        }
        TypedRegistry { entries: self.entries }
    }
}

/// Factories keyed by type URL. Immutable once built.
pub struct TypedRegistry<F> {
    entries: Vec<(String, F)>,
}

impl<F> TypedRegistry<F> {
    #[verifier::type_invariant]
    closed spec fn wf(self) -> bool {
        distinct_urls(self.entries@)
    }

    /// The registered type URLs, in order of first registration.
    pub closed spec fn type_url_seq(self) -> Seq<Seq<char>> {
        urls_of(self.entries@)
    }

    /// The factory registered for a type URL, if any.
    pub closed spec fn factory(self, url: Seq<char>) -> Option<F> {
        factory_of(self.entries@, url)
    }

    /// The number of registered type URLs.
    pub fn len(&self) -> (r: usize)
        ensures
            r == self.type_url_seq().len(),
    {
        self.entries.len()
    }

    /// Whether nothing is registered.
    pub fn is_empty(&self) -> (r: bool)
        ensures
            r == (self.type_url_seq().len() == 0),
    {
        self.entries.len() == 0
    }

    /// The registered type URLs, in order of first registration.
    pub fn type_urls(&self) -> (r: Vec<String>)
        ensures
            r@.map_values(|s: String| s@) == self.type_url_seq(),
    {
        urls(&self.entries)
    }

    /// The factory registered for a type URL; an unknown type URL is an
    /// error that lists the registered ones.
    pub fn get(&self, type_url: &str) -> (r: Result<&F, RegistryError>)
        ensures
            match r {
                Ok(f) => self.factory(type_url@) == Some(*f),
                Err(e) => {
                    &&& self.factory(type_url@) is None
                    &&& e matches RegistryError::UnknownTypeUrl { type_url: u, available }
                    &&& u@ == type_url@
                    &&& available@.map_values(|s: String| s@) == self.type_url_seq()
                },
            },
    {
        proof {
            use_type_invariant(self);
        }
        match find(&self.entries, type_url) {
            Some(i) => Ok(&self.entries[i].1),
            None => Err(
                RegistryError::UnknownTypeUrl { type_url: String::from_str(type_url), available: urls(&self.entries) },
            ),
        }
    }
}

} // verus!
