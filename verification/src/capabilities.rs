//! Capability registry and provider metadata contracts.
use crate::assoc::{as_map, distinct_keys, has_key, lookup, upsert, value_at};
use crate::order::{lemma_lex_irreflexive, lemma_lex_total, lemma_lex_transitive, less_than, lex_lt};
use crate::ports::OutputFormat;
use crate::text::{lowercase, owned, to_lower};
use vstd::prelude::*;

verus! {

#[derive(Debug, Clone, Copy, PartialEq, Eq, Structural)]
pub enum ProviderCategory {
    Command,
    Browser,
    Pipeline,
    Plugin,
    Stub,
}

#[derive(Debug, Clone, PartialEq, Eq)]
pub enum RuntimeDependency {
    NoDependency,
    SystemTool { binary: String },
    BrowserEngine,
}

#[derive(Debug, Clone, PartialEq, Eq)]
pub struct ProviderMetadata {
    pub provider_id: String,
    pub category: ProviderCategory,
    pub runtime: RuntimeDependency,
    pub supported_formats: Vec<OutputFormat>,
    pub description: String,
}

impl ProviderMetadata {
    /// Default metadata for a provider registered without an explicit contract.
    pub fn bootstrap(name: &str, supported_formats: Vec<OutputFormat>) -> (m: Self)
        ensures
            m.provider_id@ == lowercase(name@),
            m.category == ProviderCategory::Stub,
            m.runtime == RuntimeDependency::NoDependency,
            m.supported_formats == supported_formats,
            m.description@ == "Bootstrap provider metadata"@,
    {
        ProviderMetadata {
            provider_id: to_lower(name),
            category: ProviderCategory::Stub,
            runtime: RuntimeDependency::NoDependency,
            supported_formats,
            description: owned("Bootstrap provider metadata"),
        }
    }
}

/// Metadata of providers, keyed by their lowercased id.
#[derive(Debug)]
pub struct CapabilityRegistry {
    capabilities: Vec<(String, ProviderMetadata)>,
}

/// Every entry sits under the lowercase form of its own id, and no key twice.
pub open spec fn capability_entries_wf(s: Seq<(String, ProviderMetadata)>) -> bool {
    &&& distinct_keys(s)
    &&& forall|i: int| 0 <= i < s.len() ==> (#[trigger] s[i]).0@ == lowercase(s[i].1.provider_id@)
}

/// The ids of a list of metadata references.
pub open spec fn ids_of(s: Seq<&ProviderMetadata>) -> Seq<Seq<char>> {
    s.map_values(|m: &ProviderMetadata| m.provider_id@)
}

impl View for CapabilityRegistry {
    type V = Map<Seq<char>, ProviderMetadata>;

    closed spec fn view(&self) -> Map<Seq<char>, ProviderMetadata> {
        as_map(self.capabilities@)
    }
}

impl CapabilityRegistry {
    #[verifier::type_invariant]
    spec fn wf(&self) -> bool {
        capability_entries_wf(self.capabilities@)
    }

    pub fn new() -> (r: Self)
        ensures
            r@ == Map::<Seq<char>, ProviderMetadata>::empty(),
    {
        let r = CapabilityRegistry { capabilities: Vec::new() };
        proof {
            crate::assoc::lemma_empty_map(r.capabilities@);
        }
        r
    }

    /// Adds (or replaces) the metadata under its lowercased id.
    pub fn register(&mut self, metadata: ProviderMetadata)
        ensures
            final(self)@ == old(self)@.insert(lowercase(metadata.provider_id@), metadata),
    {
        proof {
            use_type_invariant(&*self);
        }
        let key = to_lower(metadata.provider_id.as_str());
        let ghost old_entries = self.capabilities@;
        let mut entries: Vec<(String, ProviderMetadata)> = Vec::new();
        std::mem::swap(&mut entries, &mut self.capabilities);
        upsert(&mut entries, key, metadata);
        proof {
            let s = entries@;
            assert forall|i: int| 0 <= i < s.len() implies (#[trigger] s[i]).0@ == lowercase(
                s[i].1.provider_id@,
            ) by {
                if s[i] != old_entries[i] {
                    assert(s[i] == (key, metadata));
                } else {
                    assert(old_entries[i].0@ == lowercase(old_entries[i].1.provider_id@));
                }
            }
        }
        self.capabilities = entries;
    }

    /// The metadata registered under the lowercase form of an id.
    pub fn get(&self, provider_id: &str) -> (r: Option<&ProviderMetadata>)
        ensures
            r matches Some(m) ==> self@.contains_key(lowercase(provider_id@)) && *m
                == self@[lowercase(provider_id@)],
            r matches Some(m) ==> lowercase(m.provider_id@) == lowercase(provider_id@),
            r is None ==> !self@.contains_key(lowercase(provider_id@)),
    {
        proof {
            use_type_invariant(self);
        }
        let key = to_lower(provider_id);
        let r = lookup(&self.capabilities, key.as_str());
        proof {
            if r is Some {
                let s = self.capabilities@;
                let j = choose|j: int| 0 <= j < s.len() && s[j].0@ == key@;
                assert(s[j].0@ == lowercase(s[j].1.provider_id@));
            }
        }
        r
    }

    /// All metadata, ordered by id.
    pub fn all(&self) -> (r: Vec<&ProviderMetadata>)
        ensures
            forall|i: int|
                0 <= i < r@.len() ==> self@.contains_key(lowercase(r@[i].provider_id@)) && *r@[i]
                    == self@[lowercase(r@[i].provider_id@)],
            forall|k: Seq<char>| #[trigger]
                self@.contains_key(k) ==> exists|i: int| 0 <= i < r@.len() && *r@[i] == self@[k],
            forall|i: int, j: int|
                0 <= i < j < r@.len() ==> lex_lt(r@[i].provider_id@, r@[j].provider_id@),
            self@.dom().finite(),
            r@.len() == self@.dom().len(),
    {
        proof {
            use_type_invariant(self);
        }
        let ghost s = self.capabilities@;
        let mut out: Vec<&ProviderMetadata> = Vec::new();
        let ghost mut src: Seq<int> = Seq::empty();
        let ghost mut pos: Seq<int> = Seq::empty();
        let n = self.capabilities.len();
        for i in 0..n
            invariant
                n == s.len(),
                s == self.capabilities@,
                capability_entries_wf(s),
                out@.len() == i,
                src.len() == i,
                pos.len() == i,
                forall|a: int, b: int|
                    0 <= a < b < out@.len() ==> lex_lt(out@[a].provider_id@, out@[b].provider_id@),
                forall|a: int|
                    0 <= a < i ==> 0 <= #[trigger] src[a] < i && *out@[a] == s[src[a]].1,
                forall|j: int| 0 <= j < i ==> 0 <= #[trigger] pos[j] < i && *out@[pos[j]] == s[j].1,
        {
            let m = &self.capabilities[i].1;
            proof {
                assert forall|a: int| 0 <= a < out@.len() implies out@[a].provider_id@
                    != m.provider_id@ by {
                    let j = src[a];
                    assert(s[j].0@ == lowercase(s[j].1.provider_id@));
                    assert(s[i as int].0@ == lowercase(s[i as int].1.provider_id@));
                }
            }
            let ghost prev = out@;
            insert_by_id(&mut out, m);
            proof {
                let p = choose|p: int| 0 <= p <= prev.len() && out@ == prev.insert(p, m);
                let old_src = src;
                let old_pos = pos;
                src = old_src.insert(p, i as int);
                pos = old_pos.map_values(|x: int| if x >= p { x + 1 } else { x }).push(p);
                assert forall|a: int| 0 <= a < i + 1 implies 0 <= #[trigger] src[a] < i + 1
                    && *out@[a] == s[src[a]].1 by {
                    if a < p {
                        assert(src[a] == old_src[a]);
                    } else if a > p {
                        assert(src[a] == old_src[a - 1]);
                    }
                }
                assert forall|j: int| 0 <= j < i + 1 implies 0 <= #[trigger] pos[j] < i + 1
                    && *out@[pos[j]] == s[j].1 by {
                    if j < i {
                        let x = old_pos[j];
                        assert(pos[j] == if x >= p { x + 1 } else { x });
                    }
                }
            }
        }
        proof {
            assert forall|a: int| 0 <= a < out@.len() implies self@.contains_key(
                lowercase(out@[a].provider_id@),
            ) && *out@[a] == self@[lowercase(out@[a].provider_id@)] by {
                let j = src[a];
                assert(s[j].0@ == lowercase(s[j].1.provider_id@));
                assert(has_key(s, s[j].0@));
                let c = choose|c: int| 0 <= c < s.len() && s[c].0@ == s[j].0@;
                assert(c == j);
            }
            assert forall|k: Seq<char>| #[trigger] self@.contains_key(k) implies exists|a: int|
                0 <= a < out@.len() && *out@[a] == self@[k] by {
                let j = choose|j: int| 0 <= j < s.len() && s[j].0@ == k;
                let a = pos[j];
                assert(*out@[a] == s[j].1);
            }
        }
        proof {
            crate::assoc::lemma_map_len(s);
        }
        out
    }
}

/// Inserts a reference into a list strictly ordered by id, keeping it so.
fn insert_by_id<'a>(v: &mut Vec<&'a ProviderMetadata>, m: &'a ProviderMetadata)
    requires
        forall|a: int, b: int| 0 <= a < b < old(v)@.len() ==> lex_lt(old(v)@[a].provider_id@, old(v)@[b].provider_id@),
        forall|a: int| 0 <= a < old(v)@.len() ==> old(v)@[a].provider_id@ != m.provider_id@,
    ensures
        forall|a: int, b: int| 0 <= a < b < final(v)@.len() ==> lex_lt(final(v)@[a].provider_id@, final(v)@[b].provider_id@),
        exists|p: int| 0 <= p <= old(v)@.len() && final(v)@ == old(v)@.insert(p, m),
{
    let ghost before = v@;
    let n = v.len();
    let mut p: usize = 0;
    while p < n && less_than(v[p].provider_id.as_str(), m.provider_id.as_str())
        invariant
            p <= n == v@.len(),
            before == v@,
            forall|a: int| 0 <= a < p ==> lex_lt(before[a].provider_id@, m.provider_id@),
        decreases n - p,
    {
        p = p + 1;
    }
    proof {
        if p < n {
            lemma_lex_total(before[p as int].provider_id@, m.provider_id@);
        }
    }
    v.insert(p, m);
    proof {
        let after = v@;
        assert forall|a: int, b: int| 0 <= a < b < after.len() implies lex_lt(after[a].provider_id@, after[b].provider_id@) by {
            if b < p {
            } else if b == p {
            } else if a < p {
                if b - 1 > p {
                    lemma_lex_transitive(m.provider_id@, before[p as int].provider_id@, before[b - 1].provider_id@);
                }
                lemma_lex_transitive(before[a].provider_id@, m.provider_id@, before[b - 1].provider_id@);
            } else if a == p {
                if b - 1 > p {
                    lemma_lex_transitive(m.provider_id@, before[p as int].provider_id@, before[b - 1].provider_id@);
                }
            } else {
            }
        }
    }
}

} // verus!
