//! Core services: the provider registry and render orchestration.
use crate::assoc::{as_map, distinct_keys, find_key, lookup, upsert};
use crate::capabilities::ProviderMetadata;
use crate::error::{DiagramError, DiagramResult};
use crate::order::{insert_sorted, strictly_sorted};
use crate::ports::{DiagramProvider, DiagramRequest, RenderStep};
use crate::providers::Provider;
use crate::text::{lowercase, to_lower};
use vstd::prelude::*;

verus! {

/// A registered provider and its metadata.
pub struct RegistryEntry {
    pub provider: Provider,
    pub metadata: ProviderMetadata,
}

/// Central registry for diagram provider discovery and lookup, keyed by
/// lowercased name.
pub struct DiagramRegistry {
    providers: Vec<(String, RegistryEntry)>,
}

impl View for DiagramRegistry {
    type V = Map<Seq<char>, RegistryEntry>;

    closed spec fn view(&self) -> Map<Seq<char>, RegistryEntry> {
        as_map(self.providers@)
    }
}

impl DiagramRegistry {
    #[verifier::type_invariant]
    spec fn wf(&self) -> bool {
        distinct_keys(self.providers@)
    }

    /// Create a new empty registry.
    pub fn new() -> (r: Self)
        ensures
            r@ == Map::<Seq<char>, RegistryEntry>::empty(),
    {
        let r = DiagramRegistry { providers: Vec::new() };
        proof {
            crate::assoc::lemma_empty_map(r.providers@);
        }
        r
    }

    /// Register a provider under the given name, with bootstrap metadata.
    pub fn register(&mut self, name: &str, provider: Provider)
        ensures
            final(self)@.dom() == old(self)@.dom().insert(lowercase(name@)),
            forall|k: Seq<char>| k != lowercase(name@) && old(self)@.contains_key(k) ==> #[trigger] final(self)@[k] == old(self)@[k],
            final(self)@[lowercase(name@)].provider == provider,
            final(self)@[lowercase(name@)].metadata.provider_id@ == lowercase(name@),
            final(self)@[lowercase(name@)].metadata.category == crate::capabilities::ProviderCategory::Stub,
            final(self)@[lowercase(name@)].metadata.runtime == crate::capabilities::RuntimeDependency::NoDependency,
            final(self)@[lowercase(name@)].metadata.supported_formats@ == provider.formats(),
            final(self)@[lowercase(name@)].metadata.description@ == "Bootstrap provider metadata"@,
    {
        let formats = provider.supported_formats();
        let metadata = ProviderMetadata::bootstrap(name, formats);
        self.register_with_metadata(name, provider, metadata);
    }

    /// Register a provider under the given name with explicit metadata.
    pub fn register_with_metadata(
        &mut self,
        name: &str,
        provider: Provider,
        metadata: ProviderMetadata,
    )
        ensures
            final(self)@ == old(self)@.insert(
                lowercase(name@),
                RegistryEntry { provider, metadata },
            ),
    {
        proof {
            use_type_invariant(&*self);
        }
        let key = to_lower(name);
        let mut entries: Vec<(String, RegistryEntry)> = Vec::new();
        std::mem::swap(&mut entries, &mut self.providers);
        upsert(&mut entries, key, RegistryEntry { provider, metadata });
        self.providers = entries;
    }

    /// Look up a provider by name (case-insensitively).
    pub fn get(&self, name: &str) -> (r: Option<&Provider>)
        ensures
            r matches Some(p) ==> self@.contains_key(lowercase(name@)) && *p == self@[lowercase(
                name@,
            )].provider,
            r is None ==> !self@.contains_key(lowercase(name@)),
    {
        proof {
            use_type_invariant(self);
        }
        let key = to_lower(name);
        match lookup(&self.providers, key.as_str()) {
            Some(entry) => Some(&entry.provider),
            None => None,
        }
    }

    /// The metadata of a provider, by name (case-insensitively).
    pub fn metadata(&self, name: &str) -> (r: Option<&ProviderMetadata>)
        ensures
            r matches Some(m) ==> self@.contains_key(lowercase(name@)) && *m == self@[lowercase(
                name@,
            )].metadata,
            r is None ==> !self@.contains_key(lowercase(name@)),
    {
        proof {
            use_type_invariant(self);
        }
        let key = to_lower(name);
        match lookup(&self.providers, key.as_str()) {
            Some(entry) => Some(&entry.metadata),
            None => None,
        }
    }

    /// Return all registered provider names, in order.
    pub fn known_types(&self) -> (r: Vec<String>)
        ensures
            strictly_sorted(r@.map_values(|s: String| s@)),
            r@.map_values(|s: String| s@).to_set() == self@.dom(),
            self@.dom().finite(),
            r@.len() == self@.dom().len(),
    {
        proof {
            use_type_invariant(self);
        }
        let ghost s = self.providers@;
        let mut out: Vec<String> = Vec::new();
        let n = self.providers.len();
        for i in 0..n
            invariant
                n == s.len(),
                s == self.providers@,
                distinct_keys(s),
                out@.len() == i,
                strictly_sorted(out@.map_values(|x: String| x@)),
                out@.map_values(|x: String| x@).to_set() == s.subrange(0, i as int).map_values(
                    |e: (String, RegistryEntry)| e.0@,
                ).to_set(),
        {
            let key = self.providers[i].0.clone();
            proof {
                let ks = s.subrange(0, i as int).map_values(|e: (String, RegistryEntry)| e.0@);
                if out@.map_values(|x: String| x@).contains(key@) {
                    assert(out@.map_values(|x: String| x@).to_set().contains(key@));
                    let j = choose|j: int| 0 <= j < ks.len() && ks[j] == key@;
                    assert(s[j].0@ == s[i as int].0@);
                }
                let ks2 = s.subrange(0, i + 1).map_values(|e: (String, RegistryEntry)| e.0@);
                assert(ks2 =~= ks.push(key@));
                assert(ks2.to_set() =~= ks.to_set().insert(key@)) by {
                    assert forall|x: Seq<char>| ks2.to_set().contains(x) implies ks.to_set().insert(key@).contains(x) by {
                        let j = choose|j: int| 0 <= j < ks2.len() && ks2[j] == x;
                        if j < ks.len() {
                            assert(ks[j] == x);
                        }
                    }
                    assert forall|x: Seq<char>| ks.to_set().insert(key@).contains(x) implies ks2.to_set().contains(x) by {
                        if x == key@ {
                            assert(ks2[i as int] == x);
                        } else {
                            let j = choose|j: int| 0 <= j < ks.len() && ks[j] == x;
                            assert(ks2[j] == x);
                        }
                    }
                }
            }
            insert_sorted(&mut out, key);
        }
        proof {
            let ks = s.subrange(0, n as int).map_values(|e: (String, RegistryEntry)| e.0@);
            assert(s.subrange(0, n as int) =~= s);
            crate::assoc::lemma_map_len(s);
            assert(ks.to_set() =~= self@.dom()) by {
                assert forall|k: Seq<char>| ks.to_set().contains(k) implies self@.dom().contains(k) by {
                    let j = choose|j: int| 0 <= j < ks.len() && ks[j] == k;
                    assert(s[j].0@ == k);
                }
                assert forall|k: Seq<char>| self@.dom().contains(k) implies ks.to_set().contains(k) by {
                    let j = choose|j: int| 0 <= j < s.len() && s[j].0@ == k;
                    assert(ks[j] == k);
                }
            }
        }
        out
    }
}

impl Default for DiagramRegistry {
    fn default() -> (r: Self)
        ensures
            r@ == Map::<Seq<char>, RegistryEntry>::empty(),
    {
        Self::new()
    }
}

/// The step of a resolution, without the provider.
pub open spec fn found_step(r: DiagramResult<(&Provider, RenderStep)>) -> DiagramResult<RenderStep> {
    match r {
        Ok((_, step)) => Ok(step),
        Err(e) => Err(e),
    }
}

/// Resolves the provider of a request and takes its first step: the provider
/// registered under the request's diagram type must exist and accept the source.
pub fn render_with_registry<'a>(registry: &'a DiagramRegistry, request: &DiagramRequest) -> (r:
    DiagramResult<(&'a Provider, RenderStep)>)
    ensures
        !registry@.contains_key(lowercase(request.diagram_type@)) ==> (r matches Err(e) && e@
            == crate::ports::ErrorView::ToolNotFound(request.diagram_type@)),
        registry@.contains_key(lowercase(request.diagram_type@)) && !registry@[lowercase(
            request.diagram_type@,
        )].provider.accepts(request.source@) ==> (r matches Err(e) && e@ == crate::providers::empty_source(
            registry@[lowercase(request.diagram_type@)].provider.label(),
        )),
        registry@.contains_key(lowercase(request.diagram_type@)) && registry@[lowercase(
            request.diagram_type@,
        )].provider.accepts(request.source@) ==> crate::ports::result_view(found_step(r))
            == registry@[lowercase(request.diagram_type@)].provider.start_view(request@),
        r matches Ok((p, _)) ==> registry@.contains_key(lowercase(request.diagram_type@)) && *p
            == registry@[lowercase(request.diagram_type@)].provider && p.accepts(request.source@),
{
    let provider = match registry.get(request.diagram_type.as_str()) {
        Some(p) => p,
        None => {
            return Err(DiagramError::ToolNotFound(request.diagram_type.clone()));
        },
    };
    provider.validate(request.source.as_str())?;
    let step = provider.start(request)?;
    Ok((provider, step))
}

} // verus!
