use std::sync::Arc;
use vstd::prelude::*;

use crate::component_id::{
    component_id_from_hash, component_id_of_bytes, hash_component, lemma_component_id_injective,
};
use crate::config::{join_path, path_join, ComponentRegistryConfig};
use crate::engine::{component_model_on, engine_component_model, failed_binary, failed_config, has_component_header, LoadedWasmComponent, WasmVerificationComponent};

verus! {

/// `Arc::clone`: another pointer to the same allocation, hence the same value.
#[verifier::external_body]
fn share<T>(value: &Arc<T>) -> (shared: Arc<T>)
    ensures
        shared == *value,
{
    Arc::clone(value)
}

/// A component the registry has compiled, and the cache directory its runs see.
pub struct RegisteredComponent {
    pub component: Arc<LoadedWasmComponent>,
    pub cache_dir: String,
}

impl Clone for RegisteredComponent {
    fn clone(&self) -> (copy: Self)
        ensures
            copy == *self,
    {
        RegisteredComponent { component: share(&self.component), cache_dir: self.cache_dir.clone() }
    }
}

struct RegistryEntry {
    id: String,
    registered: RegisteredComponent,
}

/// The registered components, from their ids.
spec fn entries_map(entries: Seq<RegistryEntry>) -> Map<Seq<char>, RegisteredComponent>
    decreases entries.len(),
{
    if entries.len() == 0 {
        Map::empty()
    } else {
        entries_map(entries.drop_last()).insert(entries.last().id@, entries.last().registered)
    }
}

spec fn ids_distinct(entries: Seq<RegistryEntry>) -> bool {
    forall|i: int, j: int|
        0 <= i < entries.len() && 0 <= j < entries.len() && i != j ==> entries[i].id@
            != entries[j].id@
}

proof fn lemma_entries_map(entries: Seq<RegistryEntry>)
    requires
        ids_distinct(entries),
    ensures
        forall|k: Seq<char>|
            entries_map(entries).dom().contains(k) <==> exists|i: int|
                0 <= i < entries.len() && #[trigger] entries[i].id@ == k,
        forall|i: int|
            0 <= i < entries.len() ==> entries_map(entries)[#[trigger] entries[i].id@]
                == entries[i].registered,
    decreases entries.len(),
{
    if entries.len() > 0 {
        let init = entries.drop_last();
        assert(ids_distinct(init));
        lemma_entries_map(init);
        let n = entries.len() - 1;
        assert forall|k: Seq<char>|
            entries_map(entries).dom().contains(k) implies exists|i: int|
                0 <= i < entries.len() && #[trigger] entries[i].id@ == k by {
            if k == entries[n].id@ {
                assert(entries[n].id@ == k);
            } else {
                assert(entries_map(init).dom().contains(k));
                let i = choose|i: int| 0 <= i < init.len() && #[trigger] init[i].id@ == k;
                assert(init[i] == entries[i]);
                assert(entries[i].id@ == k);
            }
        }
        assert forall|k: Seq<char>|
            (exists|i: int| 0 <= i < entries.len() && #[trigger] entries[i].id@ == k) implies
            entries_map(entries).dom().contains(k) by {
            let i = choose|i: int| 0 <= i < entries.len() && #[trigger] entries[i].id@ == k;
            if i < n {
                assert(init[i].id@ == k);
            }
        }
        assert forall|i: int| 0 <= i < entries.len() implies entries_map(entries)[
            #[trigger] entries[i].id@] == entries[i].registered by {
            if i < n {
                assert(init[i].id@ == entries[i].id@);
                assert(entries[i].id@ != entries[n].id@);
            }
        }
    }
}

/// What a registration step is told: that it was asked for, or how the outside
/// work it asked for (a signature check, creating a cache directory) went.
pub enum RegistrationEvent {
    Requested,
    SignatureChecked(Result<(), String>),
    CacheDirCreated(Result<(), String>),
}

/// Why a registration failed.
pub enum RegistrationError {
    /// `wasmsign2 verify` did not accept the component; the text says why.
    SignatureRejected(String),
    /// The component's cache directory could not be created.
    CacheDirUnavailable(String),
    /// The component could not be compiled.
    LoadFailed(anyhow::Error),
    /// The event does not answer what the registry last asked for about these
    /// bytes; the registration in progress is dropped.
    UnexpectedEvent,
}

/// What a registration step asks for next.
pub enum RegistrationAction {
    /// Check the component's `wasmsign2` signature, then send `SignatureChecked`.
    VerifySignature,
    /// Create this directory, then send `CacheDirCreated`.
    CreateCacheDir(String),
    /// The registration is over: the component's id, or why it failed.
    Finished(Result<String, RegistrationError>),
}

/// Where a registration in progress stands: waiting for the signature check
/// or for the cache directory of the component with this id.
enum RegistrationStage {
    Idle,
    AwaitingSignature(String),
    AwaitingCacheDir(String),
}

/// What the registry waits for: nothing, the signature check of the component
/// with this id, or its cache directory.
pub ghost enum Pending {
    Nothing,
    Signature(Seq<char>),
    CacheDir(Seq<char>),
}

/// Compiled verifier components, each under the id of its bytes' SHA-256
/// digest, with the engine that compiles them, the configuration, and the
/// stage of a registration in progress.
pub struct ComponentRegistry {
    verifier: Arc<WasmVerificationComponent>,
    entries: Vec<RegistryEntry>,
    config: ComponentRegistryConfig,
    stage: RegistrationStage,
}

/// The step leaves the components, the configuration and the engine as they were.
pub open spec fn registry_unchanged(before: ComponentRegistry, after: ComponentRegistry) -> bool {
    &&& after.components() == before.components()
    &&& after.config_view() == before.config_view()
    &&& after.verifier_view() == before.verifier_view()
}

/// The cache directory that a component with these bytes gets under `config`.
pub open spec fn component_cache_dir(config: ComponentRegistryConfig, bytes: Seq<u8>) -> Seq<char> {
    path_join(config.component_cache_base_dir@, component_id_of_bytes(bytes))
}

/// The step ends the registration in progress.
pub open spec fn ends_registration(after: ComponentRegistry) -> bool {
    after.pending() == Pending::Nothing
}

/// The lookup that follows a passed (or skipped) signature check: a registered
/// component's id is returned at once; otherwise its cache directory is asked for.
pub open spec fn lookup_step(
    before: ComponentRegistry,
    after: ComponentRegistry,
    bytes: Seq<u8>,
    action: RegistrationAction,
) -> bool {
    let id = component_id_of_bytes(bytes);
    &&& registry_unchanged(before, after)
    &&& if before.components().dom().contains(id) {
        &&& action matches RegistrationAction::Finished(Ok(s)) && s@ == id
        &&& ends_registration(after)
    } else {
        &&& action matches RegistrationAction::CreateCacheDir(dir) && dir@ == component_cache_dir(
            before.config_view(),
            bytes,
        )
        &&& after.pending() == Pending::CacheDir(id)
    }
}

/// The component was compiled and added under its id, with its cache directory.
pub open spec fn component_added(
    before: ComponentRegistry,
    after: ComponentRegistry,
    bytes: Seq<u8>,
) -> bool {
    let id = component_id_of_bytes(bytes);
    &&& after.components() == before.components().insert(id, after.components()[id])
    &&& after.components()[id].cache_dir@ == component_cache_dir(before.config_view(), bytes)
    &&& after.components()[id].component.source() == bytes
    &&& after.config_view() == before.config_view()
    &&& after.verifier_view() == before.verifier_view()
}

/// The step fails with `error` and changes nothing but ending the registration.
pub open spec fn step_fails(
    before: ComponentRegistry,
    after: ComponentRegistry,
    action: RegistrationAction,
    error: RegistrationError,
) -> bool {
    &&& registry_unchanged(before, after)
    &&& ends_registration(after)
    &&& action == RegistrationAction::Finished(Err(error))
}

/// One step of registering the component with bytes `bytes`, from `before` to
/// `after`, on `event`, answered by `action`. A signature check is answered
/// only while it is awaited, and a cache directory only while it is awaited,
/// so a component is compiled and added only after the signature check that
/// the configuration asks for has passed.
pub open spec fn registration_step(
    before: ComponentRegistry,
    after: ComponentRegistry,
    bytes: Seq<u8>,
    event: RegistrationEvent,
    action: RegistrationAction,
) -> bool {
    let id = component_id_of_bytes(bytes);
    match event {
        RegistrationEvent::Requested => if before.config_view().verify_component_signature {
            &&& registry_unchanged(before, after)
            &&& after.pending() == Pending::Signature(id)
            &&& action is VerifySignature
        } else {
            lookup_step(before, after, bytes, action)
        },
        RegistrationEvent::SignatureChecked(outcome) => if before.pending() != Pending::Signature(
            id,
        ) {
            step_fails(before, after, action, RegistrationError::UnexpectedEvent)
        } else {
            match outcome {
                Ok(_) => lookup_step(before, after, bytes, action),
                Err(why) => step_fails(
                    before,
                    after,
                    action,
                    RegistrationError::SignatureRejected(why),
                ),
            }
        },
        RegistrationEvent::CacheDirCreated(outcome) => if before.pending() != Pending::CacheDir(
            id,
        ) {
            step_fails(before, after, action, RegistrationError::UnexpectedEvent)
        } else {
            match outcome {
                Err(why) => step_fails(
                    before,
                    after,
                    action,
                    RegistrationError::CacheDirUnavailable(why),
                ),
                Ok(_) => {
                    &&& ends_registration(after)
                    &&& if before.components().dom().contains(id) {
                        registry_unchanged(before, after) && (action matches RegistrationAction::Finished(
                            Ok(s),
                        ) && s@ == id)
                    } else {
                        ||| registry_unchanged(before, after) && (action matches RegistrationAction::Finished(
                            Err(RegistrationError::LoadFailed(e)),
                        ) && failed_binary(e) == bytes)
                        ||| has_component_header(bytes) && component_added(before, after, bytes) && (
                        action matches RegistrationAction::Finished(Ok(s)) && s@ == id)
                    }
                },
            }
        },
    }
}

impl ComponentRegistry {
    /// The registered components, from their ids.
    pub closed spec fn components(&self) -> Map<Seq<char>, RegisteredComponent> {
        entries_map(self.entries@)
    }

    /// What the registry waits for in a registration in progress.
    pub closed spec fn pending(&self) -> Pending {
        match self.stage {
            RegistrationStage::Idle => Pending::Nothing,
            RegistrationStage::AwaitingSignature(id) => Pending::Signature(id@),
            RegistrationStage::AwaitingCacheDir(id) => Pending::CacheDir(id@),
        }
    }

    /// The registry's configuration.
    pub closed spec fn config_view(&self) -> ComponentRegistryConfig {
        self.config
    }

    /// The engine that compiles components.
    pub closed spec fn verifier_view(&self) -> WasmVerificationComponent {
        *self.verifier
    }

    /// Every entry sits under the id of the bytes it was compiled from, and no
    /// id occurs twice.
    #[verifier::type_invariant]
    pub closed spec fn wf(&self) -> bool {
        &&& forall|i: int|
            0 <= i < self.entries@.len() ==> #[trigger] self.entries@[i].id@ == component_id_of_bytes(
                self.entries@[i].registered.component.source(),
            )
        &&& ids_distinct(self.entries@)
    }

    /// Every registered component sits under the id of the bytes it was
    /// compiled from.
    pub proof fn lemma_ids_name_sources(&self)
        requires
            self.wf(),
        ensures
            forall|id: Seq<char>| #[trigger]
                self.components().dom().contains(id) ==> id == component_id_of_bytes(
                    self.components()[id].component.source(),
                ),
    {
        lemma_entries_map(self.entries@);
        assert forall|id: Seq<char>| #[trigger]
            self.components().dom().contains(id) implies id == component_id_of_bytes(
            self.components()[id].component.source(),
        ) by {
            let i = choose|i: int| 0 <= i < self.entries@.len() && #[trigger] self.entries@[i].id@ == id;
            assert(self.entries@[i].id@ == component_id_of_bytes(
                self.entries@[i].registered.component.source(),
            ));
        }
    }

    /// An empty registry with its own engine; fails only if the engine cannot
    /// be built.
    pub fn new(config: ComponentRegistryConfig) -> (registry: Result<Self, anyhow::Error>)
        ensures
            registry matches Ok(r) ==> {
                &&& r.wf()
                &&& r.components() == Map::<Seq<char>, RegisteredComponent>::empty()
                &&& r.config_view() == config
                &&& r.pending() == Pending::Nothing
                &&& engine_component_model(r.verifier_view().engine_view())
            },
            registry matches Err(e) ==> component_model_on(failed_config(e)),
    {
        match WasmVerificationComponent::new() {
            Ok(verifier) => {
                let registry = ComponentRegistry {
                    verifier: Arc::new(verifier),
                    entries: Vec::new(),
                    config,
                    stage: RegistrationStage::Idle,
                };
                assert(registry.components() =~= Map::empty());
                Ok(registry)
            },
            Err(e) => Err(e),
        }
    }

    /// Replaces the configuration; the registered components stay, and a
    /// registration in progress is dropped.
    pub fn configure(&mut self, config: ComponentRegistryConfig)
        ensures
            final(self).wf(),
            final(self).components() == old(self).components(),
            final(self).config_view() == config,
            final(self).verifier_view() == old(self).verifier_view(),
            final(self).pending() == Pending::Nothing,
    {
        proof {
            use_type_invariant(&*self);
        }
        self.config = config;
        self.stage = RegistrationStage::Idle;
        proof {
            use_type_invariant(&*self);
        }
    }

    /// The configuration.
    pub fn config(&self) -> (config: &ComponentRegistryConfig)
        ensures
            *config == self.config_view(),
    {
        &self.config
    }

    /// The engine that compiles components, shared.
    pub fn shared_verifier(&self) -> (verifier: Arc<WasmVerificationComponent>)
        ensures
            *verifier == self.verifier_view(),
    {
        share(&self.verifier)
    }

    fn find(&self, id: &String) -> (index: Option<usize>)
        ensures
            index matches Some(i) ==> i < self.entries@.len() && self.entries@[i as int].id@ == id@,
            index is None ==> forall|i: int|
                0 <= i < self.entries@.len() ==> #[trigger] self.entries@[i].id@ != id@,
    {
        let mut i: usize = 0;
        while i < self.entries.len()
            invariant
                i <= self.entries@.len(),
                forall|j: int| 0 <= j < i ==> #[trigger] self.entries@[j].id@ != id@,
            decreases self.entries@.len() - i,
        {
            if self.entries[i].id == *id {
                return Some(i);
            }
            i = i + 1;
        }
        None
    }

    /// The component registered under `component_id`, if any.
    pub fn get_component(&self, component_id: &str) -> (found: Option<RegisteredComponent>)
        ensures
            found is Some <==> self.components().dom().contains(component_id@),
            found matches Some(c) ==> c == self.components()[component_id@],
    {
        proof {
            use_type_invariant(self);
            lemma_entries_map(self.entries@);
        }
        let key = String::from_str(component_id);
        match self.find(&key) {
            Some(i) => Some(self.entries[i].registered.clone()),
            None => None,
        }
    }

    /// Whether the registry waits for the signature check of the component `id`.
    fn awaits_signature(&self, id: &String) -> (awaits: bool)
        ensures
            awaits == (self.pending() == Pending::Signature(id@)),
    {
        match &self.stage {
            RegistrationStage::AwaitingSignature(pending) => *pending == *id,
            _ => false,
        }
    }

    /// Whether the registry waits for the cache directory of the component `id`.
    fn awaits_cache_dir(&self, id: &String) -> (awaits: bool)
        ensures
            awaits == (self.pending() == Pending::CacheDir(id@)),
    {
        match &self.stage {
            RegistrationStage::AwaitingCacheDir(pending) => *pending == *id,
            _ => false,
        }
    }

    /// The lookup after a passed or skipped signature check.
    fn lookup(&mut self, component_bytes: &[u8], id: String) -> (action: RegistrationAction)
        requires
            old(self).wf(),
            id@ == component_id_of_bytes(component_bytes@),
        ensures
            final(self).wf(),
            lookup_step(*old(self), *final(self), component_bytes@, action),
    {
        proof {
            lemma_entries_map(self.entries@);
        }
        if self.find(&id).is_some() {
            self.stage = RegistrationStage::Idle;
            return RegistrationAction::Finished(Ok(id));
        }
        let cache_dir = join_path(self.config.component_cache_base_dir.as_str(), id.as_str());
        self.stage = RegistrationStage::AwaitingCacheDir(id);
        RegistrationAction::CreateCacheDir(cache_dir)
    }

    /// One step of registering a component. A registration starts with
    /// `Requested`; each `VerifySignature` or `CreateCacheDir` is answered with
    /// the matching event, until `Finished`. An event that answers nothing the
    /// registry asked for ends the registration with `UnexpectedEvent`.
    /// Components are found again by the SHA-256 digest of their bytes, so
    /// registering the same bytes twice gives the same id.
    pub fn register_component(&mut self, component_bytes: &[u8], event: RegistrationEvent) -> (action:
        RegistrationAction)
        ensures
            final(self).wf(),
            registration_step(*old(self), *final(self), component_bytes@, event, action),
    {
        proof {
            use_type_invariant(&*self);
            lemma_entries_map(self.entries@);
        }
        let hash = hash_component(component_bytes);
        let id = component_id_from_hash(&hash);
        match event {
            RegistrationEvent::Requested => {
                if self.config.verify_component_signature {
                    self.stage = RegistrationStage::AwaitingSignature(id);
                    return RegistrationAction::VerifySignature;
                }
                self.lookup(component_bytes, id)
            },
            RegistrationEvent::SignatureChecked(outcome) => {
                if !self.awaits_signature(&id) {
                    self.stage = RegistrationStage::Idle;
                    return RegistrationAction::Finished(Err(RegistrationError::UnexpectedEvent));
                }
                match outcome {
                    Err(why) => {
                        self.stage = RegistrationStage::Idle;
                        RegistrationAction::Finished(Err(RegistrationError::SignatureRejected(why)))
                    },
                    Ok(()) => self.lookup(component_bytes, id),
                }
            },
            RegistrationEvent::CacheDirCreated(outcome) => {
                if !self.awaits_cache_dir(&id) {
                    self.stage = RegistrationStage::Idle;
                    return RegistrationAction::Finished(Err(RegistrationError::UnexpectedEvent));
                }
                self.stage = RegistrationStage::Idle;
                if let Err(why) = outcome {
                    return RegistrationAction::Finished(
                        Err(RegistrationError::CacheDirUnavailable(why)),
                    );
                }
                if self.find(&id).is_some() {
                    return RegistrationAction::Finished(Ok(id));
                }
                let cache_dir = join_path(self.config.component_cache_base_dir.as_str(), id.as_str());
                match self.verifier.load_component(component_bytes) {
                    Err(e) => RegistrationAction::Finished(Err(RegistrationError::LoadFailed(e))),
                    Ok(loaded) => {
                        let ghost before = self.entries@;
                        let entry = RegistryEntry {
                            id: id.clone(),
                            registered: RegisteredComponent { component: Arc::new(loaded), cache_dir },
                        };
                        let mut entries = Vec::new();
                        std::mem::swap(&mut entries, &mut self.entries);
                        entries.push(entry);
                        proof {
                            assert(entries@.drop_last() =~= before);
                            assert(ids_distinct(entries@));
                            lemma_entries_map(entries@);
                        }
                        std::mem::swap(&mut entries, &mut self.entries);
                        RegistrationAction::Finished(Ok(id))
                    },
                }
            },
        }
    }
}

} // verus!
