use vstd::prelude::*;

use crate::component_id::{
    component_id_of, component_id_of_bytes, component_id_prefix, hex_lower,
    lemma_component_id_injective, lemma_hex_lower_len, sha256,
};
use crate::config::{path_join, ComponentRegistryConfig};
use crate::driver::{
    init_data_hash_bytes, optional_bytes, report_data_bytes, InitDataHash, ReportData,
};
use crate::evidence::{has_error_field, pccs_url_attached, with_pccs_url};
use crate::json::{integer_numbers, json_slice_model, JsonModel};
use crate::registry::{
    registration_step, registry_unchanged, ComponentRegistry, Pending, RegistrationAction,
    RegistrationError, RegistrationEvent,
};

verus! {

/// A component id is `component-` followed by two hex digits per digest byte:
/// 74 characters for a SHA-256 digest.
pub proof fn law_component_id_shape(hash: Seq<u8>)
    ensures
        component_id_of(hash).len() == 10 + 2 * hash.len(),
        component_id_of(hash).subrange(0, 10) == component_id_prefix(),
        component_id_of(hash).subrange(10, component_id_of(hash).len() as int) == hex_lower(hash),
{
    lemma_hex_lower_len(hash);
    assert(component_id_of(hash).subrange(0, 10) =~= component_id_prefix());
    assert(component_id_of(hash).subrange(10, component_id_of(hash).len() as int) =~= hex_lower(
        hash,
    ));
}

/// Two components share an id only when their bytes have the same digest.
pub proof fn law_same_id_same_digest(a: Seq<u8>, b: Seq<u8>)
    requires
        component_id_of_bytes(a) == component_id_of_bytes(b),
    ensures
        sha256(a) == sha256(b),
{
    lemma_component_id_injective(sha256(a), sha256(b));
}

/// A registration step never drops or alters a component that was registered.
pub proof fn law_registration_keeps_components(
    before: ComponentRegistry,
    after: ComponentRegistry,
    bytes: Seq<u8>,
    event: RegistrationEvent,
    action: RegistrationAction,
)
    requires
        before.wf(),
        registration_step(before, after, bytes, event, action),
    ensures
        forall|id: Seq<char>| #[trigger]
            before.components().dom().contains(id) ==> after.components().dom().contains(id)
                && after.components()[id] == before.components()[id],
{
}

/// A registration step that asks for outside work, or that fails, leaves the
/// registry as it was.
pub proof fn law_unfinished_or_failed_step_changes_nothing(
    before: ComponentRegistry,
    after: ComponentRegistry,
    bytes: Seq<u8>,
    event: RegistrationEvent,
    action: RegistrationAction,
)
    requires
        registration_step(before, after, bytes, event, action),
        !(action matches RegistrationAction::Finished(Ok(_))),
    ensures
        registry_unchanged(before, after),
{
}

/// A registration that succeeds answers with the id of the component's bytes,
/// and the registry then holds a component under that id whose bytes have the
/// same digest.
pub proof fn law_registered_component_is_found(
    before: ComponentRegistry,
    after: ComponentRegistry,
    bytes: Seq<u8>,
    event: RegistrationEvent,
    action: RegistrationAction,
)
    requires
        before.wf(),
        after.wf(),
        registration_step(before, after, bytes, event, action),
        action is Finished,
        action->Finished_0 is Ok,
    ensures
        action->Finished_0->Ok_0@ == component_id_of_bytes(bytes),
        after.components().dom().contains(component_id_of_bytes(bytes)),
        sha256(after.components()[component_id_of_bytes(bytes)].component.source()) == sha256(bytes),
{
    let id = component_id_of_bytes(bytes);
    after.lemma_ids_name_sources();
    assert(after.components().dom().contains(id));
    law_same_id_same_digest(after.components()[id].component.source(), bytes);
}

/// Registering bytes whose digest is already registered answers with the same
/// id and changes no component, once the signature check (if any) passed.
pub proof fn law_registration_is_idempotent(
    before: ComponentRegistry,
    after: ComponentRegistry,
    bytes: Seq<u8>,
    event: RegistrationEvent,
    action: RegistrationAction,
)
    requires
        before.wf(),
        before.components().dom().contains(component_id_of_bytes(bytes)),
        registration_step(before, after, bytes, event, action),
        match event {
            RegistrationEvent::Requested => !before.config_view().verify_component_signature,
            RegistrationEvent::SignatureChecked(outcome) => outcome is Ok && before.pending()
                == Pending::Signature(component_id_of_bytes(bytes)),
            RegistrationEvent::CacheDirCreated(outcome) => outcome is Ok && before.pending()
                == Pending::CacheDir(component_id_of_bytes(bytes)),
        },
    ensures
        registry_unchanged(before, after),
        action matches RegistrationAction::Finished(Ok(id)) && id@ == component_id_of_bytes(bytes),
{
}

/// Registering the same bytes again after a successful registration gives
/// the same id and leaves the registry unchanged.
pub proof fn law_register_twice_same_id(
    first: ComponentRegistry,
    second: ComponentRegistry,
    third: ComponentRegistry,
    bytes: Seq<u8>,
    first_event: RegistrationEvent,
    first_action: RegistrationAction,
    second_event: RegistrationEvent,
    second_action: RegistrationAction,
)
    requires
        first.wf(),
        second.wf(),
        registration_step(first, second, bytes, first_event, first_action),
        first_action matches RegistrationAction::Finished(Ok(_)),
        registration_step(second, third, bytes, second_event, second_action),
        match second_event {
            RegistrationEvent::Requested => !second.config_view().verify_component_signature,
            RegistrationEvent::SignatureChecked(outcome) => outcome is Ok && second.pending()
                == Pending::Signature(component_id_of_bytes(bytes)),
            RegistrationEvent::CacheDirCreated(outcome) => outcome is Ok && second.pending()
                == Pending::CacheDir(component_id_of_bytes(bytes)),
        },
    ensures
        registry_unchanged(second, third),
        second_action matches RegistrationAction::Finished(Ok(id2)) && first_action matches RegistrationAction::Finished(
            Ok(id1),
        ) && id1@ == id2@,
{
    law_registered_component_is_found(first, second, bytes, first_event, first_action);
    law_registration_is_idempotent(second, third, bytes, second_event, second_action);
}

/// Attaching a second PCCS URL to evidence that already had one attached
/// gives the same bytes as attaching the second URL alone: the last URL wins.
/// With the same URL twice, the second attachment changes nothing. This holds
/// of evidence whose numbers are integers; a float can come back from
/// serde_json's reader one step off and then be written changed.
pub proof fn law_last_pccs_url_wins(
    evidence: Seq<u8>,
    first_url: Seq<char>,
    second_url: Seq<char>,
    once: Seq<u8>,
    twice: Seq<u8>,
    direct: Seq<u8>,
)
    requires
        json_slice_model(evidence) matches Some(JsonModel::Object(_)),
        integer_numbers(json_slice_model(evidence)->Some_0),
        pccs_url_attached(evidence, first_url, once),
        pccs_url_attached(once, second_url, twice),
        pccs_url_attached(evidence, second_url, direct),
    ensures
        twice == direct,
        first_url == second_url ==> twice == once,
{
    let fields = json_slice_model(evidence)->Some_0->Object_0;
    let key = "pccs_url"@;
    assert(json_slice_model(once) == Some(with_pccs_url(fields, first_url)));
    assert(fields.insert(key, JsonModel::String(first_url)).insert(key, JsonModel::String(second_url))
        =~= fields.insert(key, JsonModel::String(second_url)));
}

/// One call on a component registry, as seen by its contract.
pub ghost enum RegistryCall {
    /// A registration step for these bytes, on this event, answered by this action.
    Register { bytes: Seq<u8>, event: RegistrationEvent, action: RegistrationAction },
    /// A change of configuration.
    Configure { config: ComponentRegistryConfig },
}

/// The call `call` took the registry from `before` to `after`, as its
/// contract says.
pub open spec fn call_step(before: ComponentRegistry, after: ComponentRegistry, call: RegistryCall) -> bool {
    &&& after.wf()
    &&& match call {
        RegistryCall::Register { bytes, event, action } => registration_step(
            before,
            after,
            bytes,
            event,
            action,
        ),
        RegistryCall::Configure { config } => {
            &&& after.components() == before.components()
            &&& after.config_view() == config
            &&& after.verifier_view() == before.verifier_view()
            &&& after.pending() == Pending::Nothing
        },
    }
}

/// `states` are the successive values of a registry that started empty, and
/// `calls` the calls that led from each to the next.
pub open spec fn registry_history(states: Seq<ComponentRegistry>, calls: Seq<RegistryCall>) -> bool {
    &&& states.len() == calls.len() + 1
    &&& states[0].wf()
    &&& states[0].components() == Map::<Seq<char>, crate::registry::RegisteredComponent>::empty()
    &&& states[0].pending() == Pending::Nothing
    &&& forall|i: int| 0 <= i < calls.len() ==> call_step(states[i], states[i + 1], #[trigger] calls[i])
}

/// Whether the call `call` was a registration that answered with `id`.
pub open spec fn registered_with(call: RegistryCall, id: Seq<char>) -> bool {
    call matches RegistryCall::Register { action: RegistrationAction::Finished(Ok(s)), .. } && s@
        == id
}

/// One of the first `n` calls was a registration that answered with `id`.
pub open spec fn registered_before(calls: Seq<RegistryCall>, n: int, id: Seq<char>) -> bool {
    exists|i: int| 0 <= i < n && registered_with(#[trigger] calls[i], id)
}

proof fn lemma_call_step_ids(before: ComponentRegistry, after: ComponentRegistry, call: RegistryCall)
    requires
        before.wf(),
        call_step(before, after, call),
    ensures
        forall|id: Seq<char>|
            after.components().dom().contains(id) <==> (before.components().dom().contains(id)
                || registered_with(call, id)),
{
    match call {
        RegistryCall::Register { bytes, event, action } => {
            law_registration_keeps_components(before, after, bytes, event, action);
            if action matches RegistrationAction::Finished(Ok(s)) {
                law_registered_component_is_found(before, after, bytes, event, action);
                let idb = component_id_of_bytes(bytes);
                assert forall|id: Seq<char>| after.components().dom().contains(id) implies (
                before.components().dom().contains(id) || id == idb) by {
                    if !registry_unchanged(before, after) {
                        assert(after.components() == before.components().insert(
                            idb,
                            after.components()[idb],
                        ));
                        assert(after.components().dom() == before.components().dom().insert(idb));
                    }
                }
            } else {
                law_unfinished_or_failed_step_changes_nothing(before, after, bytes, event, action);
            }
        },
        RegistryCall::Configure { .. } => {},
    }
}

proof fn lemma_history_prefix(states: Seq<ComponentRegistry>, calls: Seq<RegistryCall>, n: int)
    requires
        registry_history(states, calls),
        0 <= n <= calls.len(),
    ensures
        states[n].wf(),
        forall|id: Seq<char>|
            states[n].components().dom().contains(id) <==> registered_before(calls, n, id),
    decreases n,
{
    if n > 0 {
        lemma_history_prefix(states, calls, n - 1);
        assert(call_step(states[n - 1], states[n], calls[n - 1]));
        lemma_call_step_ids(states[n - 1], states[n], calls[n - 1]);
        assert forall|id: Seq<char>|
            states[n].components().dom().contains(id) <==> registered_before(calls, n, id) by {
            if registered_before(calls, n, id) {
                let i = choose|i: int| 0 <= i < n && registered_with(#[trigger] calls[i], id);
                if i < n - 1 {
                    assert(registered_before(calls, n - 1, id));
                }
            }
            if registered_before(calls, n - 1, id) {
                let i = choose|i: int| 0 <= i < n - 1 && registered_with(#[trigger] calls[i], id);
                assert(registered_before(calls, n, id));
            }
            if registered_with(calls[n - 1], id) {
                assert(registered_before(calls, n, id));
            }
        }
    } else {
        assert forall|id: Seq<char>|
            states[0].components().dom().contains(id) <==> registered_before(calls, 0, id) by {}
    }
}

/// Over any history of registrations and configuration changes from an empty
/// registry, a component is registered under `id` exactly when some earlier
/// registration answered with `id`; a registration that answers with an id
/// answers with the id of its bytes. Calls that failed or asked for outside
/// work added nothing.
pub proof fn law_registered_exactly_when_registration_succeeded(
    states: Seq<ComponentRegistry>,
    calls: Seq<RegistryCall>,
)
    requires
        registry_history(states, calls),
    ensures
        forall|id: Seq<char>|
            states.last().components().dom().contains(id) <==> registered_before(
                calls,
                calls.len() as int,
                id,
            ),
        forall|i: int|
            0 <= i < calls.len() ==> (#[trigger] calls[i] matches RegistryCall::Register {
                bytes,
                action: RegistrationAction::Finished(Ok(s)),
                ..
            } ==> s@ == component_id_of_bytes(bytes)),
{
    lemma_history_prefix(states, calls, calls.len() as int);
    assert forall|i: int|
        0 <= i < calls.len() implies (#[trigger] calls[i] matches RegistryCall::Register {
        bytes,
        action: RegistrationAction::Finished(Ok(s)),
        ..
    } ==> s@ == component_id_of_bytes(bytes)) by {
        lemma_history_prefix(states, calls, i);
        assert(call_step(states[i], states[i + 1], calls[i]));
        if let RegistryCall::Register { bytes, event, action } = calls[i] {
            if action matches RegistrationAction::Finished(Ok(_)) {
                law_registered_component_is_found(states[i], states[i + 1], bytes, event, action);
            }
        }
    }
}

/// The configuration a configuration call installs.
pub open spec fn configured(call: RegistryCall) -> ComponentRegistryConfig {
    match call {
        RegistryCall::Configure { config } => config,
        RegistryCall::Register { .. } => arbitrary(),
    }
}

proof fn lemma_history_wf(states: Seq<ComponentRegistry>, calls: Seq<RegistryCall>, i: int)
    requires
        registry_history(states, calls),
        0 <= i <= calls.len(),
    ensures
        states[i].wf(),
{
    if i > 0 {
        assert(call_step(states[i - 1], states[i], calls[i - 1]));
    }
}

/// With signature checks required, a component enters the registry only on a
/// created cache directory that answered a passed signature check of the same
/// component, which in turn answered a request to register it: no
/// component is added without its check.
pub proof fn law_signature_checked_before_added(
    states: Seq<ComponentRegistry>,
    calls: Seq<RegistryCall>,
    i: int,
    id: Seq<char>,
)
    requires
        registry_history(states, calls),
        0 <= i < calls.len(),
        !states[i].components().dom().contains(id),
        states[i + 1].components().dom().contains(id),
        states[i].config_view().verify_component_signature,
    ensures
        calls[i] matches RegistryCall::Register { bytes, event: RegistrationEvent::CacheDirCreated(
            Ok(_),
        ), .. } && component_id_of_bytes(bytes) == id,
        i >= 2,
        calls[i - 1] matches RegistryCall::Register {
            bytes,
            event: RegistrationEvent::SignatureChecked(Ok(_)),
            action: RegistrationAction::CreateCacheDir(_),
        } && component_id_of_bytes(bytes) == id,
        calls[i - 2] matches RegistryCall::Register {
            bytes,
            event: RegistrationEvent::Requested,
            action: RegistrationAction::VerifySignature,
        } && component_id_of_bytes(bytes) == id,
{
    assert(call_step(states[i], states[i + 1], calls[i]));
    lemma_history_wf(states, calls, i);
    assert(states[i].pending() == Pending::CacheDir(id));
    assert(i >= 1);
    assert(call_step(states[i - 1], states[i], calls[i - 1]));
    lemma_history_wf(states, calls, i - 1);
    assert(states[i - 1].config_view() == states[i].config_view());
    assert(states[i - 1].pending() == Pending::Signature(id));
    assert(i >= 2);
    assert(call_step(states[i - 2], states[i - 1], calls[i - 2]));
}

proof fn lemma_configuration_holds(
    states: Seq<ComponentRegistry>,
    calls: Seq<RegistryCall>,
    k: int,
    i: int,
)
    requires
        registry_history(states, calls),
        0 <= k < i <= calls.len(),
        calls[k] is Configure,
        forall|j: int| k < j < calls.len() ==> !(#[trigger] calls[j] is Configure),
    ensures
        states[i].config_view() == configured(calls[k]),
        forall|id: Seq<char>| #[trigger]
            states[k].components().dom().contains(id) ==> states[i].components().dom().contains(id)
                && states[i].components()[id] == states[k].components()[id],
    decreases i - k,
{
    assert(call_step(states[i - 1], states[i], calls[i - 1]));
    lemma_history_wf(states, calls, i - 1);
    if i - 1 > k {
        lemma_configuration_holds(states, calls, k, i - 1);
        if let RegistryCall::Register { bytes, event, action } = calls[i - 1] {
            law_registration_keeps_components(states[i - 1], states[i], bytes, event, action);
        }
    }
}

/// After a configuration call, as long as no other configuration call
/// follows: the registry keeps that configuration; every registration that
/// starts asks for the signature check exactly when the configuration
/// requires it; every cache directory asked for, and every component added,
/// lies under the configured base directory; and the components registered
/// before stay as they were.
pub proof fn law_configuration_persists(
    states: Seq<ComponentRegistry>,
    calls: Seq<RegistryCall>,
    k: int,
)
    requires
        registry_history(states, calls),
        0 <= k < calls.len(),
        calls[k] is Configure,
        forall|j: int| k < j < calls.len() ==> !(#[trigger] calls[j] is Configure),
    ensures
        forall|i: int| k < i <= calls.len() ==> #[trigger] states[i].config_view() == configured(
            calls[k],
        ),
        forall|i: int|
            k < i < calls.len() ==> (#[trigger] calls[i] matches RegistryCall::Register {
                event: RegistrationEvent::Requested,
                action,
                ..
            } ==> (action is VerifySignature <==> configured(
                calls[k],
            ).verify_component_signature)),
        forall|i: int|
            k < i < calls.len() ==> (#[trigger] calls[i] matches RegistryCall::Register {
                bytes,
                action: RegistrationAction::CreateCacheDir(dir),
                ..
            } ==> dir@ == path_join(
                configured(calls[k]).component_cache_base_dir@,
                component_id_of_bytes(bytes),
            )),
        forall|i: int, id: Seq<char>|
            k < i < calls.len() && !states[i].components().dom().contains(id) && #[trigger] states[i
                + 1].components().dom().contains(id) ==> states[i + 1].components()[id].cache_dir@
                == path_join(configured(calls[k]).component_cache_base_dir@, id),
        forall|id: Seq<char>| #[trigger]
            states[k].components().dom().contains(id) ==> states.last().components().dom().contains(
                id,
            ) && states.last().components()[id] == states[k].components()[id],
{
    let config = configured(calls[k]);
    assert forall|i: int| k < i <= calls.len() implies #[trigger] states[i].config_view()
        == config by {
        lemma_configuration_holds(states, calls, k, i);
    }
    assert forall|i: int|
        k < i < calls.len() implies (#[trigger] calls[i] matches RegistryCall::Register {
        event: RegistrationEvent::Requested,
        action,
        ..
    } ==> (action is VerifySignature <==> config.verify_component_signature)) by {
        lemma_configuration_holds(states, calls, k, i);
        assert(call_step(states[i], states[i + 1], calls[i]));
    }
    assert forall|i: int|
        k < i < calls.len() implies (#[trigger] calls[i] matches RegistryCall::Register {
        bytes,
        action: RegistrationAction::CreateCacheDir(dir),
        ..
    } ==> dir@ == path_join(config.component_cache_base_dir@, component_id_of_bytes(bytes))) by {
        lemma_configuration_holds(states, calls, k, i);
        assert(call_step(states[i], states[i + 1], calls[i]));
    }
    assert forall|i: int, id: Seq<char>|
        k < i < calls.len() && !states[i].components().dom().contains(id) && #[trigger] states[i
            + 1].components().dom().contains(id) implies states[i + 1].components()[id].cache_dir@
        == path_join(config.component_cache_base_dir@, id) by {
        lemma_configuration_holds(states, calls, k, i);
        assert(call_step(states[i], states[i + 1], calls[i]));
        lemma_history_wf(states, calls, i);
        if let RegistryCall::Register { bytes, event, action } = calls[i] {
            law_registration_keeps_components(states[i], states[i + 1], bytes, event, action);
        }
    }
    lemma_configuration_holds(states, calls, k, calls.len() as int);
}



proof fn lemma_path_join_ends_with_name(base: Seq<char>, name: Seq<char>)
    ensures
        path_join(base, name).len() >= name.len(),
        path_join(base, name).subrange(
            path_join(base, name).len() - name.len(),
            path_join(base, name).len() as int,
        ) == name,
{
    let joined = path_join(base, name);
    assert(joined.subrange(joined.len() - name.len(), joined.len() as int) =~= name);
}

/// Each component gets a cache directory of its own: components with
/// different digests (of one length) never share a directory, whatever base
/// directories they were registered under.
pub proof fn law_distinct_components_distinct_cache_dirs(
    first_base: Seq<char>,
    second_base: Seq<char>,
    first_hash: Seq<u8>,
    second_hash: Seq<u8>,
)
    requires
        first_hash.len() == second_hash.len(),
        first_hash != second_hash,
    ensures
        path_join(first_base, component_id_of(first_hash)) != path_join(
            second_base,
            component_id_of(second_hash),
        ),
{
    let first_id = component_id_of(first_hash);
    let second_id = component_id_of(second_hash);
    lemma_hex_lower_len(first_hash);
    lemma_hex_lower_len(second_hash);
    lemma_path_join_ends_with_name(first_base, first_id);
    lemma_path_join_ends_with_name(second_base, second_id);
    if path_join(first_base, first_id) == path_join(second_base, second_id) {
        assert(first_id == second_id);
        lemma_component_id_injective(first_hash, second_hash);
    }
}


/// A cache directory is the base directory, unchanged, followed by the
/// component id: with one `/` between them, unless the base already ends in
/// `/`; under an empty base it is the id alone.
pub proof fn law_cache_dir_is_base_then_id(base: Seq<char>, id: Seq<char>)
    ensures
        path_join(base, id).len() >= base.len(),
        path_join(base, id).subrange(0, base.len() as int) == base,
        base.len() > 0 && base.last() != '/' ==> path_join(base, id) == base + seq!['/'] + id,
        base.len() > 0 && base.last() == '/' ==> path_join(base, id) == base + id,
        base.len() == 0 ==> path_join(base, id) == id,
{
    let joined = path_join(base, id);
    assert(joined.subrange(0, base.len() as int) =~= base);
}

/// The cache directory a registration asks for is the configured base
/// directory, unchanged, then `/` (unless the base ends in one), then the id
/// of the component's bytes.
pub proof fn law_requested_cache_dir_is_base_then_id(
    before: ComponentRegistry,
    after: ComponentRegistry,
    bytes: Seq<u8>,
    event: RegistrationEvent,
    action: RegistrationAction,
)
    requires
        registration_step(before, after, bytes, event, action),
        action is CreateCacheDir,
    ensures
        ({
            let base = before.config_view().component_cache_base_dir@;
            let dir = action->CreateCacheDir_0@;
            let id = component_id_of_bytes(bytes);
            &&& dir.subrange(0, base.len() as int) == base
            &&& base.len() > 0 && base.last() != '/' ==> dir == base + seq!['/'] + id
            &&& base.len() > 0 && base.last() == '/' ==> dir == base + id
        }),
{
    law_cache_dir_is_base_then_id(
        before.config_view().component_cache_base_dir@,
        component_id_of_bytes(bytes),
    );
}

/// A component added by a registration is stored with the cache directory
/// made of the configured base directory, unchanged, then `/` (unless the
/// base ends in one), then its id.
pub proof fn law_added_component_cache_dir_is_base_then_id(
    before: ComponentRegistry,
    after: ComponentRegistry,
    bytes: Seq<u8>,
    event: RegistrationEvent,
    action: RegistrationAction,
)
    requires
        before.wf(),
        registration_step(before, after, bytes, event, action),
        !before.components().dom().contains(component_id_of_bytes(bytes)),
        after.components().dom().contains(component_id_of_bytes(bytes)),
    ensures
        ({
            let base = before.config_view().component_cache_base_dir@;
            let id = component_id_of_bytes(bytes);
            let dir = after.components()[id].cache_dir@;
            &&& dir.subrange(0, base.len() as int) == base
            &&& base.len() > 0 && base.last() != '/' ==> dir == base + seq!['/'] + id
            &&& base.len() > 0 && base.last() == '/' ==> dir == base + id
        }),
{
    law_cache_dir_is_base_then_id(
        before.config_view().component_cache_base_dir@,
        component_id_of_bytes(bytes),
    );
}

/// A failed signature check always fails the registration and never answers
/// with an id, whether or not the component was registered before: while the
/// check is awaited, the answer is the rejection with its reason. The
/// registered components stay as they were.
pub proof fn law_rejected_signature_fails_registration(
    before: ComponentRegistry,
    after: ComponentRegistry,
    bytes: Seq<u8>,
    why: String,
    action: RegistrationAction,
)
    requires
        registration_step(before, after, bytes, RegistrationEvent::SignatureChecked(Err(why)), action),
    ensures
        action is Finished,
        !(action->Finished_0 is Ok),
        after.components() == before.components(),
        before.pending() == Pending::Signature(component_id_of_bytes(bytes)) ==> action
            == RegistrationAction::Finished(Err(RegistrationError::SignatureRejected(why))),
{
}

/// The expected report data and init-data hash that a plan hands to the
/// component are exactly the bytes given, whatever their length, and nothing
/// when none are given.
pub proof fn law_expected_data_handed_over_whole(
    report_data: ReportData,
    planned_report_data: Option<Vec<u8>>,
    init_data_hash: InitDataHash,
    planned_init_data_hash: Option<Vec<u8>>,
)
    requires
        optional_bytes(planned_report_data) == report_data_bytes(report_data),
        optional_bytes(planned_init_data_hash) == init_data_hash_bytes(init_data_hash),
    ensures
        report_data matches ReportData::Value(given) ==> planned_report_data matches Some(planned)
            && planned@ == given@,
        report_data is NotProvided ==> planned_report_data is None,
        init_data_hash matches InitDataHash::Value(given) ==> planned_init_data_hash matches Some(
            planned,
        ) && planned@ == given@,
        init_data_hash is NotProvided ==> planned_init_data_hash is None,
{
}

/// Setting the PCCS URL gives an object whose `pccs_url` field holds the
/// URL text exactly, whatever its length, with the same other fields, each
/// holding what it held.
pub proof fn law_pccs_url_field_is_the_url(fields: Map<Seq<char>, JsonModel>, url: Seq<char>)
    ensures
        with_pccs_url(fields, url) matches JsonModel::Object(updated) && {
            &&& updated.dom() == fields.dom().insert("pccs_url"@)
            &&& updated["pccs_url"@] == JsonModel::String(url)
            &&& forall|key: Seq<char>|
                key != "pccs_url"@ && fields.dom().contains(key) ==> #[trigger] updated[key]
                    == fields[key]
        },
{
    let updated = with_pccs_url(fields, url)->Object_0;
    assert(updated.dom() =~= fields.dom().insert("pccs_url"@));
}

/// The evidence with a PCCS URL attached reads back (for evidence whose
/// numbers are integers) as an object whose `pccs_url` field is the given URL
/// text exactly, and whose other fields are those of the evidence, unchanged.
pub proof fn law_attached_evidence_carries_the_url(evidence: Seq<u8>, url: Seq<char>, out: Seq<u8>)
    requires
        json_slice_model(evidence) matches Some(JsonModel::Object(_)),
        integer_numbers(json_slice_model(evidence)->Some_0),
        pccs_url_attached(evidence, url, out),
    ensures
        json_slice_model(out) matches Some(JsonModel::Object(updated)) && {
            let fields = json_slice_model(evidence)->Some_0->Object_0;
            &&& updated.dom() == fields.dom().insert("pccs_url"@)
            &&& updated["pccs_url"@] == JsonModel::String(url)
            &&& forall|key: Seq<char>|
                key != "pccs_url"@ && fields.dom().contains(key) ==> #[trigger] updated[key]
                    == fields[key]
        },
{
    law_pccs_url_field_is_the_url(json_slice_model(evidence)->Some_0->Object_0, url);
}

/// A component answer is a failure exactly when it is a JSON object with a
/// top-level `error` key, whatever that field holds.
pub proof fn law_error_key_means_failure(answer: JsonModel)
    ensures
        has_error_field(answer) <==> (answer matches JsonModel::Object(fields) && fields.dom().contains(
            "error"@,
        )),
{
}

} // verus!
