use std::sync::Arc;
use vstd::prelude::*;
use vstd::slice::slice_to_vec;

use crate::config::{ComponentRegistryConfig, VerifyOptions};
use crate::engine::{component_model_on, engine_component_model, failed_config, LoadedWasmComponent, WasmVerificationComponent};
use crate::json::{json_model_bytes, json_value_model, value_to_vec};
use crate::registry::{registration_step, ComponentRegistry, RegistrationAction, RegistrationEvent};

verus! {

/// The report data the evidence is expected to bind, if any.
pub enum ReportData {
    Value(Vec<u8>),
    NotProvided,
}

/// The init-data hash the evidence is expected to bind, if any.
pub enum InitDataHash {
    Value(Vec<u8>),
    NotProvided,
}

/// The bytes a `ReportData` carries.
pub open spec fn report_data_bytes(data: ReportData) -> Option<Seq<u8>> {
    match data {
        ReportData::Value(bytes) => Some(bytes@),
        ReportData::NotProvided => None,
    }
}

/// The bytes an `InitDataHash` carries.
pub open spec fn init_data_hash_bytes(hash: InitDataHash) -> Option<Seq<u8>> {
    match hash {
        InitDataHash::Value(bytes) => Some(bytes@),
        InitDataHash::NotProvided => None,
    }
}

/// The view of optional bytes.
pub open spec fn optional_bytes(bytes: Option<Vec<u8>>) -> Option<Seq<u8>> {
    match bytes {
        Some(b) => Some(b@),
        None => None,
    }
}

/// Evidence addressed to a registered verifier component: its id, the
/// evidence the component is given, an optional PCCS URL, and the claim class
/// to report.
pub struct WasmVerificationComponentEvidence {
    pub component_id: String,
    pub evidence: serde_json::Value,
    pub pccs_url: Option<String>,
    pub tee_class: String,
}

/// Everything one run of a verifier component needs.
pub struct EvaluationPlan {
    pub verifier: Arc<WasmVerificationComponent>,
    pub component: Arc<LoadedWasmComponent>,
    pub evidence: Vec<u8>,
    pub options: VerifyOptions,
    pub expected_report_data: Option<Vec<u8>>,
    pub expected_init_data_hash: Option<Vec<u8>>,
    pub tee_class: String,
}

/// Why evidence cannot be evaluated.
pub enum EvaluationError {
    /// The nested evidence could not be written as JSON; writing a JSON value
    /// never fails, so this does not occur.
    SerializeEvidence(serde_json::Error),
    /// No component is registered under this id.
    ComponentNotRegistered(String),
}

/// Verifies evidence with verifier components taken from its registry.
pub struct WasmVerificationComponentDriver {
    registry: ComponentRegistry,
}

impl WasmVerificationComponentDriver {
    /// The driver's registry.
    pub closed spec fn registry_view(&self) -> ComponentRegistry {
        self.registry
    }

    /// A driver with an empty registry under the default configuration; fails
    /// only if no engine can be built.
    pub fn new() -> (driver: Result<Self, anyhow::Error>)
        ensures
            driver matches Ok(d) ==> {
                &&& d.registry_view().wf()
                &&& d.registry_view().components() == Map::<
                    Seq<char>,
                    crate::registry::RegisteredComponent,
                >::empty()
                &&& !d.registry_view().config_view().verify_component_signature
                &&& d.registry_view().config_view().component_cache_base_dir@
                    == crate::config::default_component_cache_base_dir_spec()
                &&& d.registry_view().pending() == crate::registry::Pending::Nothing
                &&& engine_component_model(d.registry_view().verifier_view().engine_view())
            },
            driver matches Err(e) ==> component_model_on(failed_config(e)),
    {
        match ComponentRegistry::new(ComponentRegistryConfig::default()) {
            Ok(registry) => Ok(WasmVerificationComponentDriver { registry }),
            Err(e) => Err(e),
        }
    }

    /// The driver's registry.
    pub fn registry(&self) -> (registry: &ComponentRegistry)
        ensures
            *registry == self.registry_view(),
    {
        &self.registry
    }

    /// Prepares the run of the component that `wrapped` names: the evidence as
    /// JSON bytes, the component and its cache directory, the PCCS URL, the
    /// expected data and the claim class. Fails exactly when the id is not
    /// registered.
    pub fn plan_evaluation(
        &self,
        wrapped: WasmVerificationComponentEvidence,
        expected_report_data: &ReportData,
        expected_init_data_hash: &InitDataHash,
    ) -> (plan: Result<EvaluationPlan, EvaluationError>)
        ensures
            ({
                let components = self.registry_view().components();
                let id = wrapped.component_id@;
                &&& plan is Ok <==> components.dom().contains(id)
                &&& !(plan matches Err(EvaluationError::SerializeEvidence(_)))
                &&& plan matches Err(EvaluationError::ComponentNotRegistered(missing)) ==> missing@
                    == id
                &&& plan matches Ok(p) ==> {
                    &&& p.evidence@ == json_model_bytes(json_value_model(wrapped.evidence))
                    &&& *p.verifier == self.registry_view().verifier_view()
                    &&& p.component == components[id].component
                    &&& p.options.cache_dir == components[id].cache_dir
                    &&& p.options.pccs_url == wrapped.pccs_url
                    &&& optional_bytes(p.expected_report_data) == report_data_bytes(
                        *expected_report_data,
                    )
                    &&& (*expected_report_data matches ReportData::Value(given) ==> (
                    p.expected_report_data matches Some(planned) && planned@ == given@))
                    &&& (*expected_init_data_hash matches InitDataHash::Value(given) ==> (
                    p.expected_init_data_hash matches Some(planned) && planned@ == given@))
                    &&& optional_bytes(p.expected_init_data_hash) == init_data_hash_bytes(
                        *expected_init_data_hash,
                    )
                    &&& p.tee_class == wrapped.tee_class
                }
            }),
    {
        proof {
            use_type_invariant(&self.registry);
        }
        let evidence = match value_to_vec(&wrapped.evidence) {
            Ok(bytes) => bytes,
            Err(e) => return Err(EvaluationError::SerializeEvidence(e)),
        };
        let registered = match self.registry.get_component(wrapped.component_id.as_str()) {
            Some(registered) => registered,
            None => return Err(EvaluationError::ComponentNotRegistered(wrapped.component_id)),
        };
        let expected_report_data = match expected_report_data {
            ReportData::Value(data) => Some(slice_to_vec(data.as_slice())),
            ReportData::NotProvided => None,
        };
        let expected_init_data_hash = match expected_init_data_hash {
            InitDataHash::Value(data) => Some(slice_to_vec(data.as_slice())),
            InitDataHash::NotProvided => None,
        };
        Ok(EvaluationPlan {
            verifier: self.registry.shared_verifier(),
            component: registered.component,
            evidence,
            options: VerifyOptions { cache_dir: registered.cache_dir, pccs_url: wrapped.pccs_url },
            expected_report_data,
            expected_init_data_hash,
            tee_class: wrapped.tee_class,
        })
    }
}

/// Replaces the configuration of the driver's registry; registered components stay.
pub fn configure_component_registry(
    driver: &mut WasmVerificationComponentDriver,
    config: ComponentRegistryConfig,
)
    ensures
        final(driver).registry_view().wf(),
        final(driver).registry_view().components() == old(driver).registry_view().components(),
        final(driver).registry_view().config_view() == config,
        final(driver).registry_view().verifier_view() == old(driver).registry_view().verifier_view(),
        final(driver).registry_view().pending() == crate::registry::Pending::Nothing,
{
    driver.registry.configure(config);
}

/// One step of registering a component with the driver's registry (see
/// `ComponentRegistry::register_component`).
pub fn register_component(
    driver: &mut WasmVerificationComponentDriver,
    component_bytes: &[u8],
    event: RegistrationEvent,
) -> (action: RegistrationAction)
    ensures
        final(driver).registry_view().wf(),
        registration_step(
            old(driver).registry_view(),
            final(driver).registry_view(),
            component_bytes@,
            event,
            action,
        ),
{
    driver.registry.register_component(component_bytes, event)
}

} // verus!
