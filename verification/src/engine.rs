use vstd::prelude::*;

verus! {

#[verifier::external_type_specification]
#[verifier::external_body]
pub struct ExEngine(wasmtime::Engine);

#[verifier::external_type_specification]
#[verifier::external_body]
pub struct ExConfig(wasmtime::Config);

#[verifier::external_type_specification]
#[verifier::external_body]
pub struct ExComponent(wasmtime::component::Component);

#[verifier::external_type_specification]
#[verifier::external_body]
pub struct ExAnyhowError(anyhow::Error);

/// `wasmtime::Config::new`: a configuration with wasmtime's defaults. Nothing
/// about the settings is stated.
#[verifier::external_body]
fn engine_config() -> (config: wasmtime::Config) {
    wasmtime::Config::new()
}

/// Whether `config` has the WebAssembly component model turned on.
pub uninterp spec fn component_model_on(config: wasmtime::Config) -> bool;

/// Whether `engine` was built with the WebAssembly component model turned on.
pub uninterp spec fn engine_component_model(engine: wasmtime::Engine) -> bool;

/// The binary that a compiled component was compiled from.
pub uninterp spec fn compiled_from(component: wasmtime::component::Component) -> Seq<u8>;

/// The binary whose compilation gave `error`.
pub uninterp spec fn failed_binary(error: anyhow::Error) -> Seq<u8>;

/// The configuration whose engine could not be built, giving `error`.
pub uninterp spec fn failed_config(error: anyhow::Error) -> wasmtime::Config;

/// `wasmtime::Config::wasm_component_model(true)`: turns on the component
/// model in `config` (it sets the `COMPONENT_MODEL` feature). What else the
/// call leaves as it was is not stated.
#[verifier::external_body]
fn enable_component_model(config: &mut wasmtime::Config)
    ensures
        component_model_on(*final(config)),
{
    config.wasm_component_model(true);
}

/// `wasmtime::Engine::new`: whether an engine can be built depends on the host
/// machine, so success is not stated; an engine that is built keeps the
/// configuration's component-model setting, and an error comes from building
/// with this configuration.
#[verifier::external_body]
fn engine_new(config: &wasmtime::Config) -> (engine: Result<wasmtime::Engine, anyhow::Error>)
    ensures
        engine matches Ok(e) ==> engine_component_model(e) == component_model_on(*config),
        engine matches Err(e) ==> failed_config(e) == *config,
{
    wasmtime::Engine::new(config)
}

/// The header every WebAssembly component binary starts with: the magic
/// bytes `\0asm`, then the component encoding's version `0x0d` and its layer `1`,
/// both little-endian.
pub open spec fn component_header() -> Seq<u8> {
    seq![0x00u8, 0x61u8, 0x73u8, 0x6du8, 0x0du8, 0x00u8, 0x01u8, 0x00u8]
}

/// Whether `binary` starts with the component header.
pub open spec fn has_component_header(binary: Seq<u8>) -> bool {
    binary.len() >= 8 && binary.subrange(0, 8) == component_header()
}

/// `wasmtime::component::Component::from_binary`: validates and compiles a
/// component from `binary`. The parser rejects anything that does not start
/// with the component header (a core module, empty input). Beyond that,
/// whether compilation succeeds is left unstated: it can fail for reasons of
/// the host (memory, code generation), not of the bytes alone. Either way,
/// what comes back was made from `binary`.
#[verifier::external_body]
fn component_from_binary(
    engine: &wasmtime::Engine,
    binary: &[u8],
) -> (component: Result<wasmtime::component::Component, anyhow::Error>)
    ensures
        component matches Ok(c) ==> compiled_from(c) == binary@,
        component matches Ok(c) ==> has_component_header(binary@),
        component matches Err(e) ==> failed_binary(e) == binary@,
{
    wasmtime::component::Component::from_binary(engine, binary)
}

/// A verifier component compiled by a [`WasmVerificationComponent`].
pub struct LoadedWasmComponent {
    component: wasmtime::component::Component,
}

impl LoadedWasmComponent {
    /// The bytes this component was compiled from.
    pub closed spec fn source(&self) -> Seq<u8> {
        compiled_from(self.component)
    }

    /// The compiled component held here.
    pub closed spec fn component_view(&self) -> wasmtime::component::Component {
        self.component
    }

    /// The compiled component, for running it.
    pub fn component(&self) -> (component: &wasmtime::component::Component)
        ensures
            *component == self.component_view(),
    {
        &self.component
    }
}

/// A wasmtime engine with the component model turned on; it compiles
/// verifier components.
pub struct WasmVerificationComponent {
    engine: wasmtime::Engine,
}

impl WasmVerificationComponent {
    /// Builds an engine with the component model turned on. Whether this
    /// succeeds depends on the host; an error is that of building such an engine.
    pub fn new() -> (verifier: Result<Self, anyhow::Error>)
        ensures
            verifier matches Ok(v) ==> engine_component_model(v.engine_view()),
            verifier matches Err(e) ==> component_model_on(failed_config(e)),
    {
        let mut config = engine_config();
        enable_component_model(&mut config);
        match engine_new(&config) {
            Ok(engine) => Ok(WasmVerificationComponent { engine }),
            Err(e) => Err(e),
        }
    }

    /// The engine held here.
    pub closed spec fn engine_view(&self) -> wasmtime::Engine {
        self.engine
    }

    /// The engine, for instantiating compiled components.
    pub fn engine(&self) -> (engine: &wasmtime::Engine)
        ensures
            *engine == self.engine_view(),
    {
        &self.engine
    }

    /// Compiles `component_bytes`; a component that comes back was compiled
    /// from exactly these bytes, and an error is that of compiling them.
    pub fn load_component(&self, component_bytes: &[u8]) -> (loaded: Result<
        LoadedWasmComponent,
        anyhow::Error,
    >)
        ensures
            loaded matches Ok(c) ==> compiled_from(c.component_view()) == component_bytes@,
            loaded matches Ok(c) ==> c.source() == component_bytes@,
            loaded matches Err(e) ==> failed_binary(e) == component_bytes@,
            !has_component_header(component_bytes@) ==> loaded is Err,
    {
        match component_from_binary(&self.engine, component_bytes) {
            Ok(component) => Ok(LoadedWasmComponent { component }),
            Err(e) => Err(e),
        }
    }
}

} // verus!
