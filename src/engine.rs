use vstd::prelude::*;
use crate::types::{Signature, SignatureView};
use crate::binary::{has_core_module, holds_core_module};
use crate::names::{names_view, same_name_set, same_names};

verus! {

#[verifier::external_type_specification]
#[verifier::external_body]
pub struct ExRuntimeEngine(wasmtime::Engine);

#[verifier::external_type_specification]
#[verifier::external_body]
pub struct ExCompiledComponent(wasmtime::component::Component);

#[verifier::external_type_specification]
#[verifier::external_body]
pub struct ExRuntimeError(wasmtime::Error);

/// Relies on wasmtime's `Config::debug_info`, `Config::wasm_component_model`
/// and `Engine::new`: builds a compilation engine with the two settings, or
/// `None` where the runtime refuses the configuration on this machine.
#[verifier::external_body]
fn build_runtime_engine(debug_info: bool, component_model: bool) -> (r: Option<wasmtime::Engine>) {
    let mut config = wasmtime::Config::new();
    config.debug_info(debug_info).wasm_component_model(component_model);
    wasmtime::Engine::new(&config).ok()
}

/// Whether the runtime, built with the given debug-info and component-model
/// settings, accepts the bytes as a component.
pub uninterp spec fn component_compiles(debug_info: bool, component_model: bool, b: Seq<u8>) -> bool;

/// The names of the top-level imports of the component that the bytes encode.
pub uninterp spec fn component_imports_of(b: Seq<u8>) -> Seq<Seq<char>>;

/// The names of the top-level exports of the component that the bytes encode.
pub uninterp spec fn component_exports_of(b: Seq<u8>) -> Seq<Seq<char>>;

/// Relies on wasmtime's `Component::from_binary`, `Component::component_type`
/// and the type's `imports` and `exports`: validates and compiles the binary
/// component with the engine's runtime, and lists the names of its
/// top-level imports and exports, or returns the runtime's error. Whether
/// it compiles depends on the engine's settings and the bytes; the names on
/// the bytes. With debug metadata on, the runtime's DWARF pass unwraps the
/// first core module of the component, so such an engine is only handed
/// components that hold one.
#[verifier::external_body]
fn compile_component(engine: &GuestEngine, bytes: &Vec<u8>) -> (r: Result<
    (wasmtime::component::Component, Vec<String>, Vec<String>),
    wasmtime::Error,
>)
    requires
        engine.config().debug_info ==> holds_core_module(bytes@),
    ensures
        r is Ok <==> component_compiles(engine.config().debug_info, engine.config().component_model, bytes@),
        r matches Ok((_, i, e)) ==> names_view(i@) == component_imports_of(bytes@) && names_view(e@)
            == component_exports_of(bytes@),
{
    let component = wasmtime::component::Component::from_binary(&engine.runtime, bytes.as_slice())?;
    let ty = component.component_type();
    let imports = ty.imports(&engine.runtime).map(|(name, _)| name.to_string()).collect();
    let exports = ty.exports(&engine.runtime).map(|(name, _)| name.to_string()).collect();
    Ok((component, imports, exports))
}

/// The immutable settings of an engine.
#[derive(Clone, Copy, Debug, PartialEq, Eq, Structural)]
pub struct EngineConfig {
    /// Keep debug metadata in compiled code.
    pub debug_info: bool,
    /// Accept artifacts of the component-model extension.
    pub component_model: bool,
}

/// Why an artifact could not be loaded.
#[derive(Debug, PartialEq, Eq)]
pub enum LoadError {
    /// The bytes are not a valid compiled component, or its interface
    /// descriptor is ill-formed.
    Malformed,
    /// The artifact needs an extension that the engine has not enabled.
    UnsupportedFeature,
    /// The artifact's source could not be read.
    Io(String),
}

/// One imported interface: its name and the operations it must provide.
pub struct ImportDecl {
    pub name: String,
    pub operations: Vec<Signature>,
}

pub struct ImportView {
    pub name: Seq<char>,
    pub operations: Seq<SignatureView>,
}

pub open spec fn sigs_view(s: Seq<Signature>) -> Seq<SignatureView> {
    s.map_values(|g: Signature| g@)
}

impl View for ImportDecl {
    type V = ImportView;

    open spec fn view(&self) -> ImportView {
        ImportView { name: self.name@, operations: sigs_view(self.operations@) }
    }
}

/// The declared interface of an artifact: imports required, exports provided.
pub struct Interface {
    pub imports: Vec<ImportDecl>,
    pub exports: Vec<Signature>,
}

pub struct InterfaceView {
    pub imports: Seq<ImportView>,
    pub exports: Seq<SignatureView>,
}

impl View for Interface {
    type V = InterfaceView;

    open spec fn view(&self) -> InterfaceView {
        InterfaceView {
            imports: self.imports@.map_values(|d: ImportDecl| d@),
            exports: sigs_view(self.exports@),
        }
    }
}

/// The names of the declared imports, in order.
pub open spec fn import_names_of(v: InterfaceView) -> Seq<Seq<char>> {
    v.imports.map_values(|d: ImportView| d.name)
}

/// The names of the declared exports, in order.
pub open spec fn export_names_of(v: InterfaceView) -> Seq<Seq<char>> {
    v.exports.map_values(|g: SignatureView| g.name)
}

/// The descriptor names exactly the imports and the exports that the
/// component has.
pub open spec fn descriptor_agrees(v: InterfaceView, imports: Seq<Seq<char>>, exports: Seq<Seq<char>>) -> bool {
    same_name_set(import_names_of(v), imports) && same_name_set(export_names_of(v), exports)
}

/// No two signatures of the list share a name.
pub open spec fn sig_names_unique(s: Seq<SignatureView>) -> bool {
    forall|i: int, j: int| 0 <= i < j < s.len() ==> #[trigger] s[i].name != #[trigger] s[j].name
}

/// No two imports share a name, no two operations of one import share a
/// name, and no two exports share a name.
pub open spec fn interface_wf(v: InterfaceView) -> bool {
    &&& forall|i: int, j: int|
        0 <= i < j < v.imports.len() ==> #[trigger] v.imports[i].name != #[trigger] v.imports[j].name
    &&& forall|i: int| 0 <= i < v.imports.len() ==> sig_names_unique(#[trigger] v.imports[i].operations)
    &&& sig_names_unique(v.exports)
}

/// The eight-byte preamble of a binary component: the wasm magic number
/// followed by the component encoding's version and layer.
pub open spec fn is_component_header(b: Seq<u8>) -> bool {
    &&& b.len() >= 8
    &&& b[0] == 0x00u8 && b[1] == 0x61u8 && b[2] == 0x73u8 && b[3] == 0x6du8
    &&& b[4] == 0x0du8 && b[5] == 0x00u8 && b[6] == 0x01u8 && b[7] == 0x00u8
}

/// Whether the bytes open with the preamble of a binary component.
pub fn has_component_header(b: &Vec<u8>) -> (r: bool)
    ensures
        r == is_component_header(b@),
{
    b.len() >= 8 && b[0] == 0x00u8 && b[1] == 0x61u8 && b[2] == 0x73u8 && b[3] == 0x6du8
        && b[4] == 0x0du8 && b[5] == 0x00u8 && b[6] == 0x01u8 && b[7] == 0x00u8
}

/// Whether no two signatures of the list share a name.
pub fn sig_names_distinct(s: &Vec<Signature>) -> (r: bool)
    ensures
        r == sig_names_unique(sigs_view(s@)),
{
    let mut i: usize = 0;
    while i < s.len()
        invariant
            i <= s@.len(),
            forall|a: int, b: int|
                0 <= a < b < s@.len() && a < i ==> #[trigger] s@[a]@.name != #[trigger] s@[b]@.name,
        decreases s@.len() - i,
    {
        let mut j: usize = i + 1;
        while j < s.len()
            invariant
                i < s@.len(),
                i + 1 <= j <= s@.len(),
                forall|a: int, b: int|
                    0 <= a < b < s@.len() && a < i ==> #[trigger] s@[a]@.name != #[trigger] s@[b]@.name,
                forall|b: int| i < b < j ==> s@[i as int]@.name != #[trigger] s@[b]@.name,
            decreases s@.len() - j,
        {
            if s[i].name == s[j].name {
                assert(sigs_view(s@)[i as int].name == sigs_view(s@)[j as int].name);
                return false;
            }
            j = j + 1;
        }
        i = i + 1;
    }
    true
}

impl Interface {
    /// The names of the declared imports, in order.
    pub fn import_names(&self) -> (r: Vec<String>)
        ensures
            names_view(r@) == import_names_of(self@),
    {
        let mut r: Vec<String> = Vec::new();
        let mut i: usize = 0;
        while i < self.imports.len()
            invariant
                i <= self.imports@.len(),
                r@.len() == i,
                forall|j: int| 0 <= j < i ==> #[trigger] r@[j]@ == self.imports@[j]@.name,
            decreases self.imports@.len() - i,
        {
            r.push(self.imports[i].name.clone());
            i = i + 1;
        }
        assert(names_view(r@) =~= import_names_of(self@));
        r
    }

    /// The names of the declared exports, in order.
    pub fn export_names(&self) -> (r: Vec<String>)
        ensures
            names_view(r@) == export_names_of(self@),
    {
        let mut r: Vec<String> = Vec::new();
        let mut i: usize = 0;
        while i < self.exports.len()
            invariant
                i <= self.exports@.len(),
                r@.len() == i,
                forall|j: int| 0 <= j < i ==> #[trigger] r@[j]@ == self.exports@[j]@.name,
            decreases self.exports@.len() - i,
        {
            r.push(self.exports[i].name.clone());
            i = i + 1;
        }
        assert(names_view(r@) =~= export_names_of(self@));
        r
    }

    /// Whether the descriptor is well-formed: names are unique among imports,
    /// among the operations of each import, and among exports.
    pub fn is_well_formed(&self) -> (r: bool)
        ensures
            r == interface_wf(self@),
    {
        let ghost v = self@;
        let mut i: usize = 0;
        while i < self.imports.len()
            invariant
                v == self@,
                i <= v.imports.len(),
                forall|a: int| 0 <= a < i ==> sig_names_unique(#[trigger] v.imports[a].operations),
                forall|a: int, b: int|
                    0 <= a < b < v.imports.len() && a < i ==> #[trigger] v.imports[a].name
                        != #[trigger] v.imports[b].name,
            decreases v.imports.len() - i,
        {
            if !sig_names_distinct(&self.imports[i].operations) {
                assert(v.imports[i as int] == self.imports@[i as int]@);
                assert(!sig_names_unique(v.imports[i as int].operations));
                return false;
            }
            let mut j: usize = i + 1;
            while j < self.imports.len()
                invariant
                    v == self@,
                    i < v.imports.len(),
                    i + 1 <= j <= v.imports.len(),
                    forall|a: int, b: int|
                        0 <= a < b < v.imports.len() && a < i ==> #[trigger] v.imports[a].name
                            != #[trigger] v.imports[b].name,
                    forall|b: int| i < b < j ==> v.imports[i as int].name != #[trigger] v.imports[b].name,
                decreases v.imports.len() - j,
            {
                if self.imports[i].name == self.imports[j].name {
                    assert(v.imports[i as int] == self.imports@[i as int]@);
                    assert(v.imports[j as int] == self.imports@[j as int]@);
                    assert(v.imports[i as int].name == v.imports[j as int].name);
                    return false;
                }
                j = j + 1;
            }
            i = i + 1;
        }
        sig_names_distinct(&self.exports)
    }
}

/// A compilation engine: immutable settings plus the runtime that compiles
/// artifacts with them.
pub struct GuestEngine {
    config: EngineConfig,
    runtime: wasmtime::Engine,
}

impl GuestEngine {
    /// Builds an engine with the given settings, or `None` where the runtime
    /// cannot provide one on this machine.
    pub fn new(config: EngineConfig) -> (r: Option<GuestEngine>)
        ensures
            r matches Some(e) ==> e.config() == config,
    {
        match build_runtime_engine(config.debug_info, config.component_model) {
            Some(runtime) => Some(GuestEngine { config, runtime }),
            None => None,
        }
    }

    pub closed spec fn config(&self) -> EngineConfig {
        self.config
    }

    /// The engine's settings.
    pub fn settings(&self) -> (r: EngineConfig)
        ensures
            r == self.config(),
    {
        self.config
    }

    /// The runtime engine, for code that instantiates and runs artifacts.
    pub fn runtime(&self) -> &wasmtime::Engine {
        &self.runtime
    }

    /// What loading reports once the runtime has compiled the component
    /// and listed its import and export names: the artifact where the
    /// descriptor names exactly those, `Malformed` where it does not.
    pub fn check_descriptor(
        interface: Interface,
        component: wasmtime::component::Component,
        imports: Vec<String>,
        exports: Vec<String>,
    ) -> (r: Result<Artifact, LoadError>)
        ensures
            r is Ok <==> descriptor_agrees(interface@, names_view(imports@), names_view(exports@)),
            r matches Ok(a) ==> a@ == interface@ && a.component_imports() == names_view(imports@)
                && a.component_exports() == names_view(exports@),
            r matches Err(e) ==> e == LoadError::Malformed,
    {
        let declared_imports = interface.import_names();
        let declared_exports = interface.export_names();
        if same_names(&declared_imports, &imports) && same_names(&declared_exports, &exports) {
            Ok(Artifact { interface, component, imports, exports })
        } else {
            Err(LoadError::Malformed)
        }
    }

    /// Validates and loads an artifact from its bytes and declared interface.
    /// Bytes without a component preamble are `Malformed`; a component on an
    /// engine without the component model is `UnsupportedFeature`; an
    /// ill-formed descriptor is `Malformed`; an engine that keeps debug
    /// metadata refuses, as `UnsupportedFeature`, a component without a
    /// top-level core module. Otherwise the runtime compiles the bytes: a
    /// rejection there is `Malformed`, and so is a descriptor that does not
    /// name exactly the component's imports and exports.
    pub fn load_artifact(&self, bytes: &Vec<u8>, interface: Interface) -> (r: Result<Artifact, LoadError>)
        ensures
            !is_component_header(bytes@) ==> r == Err::<Artifact, LoadError>(LoadError::Malformed),
            is_component_header(bytes@) && !self.config().component_model ==> r == Err::<
                Artifact,
                LoadError,
            >(LoadError::UnsupportedFeature),
            is_component_header(bytes@) && self.config().component_model && !interface_wf(interface@)
                ==> r == Err::<Artifact, LoadError>(LoadError::Malformed),
            is_component_header(bytes@) && self.config().component_model && interface_wf(interface@)
                && self.config().debug_info && !holds_core_module(bytes@) ==> r == Err::<
                Artifact,
                LoadError,
            >(LoadError::UnsupportedFeature),
            is_component_header(bytes@) && self.config().component_model && interface_wf(interface@)
                && (self.config().debug_info ==> holds_core_module(bytes@)) && !component_compiles(
                self.config().debug_info,
                self.config().component_model,
                bytes@,
            ) ==> r == Err::<Artifact, LoadError>(LoadError::Malformed),
            is_component_header(bytes@) && self.config().component_model && interface_wf(interface@)
                && (self.config().debug_info ==> holds_core_module(bytes@)) && component_compiles(
                self.config().debug_info,
                self.config().component_model,
                bytes@,
            ) ==> if descriptor_agrees(interface@, component_imports_of(bytes@), component_exports_of(bytes@)) {
                r is Ok
            } else {
                r == Err::<Artifact, LoadError>(LoadError::Malformed)
            },
            r matches Ok(a) ==> {
                &&& is_component_header(bytes@)
                &&& self.config().component_model
                &&& interface_wf(interface@)
                &&& (self.config().debug_info ==> holds_core_module(bytes@))
                &&& component_compiles(self.config().debug_info, self.config().component_model, bytes@)
                &&& descriptor_agrees(interface@, component_imports_of(bytes@), component_exports_of(bytes@))
                &&& a.component_imports() == component_imports_of(bytes@)
                &&& a.component_exports() == component_exports_of(bytes@)
                &&& a@ == interface@
            },
            r matches Err(e) ==> e == LoadError::Malformed || e == LoadError::UnsupportedFeature,
    {
        if !has_component_header(bytes) {
            return Err(LoadError::Malformed);
        }
        if !self.config.component_model {
            return Err(LoadError::UnsupportedFeature);
        }
        if !interface.is_well_formed() {
            return Err(LoadError::Malformed);
        }
        if self.config.debug_info && !has_core_module(bytes) {
            return Err(LoadError::UnsupportedFeature);
        }
        match compile_component(self, bytes) {
            Err(_) => Err(LoadError::Malformed),
            Ok((component, imports, exports)) => {
                GuestEngine::check_descriptor(interface, component, imports, exports)
            },
        }
    }
}

/// A loaded artifact: its compiled form and its declared interface.
pub struct Artifact {
    interface: Interface,
    component: wasmtime::component::Component,
    imports: Vec<String>,
    exports: Vec<String>,
}

impl View for Artifact {
    type V = InterfaceView;

    closed spec fn view(&self) -> InterfaceView {
        self.interface@
    }
}

impl Artifact {
    /// The names of the component's imports, as the runtime lists them.
    pub closed spec fn component_imports(&self) -> Seq<Seq<char>> {
        names_view(self.imports@)
    }

    /// The names of the component's exports, as the runtime lists them.
    pub closed spec fn component_exports(&self) -> Seq<Seq<char>> {
        names_view(self.exports@)
    }

    /// The declared interface.
    pub fn interface(&self) -> (r: &Interface)
        ensures
            r@ == self@,
    {
        &self.interface
    }

    /// The compiled component, for code that instantiates it.
    pub fn component(&self) -> &wasmtime::component::Component {
        &self.component
    }
}

} // verus!
