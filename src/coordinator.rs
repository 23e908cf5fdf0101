use vstd::prelude::*;
use crate::types::{SignatureView, Value, args_match};
use crate::binary::holds_core_module;
use crate::engine::{
    Artifact, EngineConfig, InterfaceView, component_compiles, component_exports_of, component_imports_of,
    descriptor_agrees, GuestEngine, ImportView, Interface, LoadError, interface_wf,
    is_component_header,
};
use crate::context::{EffectConfig, ExecutionContext};
use crate::linker::{
    Binding, Linker, LinkError, LinkErrorView, LinkerView, first_import_error, has_binding, import_error,
    plan_resolves,
};
use crate::instance::{CallError, Instance, first_named};

verus! {

/// The first failure of a bootstrap run.
#[derive(Debug)]
pub enum BootError {
    /// The runtime could not provide an engine on this machine.
    EngineUnavailable,
    Load(LoadError),
    Link(LinkError),
    Call(CallError),
}

/// What the first phase hands over: an engine, an artifact loaded by it and
/// a fresh context. Whoever holds it is its sole owner.
pub struct Staged {
    pub engine: GuestEngine,
    pub artifact: Artifact,
    pub context: ExecutionContext,
}

/// What the second phase hands back: the engine, the live instance and the
/// position of the export to run, with arguments already checked.
pub struct PreparedCall {
    pub engine: GuestEngine,
    pub instance: Instance,
    pub operation: usize,
}

/// The binding at position `k` repeats an interface name of an earlier one.
pub open spec fn repeats_earlier(b: Seq<ImportView>, k: int) -> bool {
    exists|j: int| 0 <= j < k && #[trigger] b[j].name == b[k].name
}

/// No two bindings share an interface name.
pub open spec fn bindings_distinct(b: Seq<ImportView>) -> bool {
    forall|k: int| 0 <= k < b.len() ==> !repeats_earlier(b, k)
}

/// Position `k` is the first binding whose name was registered before.
pub open spec fn first_repeat(b: Seq<ImportView>, k: int) -> bool {
    0 <= k < b.len() && repeats_earlier(b, k) && forall|j: int| 0 <= j < k ==> !#[trigger] repeats_earlier(b, j)
}

/// The linker that registering the bindings in order builds, where none
/// repeats.
pub open spec fn linker_of(b: Seq<ImportView>, runtime_effects: bool) -> LinkerView {
    LinkerView { bindings: b, runtime_effects }
}

/// Phase one: builds the engine, loads the artifact and creates a fresh
/// context with the given effects.
pub fn stage(config: EngineConfig, bytes: &Vec<u8>, interface: Interface, effects: EffectConfig) -> (r: Result<
    Staged,
    BootError,
>)
    ensures
        match r {
            Ok(s) => {
                &&& is_component_header(bytes@)
                &&& config.component_model
                &&& interface_wf(interface@)
                &&& (config.debug_info ==> holds_core_module(bytes@))
                &&& component_compiles(config.debug_info, config.component_model, bytes@)
                &&& descriptor_agrees(interface@, component_imports_of(bytes@), component_exports_of(bytes@))
                &&& s.engine.config() == config
                &&& s.artifact@ == interface@
                &&& s.context.wf()
                &&& s.context.handles() == Set::<u32>::empty()
                &&& s.context.effects_spec() == effects
            },
            Err(BootError::EngineUnavailable) => true,
            Err(BootError::Load(e)) => {
                &&& !is_component_header(bytes@) ==> e == LoadError::Malformed
                &&& is_component_header(bytes@) && !config.component_model ==> e
                    == LoadError::UnsupportedFeature
                &&& is_component_header(bytes@) && config.component_model && !interface_wf(interface@)
                    ==> e == LoadError::Malformed
                &&& is_component_header(bytes@) && config.component_model && interface_wf(interface@)
                    && config.debug_info && !holds_core_module(bytes@) ==> e == LoadError::UnsupportedFeature
                &&& is_component_header(bytes@) && config.component_model && interface_wf(interface@)
                    && (config.debug_info ==> holds_core_module(bytes@)) ==> e == LoadError::Malformed
                &&& is_component_header(bytes@) && config.component_model && interface_wf(interface@)
                    && (config.debug_info ==> holds_core_module(bytes@)) && component_compiles(
                    config.debug_info,
                    config.component_model,
                    bytes@,
                ) ==> !descriptor_agrees(interface@, component_imports_of(bytes@), component_exports_of(bytes@))
            },
            Err(_) => false,
        },
{
    let engine = match GuestEngine::new(config) {
        Some(e) => e,
        None => return Err(BootError::EngineUnavailable),
    };
    let artifact = match engine.load_artifact(bytes, interface) {
        Ok(a) => a,
        Err(e) => return Err(BootError::Load(e)),
    };
    let context = ExecutionContext::new(effects);
    Ok(Staged { engine, artifact, context })
}

/// Registers the bindings in order on a fresh linker, wiring in the runtime
/// effects where asked. The first binding whose interface is already bound
/// is refused with `DuplicateBinding`.
pub fn build_linker(bindings: Vec<Binding>, runtime_effects: bool) -> (r: Result<Linker, LinkError>)
    ensures
        match r {
            Ok(l) => {
                &&& l.wf()
                &&& bindings_distinct(bindings@.map_values(|b: Binding| b@))
                &&& l@ == linker_of(bindings@.map_values(|b: Binding| b@), runtime_effects)
            },
            Err(e) => exists|k: int|
                first_repeat(bindings@.map_values(|b: Binding| b@), k) && e@
                    == LinkErrorView::DuplicateBinding(bindings@[k]@.name),
        },
{
    let ghost bv = bindings@.map_values(|b: Binding| b@);
    let ghost bs = bindings@;
    let mut linker = Linker::new();
    if runtime_effects {
        let _ = linker.register_runtime_effects();
    }
    let mut rest = bindings;
    let mut k: usize = 0;
    let n = rest.len();
    while k < n
        invariant
            linker.wf(),
            n == bv.len(),
            bv == bs.map_values(|b: Binding| b@),
            bs == bindings@,
            k <= n,
            rest@.len() == n - k,
            forall|x: int| 0 <= x < n - k ==> #[trigger] rest@[x]@ == bv[k + x],
            linker@.runtime_effects == runtime_effects,
            linker@.bindings == bv.subrange(0, k as int),
            forall|x: int| 0 <= x < k ==> !#[trigger] repeats_earlier(bv, x),
        decreases n - k,
    {
        let b = rest.remove(0);
        assert(b@ == bv[k as int]);
        proof {
            if has_binding(linker@, b@.name) {
                let j = choose|j: int| 0 <= j < linker@.bindings.len() && #[trigger] linker@.bindings[j].name == b@.name;
                assert(bv[j] == linker@.bindings[j]);
                assert(repeats_earlier(bv, k as int));
            } else {
                assert forall|j: int| 0 <= j < k implies #[trigger] bv[j].name != bv[k as int].name by {
                    assert(linker@.bindings[j] == bv[j]);
                }
            }
        }
        match linker.register(b) {
            Ok(()) => {},
            Err(e) => {
                assert(first_repeat(bv, k as int));
                assert(bv[k as int] == bs[k as int]@);
                assert(e@ == LinkErrorView::DuplicateBinding(bs[k as int]@.name));
                return Err(e);
            },
        }
        assert(linker@.bindings =~= bv.subrange(0, k + 1));
        k = k + 1;
    }
    assert(bv.subrange(0, n as int) =~= bv);
    Ok(linker)
}

/// Every import resolves on the linker.
pub open spec fn all_resolve(l: LinkerView, iv: InterfaceView) -> bool {
    forall|k: int| 0 <= k < iv.imports.len() ==> import_error(l, #[trigger] iv.imports[k]) is None
}

/// What phase two owes, over the interface `iv`, the bindings `bv`, whether
/// runtime effects are wired, the export's name and the arguments.
pub open spec fn phase_two_spec(
    iv: InterfaceView,
    bv: Seq<ImportView>,
    runtime_effects: bool,
    op: Seq<char>,
    args: Seq<Value>,
    r: Result<PreparedCall, BootError>,
) -> bool {
    let l = linker_of(bv, runtime_effects);
    match r {
        Ok(p) => {
            &&& bindings_distinct(bv)
            &&& all_resolve(l, iv)
            &&& first_named(iv.exports, op, p.operation as int)
            &&& args_match(args, iv.exports[p.operation as int].params)
            &&& p.instance.interface() == iv
            &&& plan_resolves(l, iv.imports, p.instance.plan_spec())
        },
        Err(BootError::Link(e)) => if !bindings_distinct(bv) {
            exists|k: int| first_repeat(bv, k) && e@ == LinkErrorView::DuplicateBinding(bv[k].name)
        } else {
            first_import_error(l, iv.imports, e@)
        },
        Err(BootError::Call(CallError::UnknownOperation(n))) => {
            &&& bindings_distinct(bv)
            &&& all_resolve(l, iv)
            &&& n@ == op
            &&& forall|j: int| 0 <= j < iv.exports.len() ==> #[trigger] iv.exports[j].name != op
        },
        Err(BootError::Call(CallError::TypeMismatch)) => {
            &&& bindings_distinct(bv)
            &&& all_resolve(l, iv)
            &&& exists|i: int| first_named(iv.exports, op, i) && !args_match(args, iv.exports[i].params)
        },
        Err(_) => false,
    }
}

/// Phase two: registers the bindings, links the staged artifact against the
/// staged context and checks the call of the named export. Its outcome
/// depends on the staged state only through the artifact's interface, so it
/// is the same whichever unit built that state.
pub fn link_and_prepare(
    staged: Staged,
    bindings: Vec<Binding>,
    runtime_effects: bool,
    op: &String,
    args: &Vec<Value>,
) -> (r: Result<PreparedCall, BootError>)
    requires
        staged.context.wf(),
    ensures
        phase_two_spec(staged.artifact@, bindings@.map_values(|b: Binding| b@), runtime_effects, op@, args@, r),
        r matches Ok(p) ==> p.instance.ctx() == staged.context && p.engine == staged.engine,
{
    let Staged { engine, artifact, context } = staged;
    let linker = match build_linker(bindings, runtime_effects) {
        Ok(l) => l,
        Err(e) => {
            proof {
                let bv = bindings@.map_values(|b: Binding| b@);
                let k = choose|k: int| first_repeat(bv, k) && e@ == LinkErrorView::DuplicateBinding(bindings@[k]@.name);
                assert(!bindings_distinct(bv));
                assert(bv[k] == bindings@[k]@);
            }
            return Err(BootError::Link(e));
        },
    };
    let instance = match linker.instantiate(artifact, context) {
        Ok(i) => i,
        Err(e) => return Err(BootError::Link(e)),
    };
    match instance.prepare_call(op, args) {
        Ok(operation) => Ok(PreparedCall { engine, instance, operation }),
        Err(e) => Err(BootError::Call(e)),
    }
}

/// Runs both phases on the calling unit: stage, then link and prepare.
pub fn bootstrap(
    config: EngineConfig,
    bytes: &Vec<u8>,
    interface: Interface,
    effects: EffectConfig,
    bindings: Vec<Binding>,
    runtime_effects: bool,
    op: &String,
    args: &Vec<Value>,
) -> (r: Result<PreparedCall, BootError>)
    ensures
        match r {
            Err(BootError::EngineUnavailable) => true,
            Err(BootError::Load(e)) => {
                &&& !is_component_header(bytes@) ==> e == LoadError::Malformed
                &&& is_component_header(bytes@) && !config.component_model ==> e
                    == LoadError::UnsupportedFeature
                &&& is_component_header(bytes@) && config.component_model && !interface_wf(interface@)
                    ==> e == LoadError::Malformed
                &&& is_component_header(bytes@) && config.component_model && interface_wf(interface@)
                    && config.debug_info && !holds_core_module(bytes@) ==> e == LoadError::UnsupportedFeature
                &&& is_component_header(bytes@) && config.component_model && interface_wf(interface@)
                    && (config.debug_info ==> holds_core_module(bytes@)) ==> e == LoadError::Malformed
                &&& is_component_header(bytes@) && config.component_model && interface_wf(interface@)
                    && (config.debug_info ==> holds_core_module(bytes@)) && component_compiles(
                    config.debug_info,
                    config.component_model,
                    bytes@,
                ) ==> !descriptor_agrees(interface@, component_imports_of(bytes@), component_exports_of(bytes@))
            },
            _ => {
                &&& is_component_header(bytes@)
                &&& config.component_model
                &&& interface_wf(interface@)
                &&& (config.debug_info ==> holds_core_module(bytes@))
                &&& phase_two_spec(interface@, bindings@.map_values(|b: Binding| b@), runtime_effects, op@, args@, r)
            },
        },
        r matches Ok(p) ==> p.instance.ctx().handles() == Set::<u32>::empty() && p.instance.ctx().wf(),
{
    let staged = match stage(config, bytes, interface, effects) {
        Ok(s) => s,
        Err(e) => return Err(e),
    };
    link_and_prepare(staged, bindings, runtime_effects, op, args)
}

/// The observable outcome of phase two: the export it prepared, or the
/// error it reports.
pub enum PhaseTwoOutcome {
    Ready(usize),
    LinkFailed(LinkErrorView),
    UnknownOperation(Seq<char>),
    TypeMismatch,
    Other,
}

pub open spec fn outcome_of(r: Result<PreparedCall, BootError>) -> PhaseTwoOutcome {
    match r {
        Ok(p) => PhaseTwoOutcome::Ready(p.operation),
        Err(BootError::Link(e)) => PhaseTwoOutcome::LinkFailed(e@),
        Err(BootError::Call(CallError::UnknownOperation(n))) => PhaseTwoOutcome::UnknownOperation(n@),
        Err(BootError::Call(CallError::TypeMismatch)) => PhaseTwoOutcome::TypeMismatch,
        Err(_) => PhaseTwoOutcome::Other,
    }
}

/// At most one position is the first signature of a name.
pub proof fn first_named_is_unique(s: Seq<SignatureView>, name: Seq<char>, i: int, j: int)
    requires
        first_named(s, name, i),
        first_named(s, name, j),
    ensures
        i == j,
{
    if i < j {
        assert(s[i].name != name);
    } else if j < i {
        assert(s[j].name != name);
    }
}

/// At most one position is the first repeated binding.
pub proof fn first_repeat_is_unique(b: Seq<ImportView>, i: int, j: int)
    requires
        first_repeat(b, i),
        first_repeat(b, j),
    ensures
        i == j,
{
    if i < j {
        assert(!repeats_earlier(b, i));
    } else if j < i {
        assert(!repeats_earlier(b, j));
    }
}

/// Linking fails with at most one error: that of the first failing import.
pub proof fn first_import_error_is_unique(l: LinkerView, imports: Seq<ImportView>, e1: LinkErrorView, e2: LinkErrorView)
    requires
        first_import_error(l, imports, e1),
        first_import_error(l, imports, e2),
    ensures
        e1 == e2,
{
    let k1 = choose|k: int|
        0 <= k < imports.len() && import_error(l, #[trigger] imports[k]) == Some(e1) && forall|j: int|
            0 <= j < k ==> import_error(l, #[trigger] imports[j]) is None;
    let k2 = choose|k: int|
        0 <= k < imports.len() && import_error(l, #[trigger] imports[k]) == Some(e2) && forall|j: int|
            0 <= j < k ==> import_error(l, #[trigger] imports[j]) is None;
    if k1 < k2 {
        assert(import_error(l, imports[k1]) is None);
    } else if k2 < k1 {
        assert(import_error(l, imports[k2]) is None);
    }
}

/// Phase separation is observationally transparent: any two runs of phase
/// two on the same interface, bindings, runtime-effect choice, operation
/// and arguments report the same outcome, whichever unit staged the state
/// they received.
pub proof fn phase_separation_is_transparent(
    iv: InterfaceView,
    bv: Seq<ImportView>,
    runtime_effects: bool,
    op: Seq<char>,
    args: Seq<Value>,
    r1: Result<PreparedCall, BootError>,
    r2: Result<PreparedCall, BootError>,
)
    requires
        phase_two_spec(iv, bv, runtime_effects, op, args, r1),
        phase_two_spec(iv, bv, runtime_effects, op, args, r2),
    ensures
        outcome_of(r1) == outcome_of(r2),
{
    outcome_is_determined(iv, bv, runtime_effects, op, args, r1, r2);
}

proof fn outcome_is_determined(
    iv: InterfaceView,
    bv: Seq<ImportView>,
    runtime_effects: bool,
    op: Seq<char>,
    args: Seq<Value>,
    r1: Result<PreparedCall, BootError>,
    r2: Result<PreparedCall, BootError>,
)
    requires
        phase_two_spec(iv, bv, runtime_effects, op, args, r1),
        phase_two_spec(iv, bv, runtime_effects, op, args, r2),
    ensures
        outcome_of(r1) == outcome_of(r2),
{
    let l = linker_of(bv, runtime_effects);
    match r1 {
        Ok(p1) => {
            match r2 {
                Ok(p2) => {
                    first_named_is_unique(iv.exports, op, p1.operation as int, p2.operation as int);
                },
                Err(BootError::Link(e2)) => {
                    let k = choose|k: int|
                        0 <= k < iv.imports.len() && import_error(l, #[trigger] iv.imports[k]) == Some(e2@)
                            && forall|j: int| 0 <= j < k ==> import_error(l, #[trigger] iv.imports[j]) is None;
                    assert(import_error(l, iv.imports[k]) is None);
                },
                Err(BootError::Call(CallError::UnknownOperation(_))) => {
                    assert(iv.exports[p1.operation as int].name == op);
                },
                Err(BootError::Call(CallError::TypeMismatch)) => {
                    let i = choose|i: int| first_named(iv.exports, op, i) && !args_match(args, iv.exports[i].params);
                    first_named_is_unique(iv.exports, op, p1.operation as int, i);
                },
                Err(_) => {},
            }
        },
        Err(BootError::Link(e1)) => {
            match r2 {
                Err(BootError::Link(e2)) => {
                    if !bindings_distinct(bv) {
                        let k1 = choose|k: int| first_repeat(bv, k) && e1@ == LinkErrorView::DuplicateBinding(bv[k].name);
                        let k2 = choose|k: int| first_repeat(bv, k) && e2@ == LinkErrorView::DuplicateBinding(bv[k].name);
                        first_repeat_is_unique(bv, k1, k2);
                    } else {
                        first_import_error_is_unique(l, iv.imports, e1@, e2@);
                    }
                },
                Ok(_) => {
                    let k = choose|k: int|
                        0 <= k < iv.imports.len() && import_error(l, #[trigger] iv.imports[k]) == Some(e1@)
                            && forall|j: int| 0 <= j < k ==> import_error(l, #[trigger] iv.imports[j]) is None;
                    assert(import_error(l, iv.imports[k]) is None);
                },
                Err(BootError::Call(_)) => {
                    if bindings_distinct(bv) {
                        let k = choose|k: int|
                            0 <= k < iv.imports.len() && import_error(l, #[trigger] iv.imports[k]) == Some(e1@)
                                && forall|j: int| 0 <= j < k ==> import_error(l, #[trigger] iv.imports[j]) is None;
                        assert(import_error(l, iv.imports[k]) is None);
                    }
                },
                Err(_) => {},
            }
        },
        Err(BootError::Call(CallError::UnknownOperation(_))) => {
            match r2 {
                Err(BootError::Call(CallError::TypeMismatch)) => {
                    let i = choose|i: int| first_named(iv.exports, op, i) && !args_match(args, iv.exports[i].params);
                    assert(iv.exports[i].name == op);
                },
                Ok(p2) => {
                    assert(iv.exports[p2.operation as int].name == op);
                },
                Err(BootError::Link(e2)) => {
                    let k = choose|k: int|
                        0 <= k < iv.imports.len() && import_error(l, #[trigger] iv.imports[k]) == Some(e2@)
                            && forall|j: int| 0 <= j < k ==> import_error(l, #[trigger] iv.imports[j]) is None;
                    assert(import_error(l, iv.imports[k]) is None);
                },
                _ => {},
            }
        },
        Err(BootError::Call(CallError::TypeMismatch)) => {
            match r2 {
                Err(BootError::Link(e2)) => {
                    let k = choose|k: int|
                        0 <= k < iv.imports.len() && import_error(l, #[trigger] iv.imports[k]) == Some(e2@)
                            && forall|j: int| 0 <= j < k ==> import_error(l, #[trigger] iv.imports[j]) is None;
                    assert(import_error(l, iv.imports[k]) is None);
                },
                _ => {},
            }
        },
        Err(_) => {},
    }
}

} // verus!
