use component_host::binary::has_core_module;
use component_host::capability::{call_host, settle_host_result, Capability};
use component_host::context::{ClockAccess, EffectConfig, ExecutionContext, TableError};
use component_host::coordinator::{bootstrap, link_and_prepare, stage, BootError, Staged};
use component_host::engine::{EngineConfig, GuestEngine, ImportDecl, Interface, LoadError};
use component_host::instance::{CallError, GuestOutcome, Trap};
use component_host::linker::{effect_interface, Binding, LinkError, Linker, Resolution};
use component_host::types::{check_args, Signature, ValType, Value};

const COMPONENT: [u8; 18] = [
    0x00, 0x61, 0x73, 0x6d, 0x0d, 0x00, 0x01, 0x00, 0x01, 0x08, 0x00, 0x61, 0x73, 0x6d, 0x01, 0x00, 0x00, 0x00,
];
const EMPTY_COMPONENT: [u8; 8] = [0x00, 0x61, 0x73, 0x6d, 0x0d, 0x00, 0x01, 0x00];
const CORE_MODULE: [u8; 8] = [0x00, 0x61, 0x73, 0x6d, 0x01, 0x00, 0x00, 0x00];

fn component(imports: &[&str], exports: &[&str]) -> Vec<u8> {
    let mut text = String::from("(component\n");
    for name in imports {
        text.push_str(&format!("  (import \"{name}\" (instance))\n"));
    }
    text.push_str("  (core module $m (func (export \"f\") (param f32) (result f32) local.get 0))\n");
    text.push_str("  (core instance $i (instantiate $m))\n");
    text.push_str("  (func $f (param \"x\" f32) (result f32) (canon lift (core func $i \"f\")))\n");
    for name in exports {
        text.push_str(&format!("  (export \"{name}\" (func $f))\n"));
    }
    text.push_str(")\n");
    wat::parse_str(&text).expect("component text")
}

fn convert_bytes() -> Vec<u8> {
    component(&["host"], &["convert-celsius-to-fahrenheit"])
}

fn sig(name: &str, params: Vec<ValType>, result: Option<ValType>, fallible: bool) -> Signature {
    Signature { name: name.to_string(), params, result, fallible }
}

fn multiply() -> Signature {
    sig("multiply", vec![ValType::F32, ValType::F32], Some(ValType::F32), false)
}

fn convert() -> Signature {
    sig("convert-celsius-to-fahrenheit", vec![ValType::F32], Some(ValType::F32), false)
}

fn host_import() -> ImportDecl {
    ImportDecl { name: "host".to_string(), operations: vec![multiply()] }
}

fn host_binding() -> Binding {
    Binding { interface: "host".to_string(), operations: vec![multiply()] }
}

fn convert_interface() -> Interface {
    Interface { imports: vec![host_import()], exports: vec![convert()] }
}

fn config() -> EngineConfig {
    EngineConfig { debug_info: true, component_model: true }
}

fn engine() -> GuestEngine {
    GuestEngine::new(config()).expect("engine")
}

fn f32_value(x: f32) -> Value {
    Value::F32(x.to_bits())
}

fn linked_instance() -> component_host::instance::Instance {
    let artifact = engine().load_artifact(&convert_bytes(), convert_interface()).unwrap();
    let mut linker = Linker::new();
    linker.register(host_binding()).unwrap();
    match linker.instantiate(artifact, ExecutionContext::new(EffectConfig::deny_all())) {
        Ok(i) => i,
        Err(e) => panic!("instantiate failed: {:?}", e),
    }
}

#[test]
fn args_of_matching_types_pass() {
    assert!(check_args(&vec![f32_value(1.0), f32_value(2.0)], &vec![ValType::F32, ValType::F32]));
    assert!(check_args(&vec![], &vec![]));
}

#[test]
fn args_of_wrong_count_or_type_fail() {
    assert!(!check_args(&vec![f32_value(1.0)], &vec![ValType::F32, ValType::F32]));
    assert!(!check_args(&vec![Value::S32(1), f32_value(2.0)], &vec![ValType::F32, ValType::F32]));
    assert!(!check_args(&vec![Value::Str("x".to_string())], &vec![]));
}

#[test]
fn signatures_compare_by_every_part() {
    assert!(multiply().same_as(&multiply()));
    assert!(!multiply().same_as(&sig("multiply", vec![ValType::F32], Some(ValType::F32), false)));
    assert!(!multiply().same_as(&sig("multiply", vec![ValType::F32, ValType::F32], Some(ValType::F64), false)));
    assert!(!multiply().same_as(&sig("multiply", vec![ValType::F32, ValType::F32], Some(ValType::F32), true)));
    assert!(!multiply().same_as(&sig("times", vec![ValType::F32, ValType::F32], Some(ValType::F32), false)));
}

#[test]
fn load_accepts_a_component() {
    let artifact = engine().load_artifact(&convert_bytes(), convert_interface()).unwrap();
    assert_eq!(artifact.interface().exports.len(), 1);
    assert_eq!(artifact.interface().exports[0].name, "convert-celsius-to-fahrenheit");
    assert_eq!(artifact.interface().imports[0].name, "host");
}

#[test]
fn load_rejects_bytes_that_are_not_a_component() {
    let e = engine();
    assert!(matches!(e.load_artifact(&vec![1, 2, 3], convert_interface()), Err(LoadError::Malformed)));
    assert!(matches!(e.load_artifact(&vec![], convert_interface()), Err(LoadError::Malformed)));
    assert!(matches!(e.load_artifact(&CORE_MODULE.to_vec(), convert_interface()), Err(LoadError::Malformed)));
    assert!(matches!(e.load_artifact(&COMPONENT[..7].to_vec(), convert_interface()), Err(LoadError::Malformed)));
}

#[test]
fn load_rejects_a_body_the_runtime_refuses() {
    let mut bytes = convert_bytes();
    bytes.extend_from_slice(&[0xff, 0xff, 0xff]);
    assert!(matches!(engine().load_artifact(&bytes, convert_interface()), Err(LoadError::Malformed)));
}

#[test]
fn load_needs_the_component_model_enabled() {
    let e = GuestEngine::new(EngineConfig { debug_info: false, component_model: false }).unwrap();
    assert!(matches!(e.load_artifact(&convert_bytes(), convert_interface()), Err(LoadError::UnsupportedFeature)));
    assert_eq!(e.settings(), EngineConfig { debug_info: false, component_model: false });
}

#[test]
fn load_rejects_duplicate_names_in_the_descriptor() {
    let e = engine();
    let twice = Interface { imports: vec![], exports: vec![convert(), convert()] };
    assert!(matches!(e.load_artifact(&COMPONENT.to_vec(), twice), Err(LoadError::Malformed)));
    let imports_twice = Interface { imports: vec![host_import(), host_import()], exports: vec![] };
    assert!(matches!(e.load_artifact(&COMPONENT.to_vec(), imports_twice), Err(LoadError::Malformed)));
    let ops_twice = Interface {
        imports: vec![ImportDecl { name: "host".to_string(), operations: vec![multiply(), multiply()] }],
        exports: vec![],
    };
    assert!(matches!(e.load_artifact(&COMPONENT.to_vec(), ops_twice), Err(LoadError::Malformed)));
}

#[test]
fn engine_is_reusable_after_a_failed_load() {
    let e = engine();
    assert!(e.load_artifact(&vec![0, 0, 0], convert_interface()).is_err());
    assert!(e.load_artifact(&convert_bytes(), convert_interface()).is_ok());
}

#[test]
fn effects_default_to_denied() {
    let c = EffectConfig::deny_all();
    assert!(!c.inherit_stdio);
    assert!(c.preopened_dirs.is_empty());
    assert!(!c.env_passthrough);
    assert_eq!(c.clock_access, ClockAccess::Denied);
}

#[test]
fn resource_table_starts_empty() {
    let ctx = ExecutionContext::new(EffectConfig::deny_all());
    assert_eq!(ctx.resource_count(), 0);
    assert!(matches!(ctx.get_resource(0), Err(TableError::NotPresent)));
}

#[test]
fn resource_table_counts_inserts_minus_drops() {
    let mut ctx = ExecutionContext::new(EffectConfig::deny_all());
    let a = ctx.insert_resource(10).unwrap();
    let b = ctx.insert_resource(20).unwrap();
    let c = ctx.insert_resource(30).unwrap();
    assert_ne!(a, b);
    assert_ne!(b, c);
    assert_eq!(ctx.resource_count(), 3);
    assert_eq!(ctx.get_resource(b), Ok(20));
    assert_eq!(ctx.drop_resource(b), Ok(20));
    assert_eq!(ctx.resource_count(), 2);
    assert_eq!(ctx.get_resource(a), Ok(10));
    assert_eq!(ctx.get_resource(c), Ok(30));
}

#[test]
fn dropping_a_stale_handle_is_refused() {
    let mut ctx = ExecutionContext::new(EffectConfig::deny_all());
    let a = ctx.insert_resource(7).unwrap();
    assert_eq!(ctx.drop_resource(a), Ok(7));
    assert_eq!(ctx.drop_resource(a), Err(TableError::NotPresent));
    assert_eq!(ctx.drop_resource(99), Err(TableError::NotPresent));
    assert_eq!(ctx.resource_count(), 0);
}

#[test]
fn context_keeps_its_effects() {
    let effects = EffectConfig {
        inherit_stdio: true,
        preopened_dirs: vec!["/data".to_string()],
        env_passthrough: false,
        clock_access: ClockAccess::Monotonic,
    };
    let ctx = ExecutionContext::new(effects);
    assert!(ctx.effects().inherit_stdio);
    assert_eq!(ctx.effects().preopened_dirs, vec!["/data".to_string()]);
    assert_eq!(ctx.effects().clock_access, ClockAccess::Monotonic);
}

#[test]
fn effect_interfaces_are_recognised_by_prefix() {
    assert!(effect_interface(&"wasi:cli/environment".to_string()));
    assert!(!effect_interface(&"host".to_string()));
    assert!(!effect_interface(&"wasi".to_string()));
}

#[test]
fn duplicate_registration_is_refused_and_first_holds() {
    let mut linker = Linker::new();
    assert!(linker.register(host_binding()).is_ok());
    let other = Binding { interface: "host".to_string(), operations: vec![] };
    assert_eq!(linker.register(other), Err(LinkError::DuplicateBinding("host".to_string())));
    let artifact = engine().load_artifact(&convert_bytes(), convert_interface()).unwrap();
    let inst = linker.instantiate(artifact, ExecutionContext::new(EffectConfig::deny_all())).unwrap();
    assert_eq!(inst.plan(), &vec![Resolution::Bound(0)]);
}

#[test]
fn runtime_effects_are_wired_once() {
    let mut linker = Linker::new();
    assert!(linker.register_runtime_effects().is_ok());
    assert_eq!(linker.register_runtime_effects(), Err(LinkError::DuplicateRuntimeEffects));
}

#[test]
fn satisfied_imports_instantiate_with_every_export() {
    let inst = linked_instance();
    assert_eq!(inst.exports().len(), 1);
    assert_eq!(inst.exports()[0].name, "convert-celsius-to-fahrenheit");
    assert_eq!(inst.context().resource_count(), 0);
}

#[test]
fn missing_import_is_named() {
    let artifact = engine().load_artifact(&convert_bytes(), convert_interface()).unwrap();
    let linker = Linker::new();
    let r = linker.instantiate(artifact, ExecutionContext::new(EffectConfig::deny_all()));
    assert!(matches!(r, Err(LinkError::UnsatisfiedImport(ref n)) if n == "host"));
}

#[test]
fn first_missing_import_in_declaration_order_is_named() {
    let interface = Interface {
        imports: vec![
            host_import(),
            ImportDecl { name: "zeta".to_string(), operations: vec![] },
            ImportDecl { name: "alpha".to_string(), operations: vec![] },
        ],
        exports: vec![],
    };
    let artifact = engine().load_artifact(&component(&["host", "zeta", "alpha"], &[]), interface).unwrap();
    let mut linker = Linker::new();
    linker.register(host_binding()).unwrap();
    let r = linker.instantiate(artifact, ExecutionContext::new(EffectConfig::deny_all()));
    assert!(matches!(r, Err(LinkError::UnsatisfiedImport(ref n)) if n == "zeta"));
}

#[test]
fn mismatched_binding_signature_is_refused() {
    let artifact = engine().load_artifact(&convert_bytes(), convert_interface()).unwrap();
    let mut linker = Linker::new();
    let wrong = Binding {
        interface: "host".to_string(),
        operations: vec![sig("multiply", vec![ValType::F64, ValType::F64], Some(ValType::F64), false)],
    };
    linker.register(wrong).unwrap();
    let r = linker.instantiate(artifact, ExecutionContext::new(EffectConfig::deny_all()));
    assert!(matches!(r, Err(LinkError::SignatureMismatch(ref n)) if n == "host"));
}

#[test]
fn effect_imports_need_runtime_effects() {
    let interface = Interface {
        imports: vec![ImportDecl { name: "wasi:cli/stdout".to_string(), operations: vec![] }],
        exports: vec![],
    };
    let e = engine();
    let artifact = e.load_artifact(&component(&["wasi:cli/stdout"], &[]), interface).unwrap();
    let linker = Linker::new();
    let r = linker.instantiate(artifact, ExecutionContext::new(EffectConfig::deny_all()));
    assert!(matches!(r, Err(LinkError::UnsatisfiedImport(ref n)) if n == "wasi:cli/stdout"));

    let interface = Interface {
        imports: vec![ImportDecl { name: "wasi:cli/stdout".to_string(), operations: vec![] }],
        exports: vec![],
    };
    let artifact = e.load_artifact(&component(&["wasi:cli/stdout"], &[]), interface).unwrap();
    let mut linker = Linker::new();
    linker.register_runtime_effects().unwrap();
    let inst = linker.instantiate(artifact, ExecutionContext::new(EffectConfig::deny_all())).unwrap();
    assert_eq!(inst.plan(), &vec![Resolution::RuntimeEffects]);
}

#[test]
fn matching_call_is_prepared() {
    let inst = linked_instance();
    let r = inst.prepare_call(&"convert-celsius-to-fahrenheit".to_string(), &vec![f32_value(23.4)]);
    assert!(matches!(r, Ok(0)));
}

#[test]
fn mismatched_call_never_enters_the_guest() {
    let inst = linked_instance();
    let name = "convert-celsius-to-fahrenheit".to_string();
    assert!(matches!(inst.prepare_call(&name, &vec![Value::S32(23)]), Err(CallError::TypeMismatch)));
    assert!(matches!(inst.prepare_call(&name, &vec![]), Err(CallError::TypeMismatch)));
    assert!(matches!(
        inst.prepare_call(&name, &vec![f32_value(1.0), f32_value(2.0)]),
        Err(CallError::TypeMismatch)
    ));
    assert_eq!(inst.context().resource_count(), 0);
}

#[test]
fn unknown_operation_is_named() {
    let inst = linked_instance();
    let r = inst.prepare_call(&"nope".to_string(), &vec![]);
    assert!(matches!(r, Err(CallError::UnknownOperation(ref n)) if n == "nope"));
}

#[test]
fn celsius_conversion_result_comes_back_unchanged() {
    let inst = linked_instance();
    let v: f32 = 23.4;
    let op = inst.prepare_call(&"convert-celsius-to-fahrenheit".to_string(), &vec![f32_value(v)]).unwrap();
    let guest_result = v * 1.8 + 32.0;
    let r = inst.complete_call(op, GuestOutcome::Returned(Some(f32_value(guest_result))));
    match r {
        Ok(Some(Value::F32(bits))) => assert!((f32::from_bits(bits) - 74.12).abs() < 1e-4),
        other => panic!("unexpected {:?}", other),
    }
}

#[test]
fn result_of_wrong_type_is_a_mismatch() {
    let inst = linked_instance();
    assert!(matches!(inst.complete_call(0, GuestOutcome::Returned(Some(Value::U64(3)))), Err(CallError::TypeMismatch)));
    assert!(matches!(inst.complete_call(0, GuestOutcome::Returned(None)), Err(CallError::TypeMismatch)));
}

#[test]
fn guest_failures_become_call_errors() {
    let inst = linked_instance();
    let r = inst.complete_call(0, GuestOutcome::Trapped("unreachable".to_string()));
    assert!(matches!(r, Err(CallError::Trapped(Trap::Fault(ref m))) if m == "unreachable"));
    let r = inst.complete_call(0, GuestOutcome::Failed(Value::U32(5)));
    assert!(matches!(r, Err(CallError::Trapped(Trap::UndeclaredError(Value::U32(5))))));
}

#[test]
fn declared_error_channel_gives_guest_error() {
    let interface = Interface {
        imports: vec![],
        exports: vec![sig("parse", vec![ValType::Str], Some(ValType::U32), true)],
    };
    let artifact = engine().load_artifact(&component(&[], &["parse"]), interface).unwrap();
    let inst = Linker::new().instantiate(artifact, ExecutionContext::new(EffectConfig::deny_all())).unwrap();
    let r = inst.complete_call(0, GuestOutcome::Failed(Value::Str("bad".to_string())));
    assert!(matches!(r, Err(CallError::GuestError(Value::Str(ref s))) if s == "bad"));
    let r = inst.complete_call(0, GuestOutcome::Returned(Some(Value::U32(4))));
    assert!(matches!(r, Ok(Some(Value::U32(4)))));
}

#[test]
fn resources_inserted_through_an_instance_are_counted() {
    let mut inst = linked_instance();
    let h = inst.context_mut().insert_resource(1).unwrap();
    inst.context_mut().insert_resource(2).unwrap();
    inst.context_mut().drop_resource(h).unwrap();
    assert_eq!(inst.context().resource_count(), 1);
}

fn phase_one() -> Staged {
    match stage(config(), &convert_bytes(), convert_interface(), EffectConfig::deny_all()) {
        Ok(s) => s,
        Err(e) => panic!("stage failed: {:?}", e),
    }
}

fn hand_over<T: Send>(value: T) -> T {
    value
}

#[test]
fn split_phases_match_a_single_unit() {
    let name = "convert-celsius-to-fahrenheit".to_string();
    let args = vec![f32_value(23.4)];
    let staged = hand_over(phase_one());
    let split = link_and_prepare(staged, vec![host_binding()], true, &name, &args);
    let single = bootstrap(config(), &convert_bytes(), convert_interface(), EffectConfig::deny_all(),
        vec![host_binding()], true, &name, &args);
    match (split, single) {
        (Ok(a), Ok(b)) => {
            assert_eq!(a.operation, b.operation);
            assert_eq!(a.instance.exports().len(), b.instance.exports().len());
            let guest = 23.4f32 * 1.8 + 32.0;
            let ra = a.instance.complete_call(a.operation, GuestOutcome::Returned(Some(f32_value(guest))));
            let rb = b.instance.complete_call(b.operation, GuestOutcome::Returned(Some(f32_value(guest))));
            assert_eq!(ra.unwrap(), rb.unwrap());
        }
        _ => panic!("both runs should succeed"),
    }
}

#[test]
fn split_phases_fail_alike() {
    let name = "convert-celsius-to-fahrenheit".to_string();
    let args = vec![f32_value(1.0)];
    let split = link_and_prepare(hand_over(phase_one()), vec![], false, &name, &args);
    let single = bootstrap(config(), &convert_bytes(), convert_interface(), EffectConfig::deny_all(),
        vec![], false, &name, &args);
    assert!(matches!(split, Err(BootError::Link(LinkError::UnsatisfiedImport(ref n))) if n == "host"));
    assert!(matches!(single, Err(BootError::Link(LinkError::UnsatisfiedImport(ref n))) if n == "host"));
}

#[test]
fn duplicate_bindings_stop_phase_two() {
    let name = "convert-celsius-to-fahrenheit".to_string();
    let r = link_and_prepare(phase_one(), vec![host_binding(), host_binding()], false, &name, &vec![]);
    assert!(matches!(r, Err(BootError::Link(LinkError::DuplicateBinding(ref n))) if n == "host"));
}

#[test]
fn bootstrap_reports_load_errors() {
    let name = "x".to_string();
    let r = bootstrap(config(), &vec![0], convert_interface(), EffectConfig::deny_all(), vec![], false, &name, &vec![]);
    assert!(matches!(r, Err(BootError::Load(LoadError::Malformed))));
    let off = EngineConfig { debug_info: false, component_model: false };
    let r = bootstrap(off, &convert_bytes(), convert_interface(), EffectConfig::deny_all(), vec![], false, &name, &vec![]);
    assert!(matches!(r, Err(BootError::Load(LoadError::UnsupportedFeature))));
}

#[test]
fn bootstrap_reports_call_errors() {
    let r = bootstrap(config(), &convert_bytes(), convert_interface(), EffectConfig::deny_all(),
        vec![host_binding()], false, &"convert-celsius-to-fahrenheit".to_string(), &vec![Value::Bool(true)]);
    assert!(matches!(r, Err(BootError::Call(CallError::TypeMismatch))));
}

#[test]
fn core_module_is_found_among_sections() {
    assert!(has_core_module(&COMPONENT.to_vec()));
    assert!(!has_core_module(&EMPTY_COMPONENT.to_vec()));
    let mut after_custom = EMPTY_COMPONENT.to_vec();
    after_custom.extend_from_slice(&[0x00, 0x02, 0x61, 0x62]);
    after_custom.extend_from_slice(&COMPONENT[8..]);
    assert!(has_core_module(&after_custom));
    let mut long_size = EMPTY_COMPONENT.to_vec();
    long_size.extend_from_slice(&[0x00, 0x81, 0x00, 0x61]);
    long_size.extend_from_slice(&COMPONENT[8..]);
    assert!(has_core_module(&long_size));
    let mut hidden = EMPTY_COMPONENT.to_vec();
    hidden.extend_from_slice(&[0x00, 0x03, 0x01, 0x01, 0x01]);
    assert!(!has_core_module(&hidden));
    let mut truncated = EMPTY_COMPONENT.to_vec();
    truncated.extend_from_slice(&[0x00, 0x80]);
    assert!(!has_core_module(&truncated));
}

#[test]
fn debug_engine_needs_a_core_module() {
    let e = engine();
    let r = e.load_artifact(&EMPTY_COMPONENT.to_vec(), convert_interface());
    assert!(matches!(r, Err(LoadError::UnsupportedFeature)));
    let plain = GuestEngine::new(EngineConfig { debug_info: false, component_model: true }).unwrap();
    let nothing = Interface { imports: vec![], exports: vec![] };
    assert!(plain.load_artifact(&EMPTY_COMPONENT.to_vec(), nothing).is_ok());
}

struct Adder {
    calls: u32,
}

impl Capability for Adder {
    fn invoke(&mut self, operation: &String, args: &Vec<Value>) -> Result<Option<Value>, String> {
        self.calls += 1;
        match (operation.as_str(), args.as_slice()) {
            ("add", [Value::U32(a), Value::U32(b)]) => Ok(Some(Value::U32(a + b))),
            ("wrong", _) => Ok(Some(Value::Bool(true))),
            _ => Err("refused".to_string()),
        }
    }
}

#[test]
fn host_call_runs_the_capability() {
    let mut cap = Adder { calls: 0 };
    let add = sig("add", vec![ValType::U32, ValType::U32], Some(ValType::U32), false);
    let r = call_host(&mut cap, &add, &vec![Value::U32(2), Value::U32(3)]);
    assert_eq!(r.unwrap(), Some(Value::U32(5)));
    assert_eq!(cap.calls, 1);
}

#[test]
fn host_call_with_bad_arguments_never_runs() {
    let mut cap = Adder { calls: 0 };
    let add = sig("add", vec![ValType::U32, ValType::U32], Some(ValType::U32), false);
    assert!(matches!(call_host(&mut cap, &add, &vec![Value::U32(2)]), Err(CallError::TypeMismatch)));
    assert!(matches!(call_host(&mut cap, &add, &vec![Value::U32(2), Value::S32(3)]), Err(CallError::TypeMismatch)));
    assert_eq!(cap.calls, 0);
}

#[test]
fn host_faults_become_traps() {
    let mut cap = Adder { calls: 0 };
    let other = sig("other", vec![], None, false);
    let r = call_host(&mut cap, &other, &vec![]);
    assert!(matches!(r, Err(CallError::Trapped(Trap::Fault(ref m))) if m == "refused"));
    let wrong = sig("wrong", vec![], Some(ValType::U32), false);
    assert!(matches!(call_host(&mut cap, &wrong, &vec![]), Err(CallError::TypeMismatch)));
}

#[test]
fn settled_host_results_keep_their_value() {
    let s = sig("f", vec![], Some(ValType::Str), false);
    let r = settle_host_result(&s, Ok(Some(Value::Str("ok".to_string()))));
    assert_eq!(r.unwrap(), Some(Value::Str("ok".to_string())));
    assert!(matches!(settle_host_result(&s, Ok(None)), Err(CallError::TypeMismatch)));
    let unit = sig("g", vec![], None, false);
    assert_eq!(settle_host_result(&unit, Ok(None)).unwrap(), None);
}

#[test]
fn descriptor_must_match_the_component() {
    let e = engine();
    let missing_import = Interface { imports: vec![], exports: vec![convert()] };
    assert!(matches!(e.load_artifact(&convert_bytes(), missing_import), Err(LoadError::Malformed)));
    let extra_export = Interface {
        imports: vec![host_import()],
        exports: vec![convert(), sig("other", vec![], None, false)],
    };
    assert!(matches!(e.load_artifact(&convert_bytes(), extra_export), Err(LoadError::Malformed)));
    let renamed = Interface {
        imports: vec![ImportDecl { name: "guest".to_string(), operations: vec![] }],
        exports: vec![convert()],
    };
    assert!(matches!(e.load_artifact(&convert_bytes(), renamed), Err(LoadError::Malformed)));
    assert!(e.load_artifact(&convert_bytes(), convert_interface()).is_ok());
}

#[test]
fn staged_state_moves_through_a_channel() {
    let name = "convert-celsius-to-fahrenheit".to_string();
    let args = vec![f32_value(23.4)];
    let (sender, receiver) = std::sync::mpsc::channel::<Staged>();
    sender.send(hand_over(phase_one())).unwrap();
    drop(sender);
    let staged = receiver.recv().unwrap();
    assert!(receiver.recv().is_err());
    let split = match link_and_prepare(staged, vec![host_binding()], true, &name, &args) {
        Ok(p) => Some(p.operation),
        Err(_) => None,
    };
    let single = bootstrap(config(), &convert_bytes(), convert_interface(), EffectConfig::deny_all(),
        vec![host_binding()], true, &"convert-celsius-to-fahrenheit".to_string(), &vec![f32_value(23.4)]);
    assert_eq!(split, Some(0));
    assert_eq!(single.ok().map(|p| p.operation), split);
}

#[test]
fn a_live_resource_is_always_dropped() {
    let mut ctx = ExecutionContext::new(EffectConfig::deny_all());
    let handles: Vec<u32> = (0..5).map(|v| ctx.insert_resource(v).unwrap()).collect();
    for (v, h) in handles.iter().enumerate() {
        assert_eq!(ctx.drop_resource(*h), Ok(v as u64));
    }
    assert_eq!(ctx.resource_count(), 0);
}
