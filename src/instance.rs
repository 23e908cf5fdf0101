use vstd::prelude::*;
use crate::types::{Signature, SignatureView, ValType, Value, args_match, check_args, type_of};
use crate::engine::{Artifact, InterfaceView};
use crate::context::ExecutionContext;
use crate::linker::{Linker, LinkError, Resolution, first_import_error, import_error, plan_resolves};

verus! {

/// A guest-side fault, converted at the boundary.
#[derive(Debug)]
pub enum Trap {
    /// The sandbox stopped the guest, for the given reason.
    Fault(String),
    /// The guest returned an error through an operation that declares no
    /// error channel.
    UndeclaredError(Value),
}

/// Why a call failed.
#[derive(Debug)]
pub enum CallError {
    /// No exported operation has the name.
    UnknownOperation(String),
    /// The arguments, or the guest's result, do not match the declared
    /// signature.
    TypeMismatch,
    /// The guest trapped.
    Trapped(Trap),
    /// The guest returned an error through its declared error channel.
    GuestError(Value),
}

/// What the guest did once a call entered it.
#[derive(Debug)]
pub enum GuestOutcome {
    /// It returned, with a value or with none.
    Returned(Option<Value>),
    /// It returned an error value.
    Failed(Value),
    /// The sandbox stopped it.
    Trapped(String),
}

/// The value agrees with the declared result type.
pub open spec fn result_matches(v: Option<Value>, t: Option<ValType>) -> bool {
    match (v, t) {
        (None, None) => true,
        (Some(x), Some(y)) => type_of(x) == y,
        _ => false,
    }
}

/// Whether the value agrees with the declared result type.
pub fn check_result(v: &Option<Value>, t: &Option<ValType>) -> (r: bool)
    ensures
        r == result_matches(*v, *t),
{
    match (v, t) {
        (None, None) => true,
        (Some(x), Some(y)) => x.val_type() == *y,
        _ => false,
    }
}

/// The position of the first signature named `name`, if any.
pub open spec fn first_named(s: Seq<SignatureView>, name: Seq<char>, i: int) -> bool {
    0 <= i < s.len() && s[i].name == name && forall|j: int| 0 <= j < i ==> #[trigger] s[j].name != name
}

/// A live instance: an artifact linked against a context by a plan.
pub struct Instance {
    artifact: Artifact,
    context: ExecutionContext,
    plan: Vec<Resolution>,
}

impl Instance {
    /// The artifact's declared interface.
    pub closed spec fn interface(&self) -> InterfaceView {
        self.artifact@
    }

    /// The execution context the instance owns.
    pub closed spec fn ctx(&self) -> ExecutionContext {
        self.context
    }

    /// The link plan, one resolution per import.
    pub closed spec fn plan_spec(&self) -> Seq<Resolution> {
        self.plan@
    }

    /// The exported operations.
    pub fn exports(&self) -> (r: &Vec<Signature>)
        ensures
            r@.map_values(|g: Signature| g@) == self.interface().exports,
    {
        &self.artifact.interface().exports
    }

    /// The link plan.
    pub fn plan(&self) -> (r: &Vec<Resolution>)
        ensures
            r@ == self.plan_spec(),
    {
        &self.plan
    }

    /// The execution context.
    pub fn context(&self) -> (r: &ExecutionContext)
        ensures
            *r == self.ctx(),
    {
        &self.context
    }

    /// Mutable access to the execution context, for the host code that runs
    /// a call; the interface and the plan stay as they are.
    pub fn context_mut(&mut self) -> (r: &mut ExecutionContext)
        ensures
            *r == old(self).ctx(),
            final(self).ctx() == *final(r),
            final(self).interface() == old(self).interface(),
            final(self).plan_spec() == old(self).plan_spec(),
    {
        &mut self.context
    }

    /// The artifact, for the host code that runs a call.
    pub fn artifact(&self) -> (r: &Artifact)
        ensures
            r@ == self.interface(),
    {
        &self.artifact
    }

    /// The position of the first export named `name`.
    pub fn find_export(&self, name: &String) -> (r: Option<usize>)
        ensures
            match r {
                Some(i) => first_named(self.interface().exports, name@, i as int),
                None => forall|j: int|
                    0 <= j < self.interface().exports.len() ==> #[trigger] self.interface().exports[j].name
                        != name@,
            },
    {
        let exports = &self.artifact.interface().exports;
        let ghost ev = self.interface().exports;
        let mut i: usize = 0;
        while i < exports.len()
            invariant
                ev == exports@.map_values(|g: Signature| g@),
                ev == self.interface().exports,
                i <= exports@.len(),
                forall|j: int| 0 <= j < i ==> #[trigger] ev[j].name != name@,
            decreases exports@.len() - i,
        {
            assert(ev[i as int] == exports@[i as int]@);
            if exports[i].name == *name {
                return Some(i);
            }
            i = i + 1;
        }
        None
    }

    /// Checks a call before it crosses into the guest: the operation must be
    /// exported and the arguments must match its signature exactly. On
    /// success the result is the operation's position among the exports;
    /// on failure nothing has entered the guest.
    pub fn prepare_call(&self, name: &String, args: &Vec<Value>) -> (r: Result<usize, CallError>)
        ensures
            match r {
                Ok(i) => first_named(self.interface().exports, name@, i as int) && args_match(
                    args@,
                    self.interface().exports[i as int].params,
                ),
                Err(CallError::UnknownOperation(n)) => n@ == name@ && forall|j: int|
                    0 <= j < self.interface().exports.len() ==> #[trigger] self.interface().exports[j].name
                        != name@,
                Err(CallError::TypeMismatch) => exists|i: int|
                    first_named(self.interface().exports, name@, i) && !args_match(
                        args@,
                        self.interface().exports[i].params,
                    ),
                Err(_) => false,
            },
    {
        match self.find_export(name) {
            None => Err(CallError::UnknownOperation(name.clone())),
            Some(i) => {
                let sig = &self.artifact.interface().exports[i];
                assert(self.interface().exports[i as int] == sig@);
                if check_args(args, &sig.params) {
                    Ok(i)
                } else {
                    Err(CallError::TypeMismatch)
                }
            },
        }
    }

    /// Turns what the guest did in the exported operation at position `op`
    /// into the call's result: a returned value of the declared type comes
    /// back unchanged, one of another type is `TypeMismatch`; an error value
    /// is `GuestError` where the operation declares an error channel and a
    /// trap where it does not; a trap stays a trap.
    pub fn complete_call(&self, op: usize, outcome: GuestOutcome) -> (r: Result<Option<Value>, CallError>)
        requires
            op < self.interface().exports.len(),
        ensures
            ({
                let sig = self.interface().exports[op as int];
                match outcome {
                    GuestOutcome::Returned(v) => if result_matches(v, sig.result) {
                        r == Ok::<Option<Value>, CallError>(v)
                    } else {
                        r matches Err(CallError::TypeMismatch)
                    },
                    GuestOutcome::Failed(v) => if sig.fallible {
                        r == Err::<Option<Value>, CallError>(CallError::GuestError(v))
                    } else {
                        r == Err::<Option<Value>, CallError>(CallError::Trapped(Trap::UndeclaredError(v)))
                    },
                    GuestOutcome::Trapped(reason) => r == Err::<Option<Value>, CallError>(
                        CallError::Trapped(Trap::Fault(reason)),
                    ),
                }
            }),
    {
        let sig = &self.artifact.interface().exports[op];
        assert(self.interface().exports[op as int] == sig@);
        match outcome {
            GuestOutcome::Returned(v) => {
                if check_result(&v, &sig.result) {
                    Ok(v)
                } else {
                    Err(CallError::TypeMismatch)
                }
            },
            GuestOutcome::Failed(v) => {
                if sig.fallible {
                    Err(CallError::GuestError(v))
                } else {
                    Err(CallError::Trapped(Trap::UndeclaredError(v)))
                }
            },
            GuestOutcome::Trapped(reason) => Err(CallError::Trapped(Trap::Fault(reason))),
        }
    }
}

impl Linker {
    /// Resolves every import of the artifact and, where all resolve, builds
    /// the instance over the artifact and the context. The first import in
    /// declaration order that fails decides the error.
    pub fn instantiate(&self, artifact: Artifact, context: ExecutionContext) -> (r: Result<Instance, LinkError>)
        requires
            self.wf(),
        ensures
            match r {
                Ok(inst) => {
                    &&& inst.interface() == artifact@
                    &&& inst.ctx() == context
                    &&& plan_resolves(self@, artifact@.imports, inst.plan_spec())
                },
                Err(e) => first_import_error(self@, artifact@.imports, e@),
            },
            r is Ok <==> forall|k: int|
                0 <= k < artifact@.imports.len() ==> import_error(self@, #[trigger] artifact@.imports[k]) is None,
    {
        let decl = artifact.interface();
        let linked = self.link(&decl.imports);
        match linked {
            Ok(plan) => Ok(Instance { artifact, context, plan }),
            Err(e) => Err(e),
        }
    }
}

} // verus!
