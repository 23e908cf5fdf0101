use vstd::prelude::*;
use vstd::string::StrSliceExecFns;
use crate::types::{Signature, SignatureView};
use crate::engine::{Artifact, ImportDecl, ImportView, sigs_view};
use crate::context::ExecutionContext;

verus! {

/// A host capability registered against one imported interface: the
/// interface's name and the operations the host implements for it.
pub struct Binding {
    pub interface: String,
    pub operations: Vec<Signature>,
}

impl View for Binding {
    type V = ImportView;

    open spec fn view(&self) -> ImportView {
        ImportView { name: self.interface@, operations: sigs_view(self.operations@) }
    }
}

/// How one import is satisfied.
#[derive(Clone, Copy, Debug, PartialEq, Eq, Structural)]
pub enum Resolution {
    /// By the registered binding at this position.
    Bound(usize),
    /// By the runtime's standard effect bindings.
    RuntimeEffects,
}

/// Why linking or registration failed.
#[derive(Debug, PartialEq, Eq)]
pub enum LinkError {
    /// No binding satisfies the named import.
    UnsatisfiedImport(String),
    /// The binding registered for the named import does not provide one of
    /// its operations with the declared signature.
    SignatureMismatch(String),
    /// The named interface already has a binding on this linker.
    DuplicateBinding(String),
    /// The runtime's effect bindings were already wired into this linker.
    DuplicateRuntimeEffects,
}

pub enum LinkErrorView {
    UnsatisfiedImport(Seq<char>),
    SignatureMismatch(Seq<char>),
    DuplicateBinding(Seq<char>),
    DuplicateRuntimeEffects,
}

impl View for LinkError {
    type V = LinkErrorView;

    open spec fn view(&self) -> LinkErrorView {
        match self {
            LinkError::UnsatisfiedImport(n) => LinkErrorView::UnsatisfiedImport(n@),
            LinkError::SignatureMismatch(n) => LinkErrorView::SignatureMismatch(n@),
            LinkError::DuplicateBinding(n) => LinkErrorView::DuplicateBinding(n@),
            LinkError::DuplicateRuntimeEffects => LinkErrorView::DuplicateRuntimeEffects,
        }
    }
}

pub struct LinkerView {
    pub bindings: Seq<ImportView>,
    pub runtime_effects: bool,
}

/// Interfaces named `wasi:...` are the runtime's standard effects.
pub open spec fn is_effect_interface(n: Seq<char>) -> bool {
    n.len() >= 5 && n[0] == 'w' && n[1] == 'a' && n[2] == 's' && n[3] == 'i' && n[4] == ':'
}

/// The binding provides every declared operation with its exact signature.
pub open spec fn provides(b: ImportView, imp: ImportView) -> bool {
    forall|k: int| 0 <= k < imp.operations.len() ==> offered(b, #[trigger] imp.operations[k])
}

/// The binding has an operation identical to the signature.
pub open spec fn offered(b: ImportView, s: SignatureView) -> bool {
    exists|m: int| 0 <= m < b.operations.len() && b.operations[m] == s
}

/// Some binding of the linker carries the name.
pub open spec fn has_binding(l: LinkerView, name: Seq<char>) -> bool {
    exists|i: int| 0 <= i < l.bindings.len() && #[trigger] l.bindings[i].name == name
}

/// The failure that one import meets on the linker, if any.
pub open spec fn import_error(l: LinkerView, imp: ImportView) -> Option<LinkErrorView> {
    if is_effect_interface(imp.name) {
        if l.runtime_effects {
            None
        } else {
            Some(LinkErrorView::UnsatisfiedImport(imp.name))
        }
    } else if has_binding(l, imp.name) {
        let i = choose|i: int| 0 <= i < l.bindings.len() && #[trigger] l.bindings[i].name == imp.name;
        if provides(l.bindings[i], imp) {
            None
        } else {
            Some(LinkErrorView::SignatureMismatch(imp.name))
        }
    } else {
        Some(LinkErrorView::UnsatisfiedImport(imp.name))
    }
}

/// The resolution satisfies the import on the linker.
pub open spec fn resolves(l: LinkerView, imp: ImportView, r: Resolution) -> bool {
    if is_effect_interface(imp.name) {
        l.runtime_effects && r == Resolution::RuntimeEffects
    } else {
        match r {
            Resolution::Bound(i) => i < l.bindings.len() && l.bindings[i as int].name == imp.name
                && provides(l.bindings[i as int], imp),
            Resolution::RuntimeEffects => false,
        }
    }
}

/// Every import resolves, and the plan says how, import by import.
pub open spec fn plan_resolves(l: LinkerView, imports: Seq<ImportView>, plan: Seq<Resolution>) -> bool {
    &&& plan.len() == imports.len()
    &&& forall|k: int| 0 <= k < imports.len() ==> resolves(l, imports[k], #[trigger] plan[k])
}

/// The failure of linking the imports in declaration order: that of the
/// first import that fails.
pub open spec fn first_import_error(l: LinkerView, imports: Seq<ImportView>, e: LinkErrorView) -> bool {
    exists|k: int|
        0 <= k < imports.len() && import_error(l, #[trigger] imports[k]) == Some(e) && forall|j: int|
            0 <= j < k ==> import_error(l, #[trigger] imports[j]) is None
}

/// A set of capability bindings, keyed by interface name, plus whether the
/// runtime's effect bindings are wired in.
pub struct Linker {
    bindings: Vec<Binding>,
    runtime_effects: bool,
}

impl View for Linker {
    type V = LinkerView;

    closed spec fn view(&self) -> LinkerView {
        LinkerView {
            bindings: self.bindings@.map_values(|b: Binding| b@),
            runtime_effects: self.runtime_effects,
        }
    }
}

/// Whether the name is that of a standard effect interface.
pub fn effect_interface(name: &String) -> (r: bool)
    ensures
        r == is_effect_interface(name@),
{
    let s = name.as_str();
    let n = s.unicode_len();
    n >= 5 && s.get_char(0) == 'w' && s.get_char(1) == 'a' && s.get_char(2) == 's'
        && s.get_char(3) == 'i' && s.get_char(4) == ':'
}

/// The import is satisfied on the linker: by the runtime effects where it is
/// an effect interface, else by a binding of its name that provides it.
pub open spec fn satisfied_by(l: LinkerView, imp: ImportView) -> bool {
    if is_effect_interface(imp.name) {
        l.runtime_effects
    } else {
        exists|i: int| 0 <= i < l.bindings.len() && #[trigger] l.bindings[i].name == imp.name && provides(l.bindings[i], imp)
    }
}

/// No binding and no runtime effect answers the import.
pub open spec fn unresolved(l: LinkerView, imp: ImportView) -> bool {
    if is_effect_interface(imp.name) {
        !l.runtime_effects
    } else {
        !has_binding(l, imp.name)
    }
}

/// Where every import is satisfied by the registered bindings and effects,
/// no import fails, so linking and instantiation succeed.
pub proof fn satisfied_imports_all_resolve(l: LinkerView, imports: Seq<ImportView>)
    requires
        binding_names_unique(l),
        forall|k: int| 0 <= k < imports.len() ==> satisfied_by(l, #[trigger] imports[k]),
    ensures
        forall|k: int| 0 <= k < imports.len() ==> import_error(l, #[trigger] imports[k]) is None,
{
    assert forall|k: int| 0 <= k < imports.len() implies import_error(l, #[trigger] imports[k]) is None by {
        let imp = imports[k];
        assert(satisfied_by(l, imp));
        if !is_effect_interface(imp.name) {
            let i = choose|i: int| 0 <= i < l.bindings.len() && #[trigger] l.bindings[i].name == imp.name && provides(l.bindings[i], imp);
            assert(has_binding(l, imp.name));
            let c = choose|c: int| 0 <= c < l.bindings.len() && #[trigger] l.bindings[c].name == imp.name;
            assert(l.bindings[c].name == l.bindings[i].name);
        }
    }
}

/// Where an import is unresolved and every import before it is satisfied,
/// linking fails with `UnsatisfiedImport` naming that import.
pub proof fn unresolved_import_is_named(l: LinkerView, imports: Seq<ImportView>, k: int)
    requires
        binding_names_unique(l),
        0 <= k < imports.len(),
        unresolved(l, imports[k]),
        forall|j: int| 0 <= j < k ==> satisfied_by(l, #[trigger] imports[j]),
    ensures
        first_import_error(l, imports, LinkErrorView::UnsatisfiedImport(imports[k].name)),
        exists|j: int| 0 <= j < imports.len() && import_error(l, #[trigger] imports[j]) is Some,
{
    satisfied_imports_all_resolve(l, imports.subrange(0, k));
    assert forall|j: int| 0 <= j < k implies import_error(l, #[trigger] imports[j]) is None by {
        assert(imports.subrange(0, k)[j] == imports[j]);
    }
    assert(import_error(l, imports[k]) == Some(LinkErrorView::UnsatisfiedImport(imports[k].name)));
}

/// No two bindings of the view share an interface name.
pub open spec fn binding_names_unique(l: LinkerView) -> bool {
    forall|i: int, j: int|
        0 <= i < l.bindings.len() && 0 <= j < l.bindings.len() && #[trigger] l.bindings[i].name
            == #[trigger] l.bindings[j].name ==> i == j
}

/// Whether the binding offers an operation identical to `sig`.
fn offers(b: &Binding, sig: &Signature) -> (r: bool)
    ensures
        r == offered(b@, sig@),
{
    let mut m: usize = 0;
    while m < b.operations.len()
        invariant
            m <= b.operations@.len(),
            forall|x: int| 0 <= x < m ==> b@.operations[x] != sig@,
        decreases b.operations@.len() - m,
    {
        if b.operations[m].same_as(sig) {
            assert(b@.operations[m as int] == b.operations@[m as int]@);
            return true;
        }
        m = m + 1;
    }
    false
}

/// Whether the binding provides every operation the import declares.
fn provides_all(b: &Binding, imp: &ImportDecl) -> (r: bool)
    ensures
        r == provides(b@, imp@),
{
    let mut k: usize = 0;
    while k < imp.operations.len()
        invariant
            k <= imp.operations@.len(),
            forall|x: int| 0 <= x < k ==> offered(b@, #[trigger] imp@.operations[x]),
        decreases imp.operations@.len() - k,
    {
        assert(imp@.operations[k as int] == imp.operations@[k as int]@);
        if !offers(b, &imp.operations[k]) {
            return false;
        }
        k = k + 1;
    }
    assert(imp@.operations.len() == imp.operations@.len());
    true
}

impl Linker {
    /// Binding names are unique.
    pub open spec fn wf(&self) -> bool {
        binding_names_unique(self@)
    }

    /// A linker with no bindings and no runtime effects.
    pub fn new() -> (r: Linker)
        ensures
            r.wf(),
            r@.bindings.len() == 0,
            !r@.runtime_effects,
    {
        let r = Linker { bindings: Vec::new(), runtime_effects: false };
        assert(r@.bindings =~= Seq::<ImportView>::empty());
        r
    }

    /// The position of the binding with the given interface name.
    fn find_binding(&self, name: &String) -> (r: Option<usize>)
        ensures
            match r {
                Some(i) => i < self@.bindings.len() && self@.bindings[i as int].name == name@,
                None => !has_binding(self@, name@),
            },
    {
        let mut i: usize = 0;
        while i < self.bindings.len()
            invariant
                i <= self.bindings@.len(),
                forall|x: int| 0 <= x < i ==> self@.bindings[x].name != name@,
            decreases self.bindings@.len() - i,
        {
            if self.bindings[i].interface == *name {
                return Some(i);
            }
            i = i + 1;
        }
        None
    }

    /// Registers a binding. An interface that already has one is refused with
    /// `DuplicateBinding`, and the linker is left as it was.
    pub fn register(&mut self, binding: Binding) -> (r: Result<(), LinkError>)
        requires
            old(self).wf(),
        ensures
            final(self).wf(),
            has_binding(old(self)@, binding@.name) ==> {
                &&& r matches Err(e) && e@ == LinkErrorView::DuplicateBinding(binding@.name)
                &&& final(self)@ == old(self)@
            },
            !has_binding(old(self)@, binding@.name) ==> {
                &&& r is Ok
                &&& final(self)@.bindings == old(self)@.bindings.push(binding@)
                &&& final(self)@.runtime_effects == old(self)@.runtime_effects
            },
    {
        match self.find_binding(&binding.interface) {
            Some(_) => Err(LinkError::DuplicateBinding(binding.interface)),
            None => {
                let ghost before = self@;
                self.bindings.push(binding);
                assert(self@.bindings =~= before.bindings.push(binding@));
                Ok(())
            },
        }
    }

    /// Wires in the runtime's standard effect bindings; a second time is
    /// refused and changes nothing.
    pub fn register_runtime_effects(&mut self) -> (r: Result<(), LinkError>)
        requires
            old(self).wf(),
        ensures
            final(self).wf(),
            final(self)@.bindings == old(self)@.bindings,
            final(self)@.runtime_effects,
            old(self)@.runtime_effects <==> r matches Err(LinkError::DuplicateRuntimeEffects),
            !old(self)@.runtime_effects <==> r is Ok,
    {
        if self.runtime_effects {
            Err(LinkError::DuplicateRuntimeEffects)
        } else {
            let ghost before = self@;
            self.runtime_effects = true;
            assert(self@.bindings == before.bindings);
            Ok(())
        }
    }

    /// Resolves one import, or names why it cannot be.
    pub fn resolve_import(&self, imp: &ImportDecl) -> (r: Result<Resolution, LinkError>)
        requires
            self.wf(),
        ensures
            match r {
                Ok(res) => import_error(self@, imp@) is None && resolves(self@, imp@, res),
                Err(e) => import_error(self@, imp@) == Some(e@),
            },
    {
        if effect_interface(&imp.name) {
            if self.runtime_effects {
                Ok(Resolution::RuntimeEffects)
            } else {
                Err(LinkError::UnsatisfiedImport(imp.name.clone()))
            }
        } else {
            match self.find_binding(&imp.name) {
                None => Err(LinkError::UnsatisfiedImport(imp.name.clone())),
                Some(i) => {
                    let ghost c = choose|c: int|
                        0 <= c < self@.bindings.len() && #[trigger] self@.bindings[c].name == imp@.name;
                    assert(self@.bindings[i as int].name == imp@.name);
                    assert(c == i);
                    assert(self@.bindings[i as int] == self.bindings@[i as int]@);
                    if provides_all(&self.bindings[i], imp) {
                        Ok(Resolution::Bound(i))
                    } else {
                        Err(LinkError::SignatureMismatch(imp.name.clone()))
                    }
                },
            }
        }
    }

    /// Resolves every import in declaration order into a link plan; the
    /// first import that fails decides the error.
    pub fn link(&self, imports: &Vec<ImportDecl>) -> (r: Result<Vec<Resolution>, LinkError>)
        requires
            self.wf(),
        ensures
            match r {
                Ok(plan) => plan_resolves(self@, imports@.map_values(|d: ImportDecl| d@), plan@),
                Err(e) => first_import_error(self@, imports@.map_values(|d: ImportDecl| d@), e@),
            },
            r is Ok <==> forall|k: int|
                0 <= k < imports@.len() ==> import_error(self@, #[trigger] imports@[k]@) is None,
    {
        let ghost iv = imports@.map_values(|d: ImportDecl| d@);
        let mut plan: Vec<Resolution> = Vec::new();
        let mut k: usize = 0;
        while k < imports.len()
            invariant
                self.wf(),
                iv == imports@.map_values(|d: ImportDecl| d@),
                k <= imports@.len(),
                plan@.len() == k,
                forall|x: int| 0 <= x < k ==> resolves(self@, iv[x], #[trigger] plan@[x]),
                forall|x: int| 0 <= x < k ==> import_error(self@, #[trigger] iv[x]) is None,
            decreases imports@.len() - k,
        {
            match self.resolve_import(&imports[k]) {
                Ok(res) => {
                    plan.push(res);
                },
                Err(e) => {
                    assert(iv[k as int] == imports@[k as int]@);
                    assert(import_error(self@, iv[k as int]) == Some(e@));
                    return Err(e);
                },
            }
            k = k + 1;
        }
        assert forall|x: int| 0 <= x < imports@.len() implies import_error(
            self@,
            #[trigger] imports@[x]@,
        ) is None by {
            assert(iv[x] == imports@[x]@);
        }
        Ok(plan)
    }
}

} // verus!
