use vstd::prelude::*;

verus! {

#[verifier::external_type_specification]
#[verifier::external_body]
pub struct ExResourceTable(wasmtime::component::ResourceTable);

/// The handles that are occupied in a resource table, whatever their type.
pub uninterp spec fn table_keys(t: wasmtime::component::ResourceTable) -> Set<u32>;

/// The entries of a resource table that hold a `u64`, by handle.
pub uninterp spec fn table_u64s(t: wasmtime::component::ResourceTable) -> Map<u32, u64>;

/// The most entries a resource table holds before it refuses new ones.
pub uninterp spec fn table_capacity(t: wasmtime::component::ResourceTable) -> nat;

/// The handles whose entries have child entries.
pub uninterp spec fn table_parents(t: wasmtime::component::ResourceTable) -> Set<u32>;

/// Why a resource-table operation failed.
#[derive(Clone, Copy, Debug, PartialEq, Eq, Structural)]
pub enum TableError {
    /// No free handle is left.
    Full,
    /// No resource stands under the handle.
    NotPresent,
    /// The resource under the handle is of another type.
    WrongType,
    /// The resource still has child resources.
    HasChildren,
}

/// Relies on wasmtime's `ResourceTable::new`: a table with no entries, no
/// parents, and the default capacity of a million entries.
#[verifier::external_body]
fn table_new() -> (r: wasmtime::component::ResourceTable)
    ensures
        table_keys(r) == Set::<u32>::empty(),
        table_u64s(r).dom() == Set::<u32>::empty(),
        table_parents(r) == Set::<u32>::empty(),
        table_capacity(r) == 1_000_000,
{
    wasmtime::component::ResourceTable::new()
}

/// Relies on wasmtime's `ResourceTable::push`: on success the value stands
/// under a handle that was free before; the only failure is a full table,
/// which leaves the table as it was and needs as many live entries as the
/// capacity. Parents and capacity are unchanged.
#[verifier::external_body]
fn table_push(t: &mut wasmtime::component::ResourceTable, value: u64) -> (r: Result<u32, TableError>)
    ensures
        table_keys(*old(t)).finite() && table_keys(*old(t)).len() < table_capacity(*old(t)) ==> r is Ok,
        table_capacity(*final(t)) == table_capacity(*old(t)),
        table_parents(*final(t)) == table_parents(*old(t)),
        match r {
            Ok(h) => {
                &&& !table_keys(*old(t)).contains(h)
                &&& table_keys(*final(t)) == table_keys(*old(t)).insert(h)
                &&& table_u64s(*final(t)) == table_u64s(*old(t)).insert(h, value)
            },
            Err(e) => {
                &&& e == TableError::Full
                &&& table_keys(*final(t)) == table_keys(*old(t))
                &&& table_u64s(*final(t)) == table_u64s(*old(t))
            },
        },
{
    match t.push(value) {
        Ok(res) => Ok(res.rep()),
        Err(wasmtime::component::ResourceTableError::Full) => Err(TableError::Full),
        Err(wasmtime::component::ResourceTableError::NotPresent) => Err(TableError::NotPresent),
        Err(wasmtime::component::ResourceTableError::WrongType) => Err(TableError::WrongType),
        Err(wasmtime::component::ResourceTableError::HasChildren) => Err(TableError::HasChildren),
    }
}

/// Relies on wasmtime's `ResourceTable::get`: a handle holding a `u64`
/// gives that value; an absent one is `NotPresent`.
#[verifier::external_body]
fn table_get(t: &wasmtime::component::ResourceTable, handle: u32) -> (r: Result<u64, TableError>)
    ensures
        match r {
            Ok(v) => table_u64s(*t).contains_key(handle) && v == table_u64s(*t)[handle],
            Err(e) => !table_u64s(*t).contains_key(handle) && (e == TableError::NotPresent
                <==> !table_keys(*t).contains(handle)),
        },
{
    match t.get(&wasmtime::component::Resource::<u64>::new_own(handle)) {
        Ok(v) => Ok(*v),
        Err(wasmtime::component::ResourceTableError::Full) => Err(TableError::Full),
        Err(wasmtime::component::ResourceTableError::NotPresent) => Err(TableError::NotPresent),
        Err(wasmtime::component::ResourceTableError::WrongType) => Err(TableError::WrongType),
        Err(wasmtime::component::ResourceTableError::HasChildren) => Err(TableError::HasChildren),
    }
}

/// Relies on wasmtime's `ResourceTable::delete`: an absent handle is
/// `NotPresent` and changes nothing; a `u64` entry without children is
/// freed and its value returned. No entry gains children, and the capacity
/// is unchanged.
#[verifier::external_body]
fn table_delete(t: &mut wasmtime::component::ResourceTable, handle: u32) -> (r: Result<u64, TableError>)
    ensures
        table_u64s(*old(t)).contains_key(handle) && !table_parents(*old(t)).contains(handle) ==> r is Ok,
        table_parents(*final(t)).subset_of(table_parents(*old(t))),
        table_capacity(*final(t)) == table_capacity(*old(t)),
        !table_keys(*old(t)).contains(handle) ==> {
            &&& r matches Err(TableError::NotPresent)
            &&& table_keys(*final(t)) == table_keys(*old(t))
            &&& table_u64s(*final(t)) == table_u64s(*old(t))
        },
        r matches Ok(v) ==> {
            &&& table_u64s(*old(t)).contains_key(handle)
            &&& v == table_u64s(*old(t))[handle]
            &&& table_keys(*final(t)) == table_keys(*old(t)).remove(handle)
            &&& table_u64s(*final(t)) == table_u64s(*old(t)).remove(handle)
        },
        r matches Err(TableError::HasChildren) ==> {
            &&& table_keys(*final(t)) == table_keys(*old(t))
            &&& table_u64s(*final(t)) == table_u64s(*old(t))
        },
        table_u64s(*old(t)).contains_key(handle) ==> (r is Ok || r matches Err(TableError::HasChildren)),
{
    match t.delete(wasmtime::component::Resource::<u64>::new_own(handle)) {
        Ok(v) => Ok(v),
        Err(wasmtime::component::ResourceTableError::Full) => Err(TableError::Full),
        Err(wasmtime::component::ResourceTableError::NotPresent) => Err(TableError::NotPresent),
        Err(wasmtime::component::ResourceTableError::WrongType) => Err(TableError::WrongType),
        Err(wasmtime::component::ResourceTableError::HasChildren) => Err(TableError::HasChildren),
    }
}

/// One successful table operation, as `insert_resource` and
/// `drop_resource` report it: the handle inserted or dropped.
pub enum TableStep {
    Inserted(u32),
    Dropped(u32),
}

/// The live handles after the steps, from `s`.
pub open spec fn replay(s: Set<u32>, steps: Seq<TableStep>) -> Set<u32>
    decreases steps.len(),
{
    if steps.len() == 0 {
        s
    } else {
        let before = replay(s, steps.drop_last());
        match steps.last() {
            TableStep::Inserted(h) => before.insert(h),
            TableStep::Dropped(h) => before.remove(h),
        }
    }
}

/// Each step is one that succeeds where it stands: an insert gets a handle
/// that is not live, a drop names one that is.
pub open spec fn steps_valid(s: Set<u32>, steps: Seq<TableStep>) -> bool
    decreases steps.len(),
{
    if steps.len() == 0 {
        true
    } else {
        let before = replay(s, steps.drop_last());
        &&& steps_valid(s, steps.drop_last())
        &&& match steps.last() {
            TableStep::Inserted(h) => !before.contains(h),
            TableStep::Dropped(h) => before.contains(h),
        }
    }
}

/// The number of inserts among the steps.
pub open spec fn inserts(steps: Seq<TableStep>) -> int
    decreases steps.len(),
{
    if steps.len() == 0 {
        0
    } else {
        inserts(steps.drop_last()) + if steps.last() is Inserted { 1int } else { 0int }
    }
}

/// The number of drops among the steps.
pub open spec fn drops(steps: Seq<TableStep>) -> int
    decreases steps.len(),
{
    if steps.len() == 0 {
        0
    } else {
        drops(steps.drop_last()) + if steps.last() is Dropped { 1int } else { 0int }
    }
}

/// A table that starts empty and goes through N inserts and M drops, each
/// succeeding, holds exactly N - M entries.
pub proof fn table_size_is_net_of_steps(steps: Seq<TableStep>)
    requires
        steps_valid(Set::<u32>::empty(), steps),
    ensures
        replay(Set::<u32>::empty(), steps).finite(),
        replay(Set::<u32>::empty(), steps).len() == inserts(steps) - drops(steps),
    decreases steps.len(),
{
    if steps.len() > 0 {
        table_size_is_net_of_steps(steps.drop_last());
    }
}

/// Two consecutive handle sets of a context are related by the step, as
/// a successful `insert_resource` or `drop_resource` relates them.
pub open spec fn step_holds(before: Set<u32>, after: Set<u32>, st: TableStep) -> bool {
    match st {
        TableStep::Inserted(h) => !before.contains(h) && after == before.insert(h),
        TableStep::Dropped(h) => before.contains(h) && after == before.remove(h),
    }
}

proof fn history_replays(states: Seq<Set<u32>>, steps: Seq<TableStep>, k: int)
    requires
        states.len() == steps.len() + 1,
        states[0] == Set::<u32>::empty(),
        forall|i: int| 0 <= i < steps.len() ==> step_holds(states[i], states[i + 1], #[trigger] steps[i]),
        0 <= k <= steps.len(),
    ensures
        states[k] == replay(Set::<u32>::empty(), steps.take(k)),
        steps_valid(Set::<u32>::empty(), steps.take(k)),
    decreases k,
{
    if k > 0 {
        history_replays(states, steps, k - 1);
        assert(steps.take(k).drop_last() =~= steps.take(k - 1));
        assert(steps.take(k).last() == steps[k - 1]);
        assert(step_holds(states[k - 1], states[k], steps[k - 1]));
    } else {
        assert(steps.take(0) =~= Seq::<TableStep>::empty());
    }
}

/// The handle sets that a context goes through, from fresh, under a
/// history of successful inserts and drops: the last holds exactly as many
/// entries as there were inserts minus drops.
pub proof fn context_size_is_net_of_history(states: Seq<Set<u32>>, steps: Seq<TableStep>)
    requires
        states.len() == steps.len() + 1,
        states[0] == Set::<u32>::empty(),
        forall|i: int| 0 <= i < steps.len() ==> step_holds(states[i], states[i + 1], #[trigger] steps[i]),
    ensures
        states.last().finite(),
        states.last().len() == inserts(steps) - drops(steps),
{
    history_replays(states, steps, steps.len() as int);
    assert(steps.take(steps.len() as int) =~= steps);
    table_size_is_net_of_steps(steps);
}

/// Which clock the guest may read.
#[derive(Clone, Copy, Debug, PartialEq, Eq, Structural)]
pub enum ClockAccess {
    Denied,
    RealTime,
    Monotonic,
}

/// The real-world effects granted to a guest. Each option governs one class
/// of effect; the default grants none.
#[derive(Debug)]
pub struct EffectConfig {
    pub inherit_stdio: bool,
    pub preopened_dirs: Vec<String>,
    pub env_passthrough: bool,
    pub clock_access: ClockAccess,
}

impl EffectConfig {
    /// The configuration that grants no effect at all.
    pub fn deny_all() -> (r: EffectConfig)
        ensures
            !r.inherit_stdio,
            r.preopened_dirs@.len() == 0,
            !r.env_passthrough,
            r.clock_access == ClockAccess::Denied,
    {
        EffectConfig {
            inherit_stdio: false,
            preopened_dirs: Vec::new(),
            env_passthrough: false,
            clock_access: ClockAccess::Denied,
        }
    }
}

/// Per-instance state: the granted effects and the table of resources the
/// guest refers to by handle, with the number of live entries.
pub struct ExecutionContext {
    effects: EffectConfig,
    table: wasmtime::component::ResourceTable,
    live: usize,
}

impl ExecutionContext {
    /// The live resources, by handle.
    pub closed spec fn resources(&self) -> Map<u32, u64> {
        table_u64s(self.table)
    }

    /// The handles that are live in the context's table.
    pub open spec fn handles(&self) -> Set<u32> {
        self.resources().dom()
    }

    /// Every entry of the table is one of this context's values, and the
    /// live count agrees with the table.
    pub closed spec fn wf(&self) -> bool {
        &&& table_keys(self.table) == table_u64s(self.table).dom()
        &&& table_u64s(self.table).dom().finite()
        &&& self.live as int == table_u64s(self.table).dom().len()
        &&& table_parents(self.table) == Set::<u32>::empty()
        &&& table_capacity(self.table) == 1_000_000
    }

    pub closed spec fn effects_spec(&self) -> EffectConfig {
        self.effects
    }

    /// A fresh context with the given effects and an empty table.
    pub fn new(effects: EffectConfig) -> (r: ExecutionContext)
        ensures
            r.wf(),
            r.resources() == Map::<u32, u64>::empty(),
            r.handles() == Set::<u32>::empty(),
            r.effects_spec() == effects,
    {
        let r = ExecutionContext { effects, table: table_new(), live: 0 };
        assert(r.resources() =~= Map::<u32, u64>::empty());
        r
    }

    /// The effects granted to the guest.
    pub fn effects(&self) -> (r: &EffectConfig)
        ensures
            *r == self.effects_spec(),
    {
        &self.effects
    }

    /// The number of live entries in the table.
    pub fn resource_count(&self) -> (r: usize)
        requires
            self.wf(),
        ensures
            r as int == self.handles().len(),
    {
        self.live
    }

    /// Inserts a host-side value and returns the fresh handle that stands for
    /// it. A table already holding a million entries is full: it refuses and
    /// is left unchanged.
    pub fn insert_resource(&mut self, value: u64) -> (r: Result<u32, TableError>)
        requires
            old(self).wf(),
        ensures
            final(self).wf(),
            final(self).effects_spec() == old(self).effects_spec(),
            old(self).handles().len() < 1_000_000 ==> r is Ok,
            r matches Ok(h) ==> step_holds(old(self).handles(), final(self).handles(), TableStep::Inserted(h)),
            match r {
                Ok(h) => !old(self).handles().contains(h) && final(self).resources() == old(
                    self,
                ).resources().insert(h, value),
                Err(e) => e == TableError::Full && final(self).resources() == old(self).resources(),
            },
    {
        if self.live == usize::MAX {
            return Err(TableError::Full);
        }
        let r = table_push(&mut self.table, value);
        if r.is_ok() {
            self.live = self.live + 1;
        }
        assert(r matches Ok(h) ==> self.handles() =~= old(self).handles().insert(h));
        r
    }

    /// The value under a handle; an unknown or stale handle is `NotPresent`.
    pub fn get_resource(&self, handle: u32) -> (r: Result<u64, TableError>)
        requires
            self.wf(),
        ensures
            r == if self.resources().contains_key(handle) {
                Ok::<u64, TableError>(self.resources()[handle])
            } else {
                Err::<u64, TableError>(TableError::NotPresent)
            },
    {
        table_get(&self.table, handle)
    }

    /// Drops the resource under a handle and returns its value. An unknown
    /// or stale handle is `NotPresent` and changes nothing.
    pub fn drop_resource(&mut self, handle: u32) -> (r: Result<u64, TableError>)
        requires
            old(self).wf(),
        ensures
            final(self).wf(),
            final(self).effects_spec() == old(self).effects_spec(),
            r is Ok ==> step_holds(old(self).handles(), final(self).handles(), TableStep::Dropped(handle)),
            old(self).resources().contains_key(handle) ==> {
                &&& r == Ok::<u64, TableError>(old(self).resources()[handle])
                &&& final(self).resources() == old(self).resources().remove(handle)
            },
            !old(self).resources().contains_key(handle) ==> {
                &&& r == Err::<u64, TableError>(TableError::NotPresent)
                &&& final(self).resources() == old(self).resources()
            },
    {
        let r = table_delete(&mut self.table, handle);
        assert(table_parents(self.table) =~= Set::<u32>::empty());
        if r.is_ok() {
            self.live = self.live - 1;
        }
        assert(r is Ok ==> self.handles() =~= old(self).handles().remove(handle));
        r
    }
}

} // verus!
