//! The module registry: the one-time setup that makes every function adapter
//! visible to the host under its fixed name, and the per-call dispatch from a
//! name to its adapter.
//!
//! Registration is modelled as a state machine
//! `Uninitialized -> Initializing -> Ready | Failed`, with `Ready` and
//! `Failed` terminal within a process lifetime. A second call of the
//! load-time entry point on a `Ready` registry is a no-op; a re-entrant call
//! (registry still `Initializing`) and a call after a failed registration are
//! rejected without touching the namespace.

use vstd::prelude::*;
use vstd::string::StringExecFns;

use crate::adapter::greet_adapter;
use crate::adapter::greet_adapter_result;
use crate::value::CallError;
use crate::value::SetupError;
use crate::value::Value;

verus! {

/// Identifies one native function that the module exports.
#[derive(Debug, Clone, Copy, PartialEq, Eq, Structural)]
pub enum ExportId {
    /// The greeting function, exported as `"greet"`.
    Greet,
}

/// One exported function entry: a (name, adapter) pair. Within a module's
/// namespace no two entries share a name.
#[derive(Debug, Clone, PartialEq)]
pub struct Entry {
    pub name: String,
    pub func: ExportId,
}

/// The module namespace the host sees after loading: the exported entries, in
/// attachment order.
#[derive(Debug, Clone, PartialEq)]
pub struct Module {
    pub entries: Vec<Entry>,
}

/// The phase of the one-time registration, per process.
#[derive(Debug, Clone, Copy, PartialEq, Eq, Structural)]
pub enum RegistryState {
    Uninitialized,
    Initializing,
    Ready,
    Failed,
}

/// Guards the load-time entry point against running more than once.
#[derive(Debug, Clone, Copy, PartialEq, Eq, Structural)]
pub struct Registry {
    pub state: RegistryState,
}

/// The first entry of `ns` whose name is `name`, if any.
pub open spec fn ns_lookup(ns: Seq<(Seq<char>, ExportId)>, name: Seq<char>) -> Option<ExportId>
    decreases ns.len(),
{
    if ns.len() == 0 {
        None
    } else if ns[0].0 == name {
        Some(ns[0].1)
    } else {
        ns_lookup(ns.drop_first(), name)
    }
}

/// A lookup misses exactly when no entry bears the name.
pub proof fn lemma_ns_lookup_none_iff_absent(ns: Seq<(Seq<char>, ExportId)>, name: Seq<char>)
    ensures
        (ns_lookup(ns, name) is None) <==> (forall|i: int| 0 <= i < ns.len() ==> ns[i].0 != name),
    decreases ns.len(),
{
    if ns.len() > 0 {
        lemma_ns_lookup_none_iff_absent(ns.drop_first(), name);
        assert(forall|i: int|
            1 <= i < ns.len() ==> ns.drop_first()[i - 1] == ns[i]);
    }
}

/// The namespace the module declares: each export's name with its adapter.
pub open spec fn exported_namespace() -> Seq<(Seq<char>, ExportId)> {
    seq![("greet"@, ExportId::Greet)]
}

/// The registration step the load-time entry point performs, as a transition
/// on (registry state, namespace): from `Uninitialized` it attaches every
/// declared export and reaches `Ready`, or `Failed` if a declared name is
/// already taken; from any other state it leaves both unchanged, succeeding
/// only on `Ready`. The third component tells whether the step reports
/// success.
pub open spec fn init_step(s: RegistryState, ns: Seq<(Seq<char>, ExportId)>) -> (
    RegistryState,
    Seq<(Seq<char>, ExportId)>,
    bool,
) {
    match s {
        RegistryState::Uninitialized => if ns_lookup(ns, "greet"@) is None {
            (RegistryState::Ready, ns.push(("greet"@, ExportId::Greet)), true)
        } else {
            (RegistryState::Failed, ns, false)
        },
        RegistryState::Initializing => (RegistryState::Initializing, ns, false),
        RegistryState::Ready => (RegistryState::Ready, ns, true),
        RegistryState::Failed => (RegistryState::Failed, ns, false),
    }
}

/// The load-time entry point is idempotent on the registry state and the
/// namespace: whatever state a first registration step leaves behind, a
/// second step leaves that state and namespace unchanged.
pub proof fn lemma_init_step_idempotent(s: RegistryState, ns: Seq<(Seq<char>, ExportId)>)
    ensures
        init_step(init_step(s, ns).0, init_step(s, ns).1).0 == init_step(s, ns).0,
        init_step(init_step(s, ns).0, init_step(s, ns).1).1 == init_step(s, ns).1,
{
}

impl Registry {
    /// A fresh per-process registry: nothing registered yet.
    pub fn new() -> (r: Registry)
        ensures
            r.state == RegistryState::Uninitialized,
    {
        Registry { state: RegistryState::Uninitialized }
    }
}

impl Module {
    /// The namespace as the contracts see it: each entry's name with its
    /// adapter, in attachment order.
    pub open spec fn namespace(self) -> Seq<(Seq<char>, ExportId)> {
        self.entries@.map(|i: int, e: Entry| (e.name@, e.func))
    }

    /// The namespace invariant: no two entries share a name.
    pub open spec fn wf(self) -> bool {
        forall|i: int, j: int|
            0 <= i < j < self.namespace().len() ==> self.namespace()[i].0
                != self.namespace()[j].0
    }

    /// A not-yet-populated module namespace, as the host hands it to the
    /// load-time entry point.
    pub fn new() -> (m: Module)
        ensures
            m.namespace() == Seq::<(Seq<char>, ExportId)>::empty(),
            m.wf(),
    {
        let m = Module { entries: Vec::new() };
        proof {
            assert(m.namespace() =~= Seq::<(Seq<char>, ExportId)>::empty());
        }
        m
    }

    /// Finds the adapter exported under `name`, if any.
    pub fn lookup(&self, name: &String) -> (r: Option<ExportId>)
        ensures
            r == ns_lookup(self.namespace(), name@),
    {
        let ghost ns = self.namespace();
        proof {
            assert(ns.skip(0) =~= ns);
        }
        let mut i: usize = 0;
        while i < self.entries.len()
            invariant
                0 <= i <= self.entries.len(),
                ns == self.namespace(),
                ns.len() == self.entries@.len(),
                ns_lookup(ns.skip(i as int), name@) == ns_lookup(ns, name@),
            decreases self.entries.len() - i,
        {
            let hit = self.entries[i].name == *name;
            proof {
                assert(ns[i as int] == (self.entries@[i as int].name@, self.entries@[i as int].func));
                assert(ns.skip(i as int)[0] == ns[i as int]);
            }
            if hit {
                return Some(self.entries[i].func);
            }
            proof {
                assert(ns.skip(i as int).drop_first() =~= ns.skip(i as int + 1));
            }
            i = i + 1;
        }
        proof {
            assert(ns.skip(i as int) =~= Seq::<(Seq<char>, ExportId)>::empty());
        }
        None
    }

    /// Attaches one exported function entry under `name`. Succeeds exactly
    /// when the name is still free; a duplicate name is a registration error
    /// and leaves the namespace unchanged.
    pub fn attach(&mut self, name: String, func: ExportId) -> (r: Result<(), SetupError>)
        ensures
            (r is Ok) == (ns_lookup(old(self).namespace(), name@) is None),
            r is Ok ==> final(self).namespace() == old(self).namespace().push((name@, func)),
            r is Ok && old(self).wf() ==> final(self).wf(),
            r is Err ==> *final(self) == *old(self),
            r is Err ==> (r matches Err(SetupError::DuplicateName(n)) && n@ == name@),
    {
        match self.lookup(&name) {
            Some(_) => Err(SetupError::DuplicateName(name)),
            None => {
                let ghost pre = self.namespace();
                let ghost nv = name@;
                self.entries.push(Entry { name, func });
                proof {
                    assert(self.namespace() =~= pre.push((nv, func)));
                    lemma_ns_lookup_none_iff_absent(pre, nv);
                }
                Ok(())
            },
        }
    }

    /// Invokes the entry exported under `name` with one positional boundary
    /// value. Returns `None` exactly when no entry bears the name; otherwise
    /// the named adapter's result.
    pub fn call(&self, name: &String, arg: &Value) -> (r: Option<Result<Value, CallError>>)
        ensures
            (r is Some) == (ns_lookup(self.namespace(), name@) is Some),
            (ns_lookup(self.namespace(), name@) == Some(ExportId::Greet)) ==> (r matches Some(res)
                && greet_adapter_result(*arg, res)),
    {
        match self.lookup(name) {
            Some(ExportId::Greet) => Some(greet_adapter(arg)),
            None => None,
        }
    }
}

/// The load-time entry point: invoked by the host with the not-yet-populated
/// module namespace, it attaches every declared adapter under its fixed name
/// and moves the registry to `Ready`, or to `Failed` if any attachment
/// fails — a partial registration is never reported as `Ready`.
///
/// Calling it again once the registry is `Ready` is a deterministic no-op
/// that reports success; a re-entrant call or a call after a failed
/// registration reports a setup error and changes nothing.
pub fn initialize(reg: &mut Registry, m: &mut Module) -> (r: Result<(), SetupError>)
    ensures
        final(reg).state == init_step(old(reg).state, old(m).namespace()).0,
        final(m).namespace() == init_step(old(reg).state, old(m).namespace()).1,
        (r is Ok) == init_step(old(reg).state, old(m).namespace()).2,
        old(m).wf() ==> final(m).wf(),
        old(reg).state != RegistryState::Uninitialized ==> *final(m) == *old(m),
        old(reg).state == RegistryState::Uninitialized && r is Err ==> (*final(m) == *old(m) && (
        r matches Err(SetupError::DuplicateName(n)) && n@ == "greet"@)),
        old(reg).state != RegistryState::Uninitialized && r is Err ==> r == Err::<
            (),
            SetupError,
        >(SetupError::Unavailable),
        (old(reg).state == RegistryState::Uninitialized && old(m).namespace() == Seq::<
            (Seq<char>, ExportId),
        >::empty()) ==> (r is Ok && final(m).namespace() == exported_namespace() && ns_lookup(
            final(m).namespace(),
            "greet"@,
        ) == Some(ExportId::Greet)),
{
    match reg.state {
        RegistryState::Uninitialized => {
            reg.state = RegistryState::Initializing;
            let name = String::from_str("greet");
            match m.attach(name, ExportId::Greet) {
                Ok(()) => {
                    reg.state = RegistryState::Ready;
                    proof {
                        if old(m).namespace() == Seq::<(Seq<char>, ExportId)>::empty() {
                            assert(m.namespace() =~= exported_namespace());
                        }
                    }
                    Ok(())
                },
                Err(e) => {
                    reg.state = RegistryState::Failed;
                    Err(e)
                },
            }
        },
        RegistryState::Initializing => Err(SetupError::Unavailable),
        RegistryState::Ready => Ok(()),
        RegistryState::Failed => Err(SetupError::Unavailable),
    }
}

} // verus!
