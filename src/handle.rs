//! Ownership of the engine's module and instance handles.
//!
//! A handle is the address the engine gave out, held as an integer; zero is
//! the null handle. The types here own one handle each, cannot be copied, and
//! hand it back only as the single engine call that releases it. Their caller
//! performs those calls.
use vstd::prelude::*;
use crate::value::Value;

verus! {

/// A call that the engine must be given next.
#[derive(Debug)]
pub enum EngineCall {
    /// Free a parsed module that was never instantiated.
    FreeModule { module: usize },
    /// Instantiate a module; the engine takes the module over whatever the
    /// outcome.
    Instantiate { module: usize, import_count: usize },
    /// Free an instance.
    FreeInstance { instance: usize },
    /// Call function `func_idx` of an instance with the argument bit patterns.
    Execute { instance: usize, func_idx: u32, args: Vec<u64> },
}

pub open spec fn free_module_call(module: usize) -> EngineCall {
    EngineCall::FreeModule { module }
}

pub open spec fn instantiate_call(module: usize) -> EngineCall {
    EngineCall::Instantiate { module, import_count: 0 }
}

pub open spec fn free_instance_call(instance: usize) -> EngineCall {
    EngineCall::FreeInstance { instance }
}

/// `c` calls function `func_idx` of `instance` with the bits of `args`.
pub open spec fn is_execute_call(c: EngineCall, instance: usize, func_idx: u32, args: Seq<Value>) -> bool {
    match c {
        EngineCall::Execute { instance: i, func_idx: f, args: a } => {
            &&& i == instance
            &&& f == func_idx
            &&& a@.len() == args.len()
            &&& forall|k: int| 0 <= k < args.len() ==> a@[k] == args[k]@
        },
        _ => false,
    }
}

/// `c` ends the host's ownership of module `h`: it frees it, or hands it to
/// the engine to instantiate.
pub open spec fn releases_module(c: EngineCall, h: usize) -> bool {
    match c {
        EngineCall::FreeModule { module } => module == h,
        EngineCall::Instantiate { module, .. } => module == h,
        _ => false,
    }
}

/// `c` frees instance `h`.
pub open spec fn releases_instance(c: EngineCall, h: usize) -> bool {
    match c {
        EngineCall::FreeInstance { instance } => instance == h,
        _ => false,
    }
}

/// How many calls of `calls` release module `h`.
pub open spec fn module_releases(calls: Seq<EngineCall>, h: usize) -> nat
    decreases calls.len(),
{
    if calls.len() == 0 {
        0
    } else {
        module_releases(calls.drop_last(), h) + if releases_module(calls.last(), h) {
            1nat
        } else {
            0nat
        }
    }
}

/// How many calls of `calls` release instance `h`.
pub open spec fn instance_releases(calls: Seq<EngineCall>, h: usize) -> nat
    decreases calls.len(),
{
    if calls.len() == 0 {
        0
    } else {
        instance_releases(calls.drop_last(), h) + if releases_instance(calls.last(), h) {
            1nat
        } else {
            0nat
        }
    }
}

/// The engine calls that a module's instantiation leads to: the instantiate
/// call and, where it gave an instance, that instance's release.
pub open spec fn instantiation_calls(module: usize, raw_instance: usize) -> Seq<EngineCall> {
    if raw_instance != 0 {
        seq![instantiate_call(module), free_instance_call(raw_instance)]
    } else {
        seq![instantiate_call(module)]
    }
}

/// Instantiating a module releases it exactly once in all, whether
/// instantiation succeeds or fails, and an instance that comes out is
/// released exactly once too. A module that is never instantiated is released
/// exactly once by its own release.
pub proof fn lemma_module_released_once(module: usize, raw_instance: usize)
    ensures
        module_releases(instantiation_calls(module, raw_instance), module) == 1,
        raw_instance != 0 ==> instance_releases(instantiation_calls(module, raw_instance), raw_instance) == 1,
        module_releases(seq![free_module_call(module)], module) == 1,
{
    reveal_with_fuel(module_releases, 3);
    reveal_with_fuel(instance_releases, 3);
    let one = seq![instantiate_call(module)];
    assert(one.drop_last() =~= Seq::<EngineCall>::empty());
    assert(seq![free_module_call(module)].drop_last() =~= Seq::<EngineCall>::empty());
    if raw_instance != 0 {
        let two = seq![instantiate_call(module), free_instance_call(raw_instance)];
        assert(two.drop_last() =~= one);
    }
}

/// An instance can be run before it is released: running it releases
/// nothing, and the release that follows frees it exactly once.
pub proof fn lemma_instance_runs_before_release(instance: usize, func_idx: u32, args: Seq<Value>, run: EngineCall)
    requires
        is_execute_call(run, instance, func_idx, args),
    ensures
        instance_releases(seq![run], instance) == 0,
        instance_releases(seq![run, free_instance_call(instance)], instance) == 1,
{
    reveal_with_fuel(instance_releases, 3);
    let one = seq![run];
    assert(one.drop_last() =~= Seq::<EngineCall>::empty());
    assert(seq![run, free_instance_call(instance)].drop_last() =~= one);
}

/// Why instantiation failed.
#[derive(Clone, Copy, Debug, PartialEq, Eq, Structural)]
pub enum InstantiateError {
    /// The engine could not instantiate the module (a missing import, for
    /// one). The module is gone all the same.
    Rejected,
}

/// A parsed module, not yet instantiated.
pub struct Module {
    handle: usize,
}

impl View for Module {
    type V = usize;

    closed spec fn view(&self) -> usize {
        self.handle
    }
}

impl Module {
    #[verifier::type_invariant]
    spec fn live(self) -> bool {
        self.handle != 0
    }

    /// Takes ownership of the handle of a parsed module.
    pub fn from_handle(handle: usize) -> (r: Option<Module>)
        ensures
            r is Some <==> handle != 0,
            r is Some ==> r->0@ == handle,
    {
        if handle == 0 {
            None
        } else {
            Some(Module { handle })
        }
    }

    /// The engine's handle, never null.
    pub fn handle(&self) -> (r: usize)
        ensures
            r == self@,
            r != 0,
    {
        proof {
            use_type_invariant(self);
        }
        self.handle
    }

    /// Gives the module to the engine to instantiate, with no imports. The
    /// module is consumed here: the returned call is the only one that may
    /// name it, and the engine owns it afterwards whether or not
    /// instantiation succeeds.
    pub fn instantiate(self) -> (r: (EngineCall, PendingInstance))
        ensures
            r.0 == instantiate_call(self@),
            r.1@ == self@,
    {
        proof {
            use_type_invariant(&self);
        }
        let module = self.handle;
        (EngineCall::Instantiate { module, import_count: 0 }, PendingInstance { module })
    }

    /// Ends the module without instantiating it: the call that frees it.
    pub fn release(self) -> (r: EngineCall)
        ensures
            r == free_module_call(self@),
    {
        EngineCall::FreeModule { module: self.handle }
    }
}

/// A module that has been handed to the engine to instantiate, waiting for
/// the engine's answer. It owns nothing: the engine has the module.
pub struct PendingInstance {
    module: usize,
}

impl View for PendingInstance {
    type V = usize;

    closed spec fn view(&self) -> usize {
        self.module
    }
}

impl PendingInstance {
    /// Takes the engine's answer: the new instance's handle, or null.
    pub fn finish(self, instance: usize) -> (r: Result<Instance, InstantiateError>)
        ensures
            r is Ok <==> instance != 0,
            r is Ok ==> r->Ok_0@ == instance,
            r is Err ==> r->Err_0 == InstantiateError::Rejected,
    {
        if instance == 0 {
            Err(InstantiateError::Rejected)
        } else {
            Ok(Instance { handle: instance })
        }
    }
}

/// An instantiated module, ready to run.
pub struct Instance {
    handle: usize,
}

impl View for Instance {
    type V = usize;

    closed spec fn view(&self) -> usize {
        self.handle
    }
}

impl Instance {
    #[verifier::type_invariant]
    spec fn live(self) -> bool {
        self.handle != 0
    }

    /// The engine's handle, never null.
    pub fn handle(&self) -> (r: usize)
        ensures
            r == self@,
            r != 0,
    {
        proof {
            use_type_invariant(self);
        }
        self.handle
    }

    /// The call that runs function `func_idx` with `args`. Nothing here checks
    /// that the function exists or that `args` fit its signature: that is up
    /// to the caller, and a mismatch is undefined in the engine.
    pub fn unsafe_execute(&mut self, func_idx: u32, args: &[Value]) -> (r: EngineCall)
        ensures
            final(self)@ == old(self)@,
            is_execute_call(r, old(self)@, func_idx, args@),
    {
        let mut bits: Vec<u64> = Vec::new();
        let mut k: usize = 0;
        while k < args.len()
            invariant
                k <= args@.len(),
                bits@.len() == k,
                forall|j: int| 0 <= j < k ==> bits@[j] == args@[j]@,
            decreases args@.len() - k,
        {
            bits.push(args[k].to_bits());
            k = k + 1;
        }
        EngineCall::Execute { instance: self.handle, func_idx, args: bits }
    }

    /// Ends the instance: the call that frees it.
    pub fn release(self) -> (r: EngineCall)
        ensures
            r == free_instance_call(self@),
    {
        EngineCall::FreeInstance { instance: self.handle }
    }
}

} // verus!
