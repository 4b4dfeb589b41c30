use vstd::prelude::*;

use crate::config::EntraitAttr;
use crate::error::EngineError;
use crate::signature::{copy_params, copy_string, EntraitFn, Param, Visibility};

verus! {

/// How an interface method receives the wrapper.
#[derive(PartialEq, Eq, Structural, Clone, Copy, Debug)]
pub enum MethodReceiver {
    /// A static method: every parameter is explicit.
    Static,
    /// `&self`, standing for the dependency slot.
    SelfRef,
    /// A static method whose first parameter is the wrapper by reference.
    WrapperParam,
}

/// One method of a synthesized interface.
#[derive(PartialEq, Eq, Clone, Debug)]
pub struct TraitMethod {
    pub ident: String,
    pub receiver: MethodReceiver,
    pub inputs: Vec<Param>,
    pub output: String,
    pub is_async: bool,
}

/// A synthesized interface.
#[derive(PartialEq, Eq, Clone, Debug)]
pub struct InterfaceDef {
    pub ident: String,
    pub vis: Visibility,
    pub methods: Vec<TraitMethod>,
}

/// The receiver an interface method gets from a decorated function.
pub open spec fn receiver_of(f: EntraitFn) -> MethodReceiver {
    if f.no_deps {
        MethodReceiver::Static
    } else {
        MethodReceiver::SelfRef
    }
}

/// `m` is the interface method derived from `f`.
pub open spec fn method_of(m: TraitMethod, f: EntraitFn) -> bool {
    &&& m.ident == f.fn_sig.ident
    &&& m.receiver == receiver_of(f)
    &&& m.inputs@ == f.trait_fn_inputs@
    &&& m.output == f.fn_sig.output
    &&& m.is_async == f.fn_sig.is_async
}

/// `methods` are the interface methods derived from `fns`, one for one.
pub open spec fn methods_of(methods: Seq<TraitMethod>, fns: Seq<EntraitFn>) -> bool {
    &&& methods.len() == fns.len()
    &&& forall|i: int| 0 <= i < fns.len() ==> method_of(#[trigger] methods[i], fns[i])
}

/// The functions of a group that the interface takes: those visible from
/// the enclosing module, in their order.
pub open spec fn group_members(fns: Seq<EntraitFn>) -> Seq<EntraitFn>
    decreases fns.len(),
{
    if fns.len() == 0 {
        Seq::empty()
    } else if fns.last().fn_vis != Visibility::Private {
        group_members(fns.drop_last()).push(fns.last())
    } else {
        group_members(fns.drop_last())
    }
}

/// No two functions give the same method name.
pub open spec fn unique_names(fns: Seq<EntraitFn>) -> bool {
    forall|i: int, j: int|
        0 <= i < j < fns.len() ==> (#[trigger] fns[i]).fn_sig.ident@ != (#[trigger] fns[j]).fn_sig.ident@
}

/// `name` is the first method name in `ms` that repeats an earlier one.
pub open spec fn first_duplicate(ms: Seq<EntraitFn>, name: String) -> bool {
    exists|j: int|
        0 <= j < ms.len() && unique_names(ms.subrange(0, j)) && !unique_names(#[trigger] ms.subrange(0, j + 1))
            && name == ms[j].fn_sig.ident
}

fn trait_method_of(f: &EntraitFn) -> (m: TraitMethod)
    ensures
        method_of(m, *f),
{
    TraitMethod {
        ident: copy_string(&f.fn_sig.ident),
        receiver: if f.no_deps {
            MethodReceiver::Static
        } else {
            MethodReceiver::SelfRef
        },
        inputs: copy_params(&f.trait_fn_inputs),
        output: copy_string(&f.fn_sig.output),
        is_async: f.fn_sig.is_async,
    }
}

/// The single-method interface of one decorated function.
///
/// The interface takes the configured name and visibility; without a name
/// there is nothing to declare.
pub fn synthesize_fn_interface(attr: &EntraitAttr, f: &EntraitFn) -> (r: Result<
    InterfaceDef,
    EngineError,
>)
    ensures
        r is Ok <==> attr.trait_ident is Some,
        r matches Ok(d) ==> {
            &&& Some(d.ident) == attr.trait_ident
            &&& d.vis == attr.trait_visibility
            &&& methods_of(d.methods@, seq![*f])
        },
        r matches Err(e) ==> e == EngineError::MissingInterfaceName,
{
    let ident = match &attr.trait_ident {
        Some(n) => copy_string(n),
        None => return Err(EngineError::MissingInterfaceName),
    };
    let mut methods: Vec<TraitMethod> = Vec::new();
    methods.push(trait_method_of(f));
    Ok(InterfaceDef { ident, vis: attr.trait_visibility, methods })
}

fn name_taken(methods: &Vec<TraitMethod>, name: &String) -> (r: bool)
    ensures
        r == exists|k: int| 0 <= k < methods@.len() && (#[trigger] methods@[k]).ident@ == name@,
{
    let mut k: usize = 0;
    while k < methods.len()
        invariant
            k <= methods@.len(),
            forall|l: int| 0 <= l < k ==> (#[trigger] methods@[l]).ident@ != name@,
        decreases methods@.len() - k,
    {
        if methods[k].ident == *name {
            return true;
        }
        k += 1;
    }
    false
}

/// The multi-method interface of a group of decorated functions.
///
/// Each function visible from the enclosing module gives one method, in
/// order; private functions are left out. Two methods of the same name are
/// refused, naming the first repeated one.
pub fn synthesize_module_interface(attr: &EntraitAttr, fns: &Vec<EntraitFn>) -> (r: Result<
    InterfaceDef,
    EngineError,
>)
    ensures
        r is Ok <==> attr.trait_ident is Some && unique_names(group_members(fns@)),
        r matches Ok(d) ==> {
            &&& Some(d.ident) == attr.trait_ident
            &&& d.vis == attr.trait_visibility
            &&& methods_of(d.methods@, group_members(fns@))
        },
        r matches Err(e) ==> if attr.trait_ident is None {
            e == EngineError::MissingInterfaceName
        } else {
            exists|name: String|
                first_duplicate(group_members(fns@), name) && e == (EngineError::DuplicateMethodName {
                    name,
                })
        },
{
    let ident = match &attr.trait_ident {
        Some(n) => copy_string(n),
        None => return Err(EngineError::MissingInterfaceName),
    };
    let mut methods: Vec<TraitMethod> = Vec::new();
    let mut i: usize = 0;
    assert(fns@.subrange(0, 0) =~= Seq::<EntraitFn>::empty());
    while i < fns.len()
        invariant
            attr.trait_ident is Some,
            i <= fns@.len(),
            methods_of(methods@, group_members(fns@.subrange(0, i as int))),
            unique_names(group_members(fns@.subrange(0, i as int))),
        decreases fns@.len() - i,
    {
        let ghost before = group_members(fns@.subrange(0, i as int));
        assert(fns@.subrange(0, i as int + 1).drop_last() =~= fns@.subrange(0, i as int));
        let f = &fns[i];
        if f.fn_vis != Visibility::Private {
            let ghost after = before.push(*f);
            assert(group_members(fns@.subrange(0, i as int + 1)) == after);
            if name_taken(&methods, &f.fn_sig.ident) {
                proof {
                    let k = choose|k: int| 0 <= k < methods@.len() && (#[trigger] methods@[k]).ident@ == f.fn_sig.ident@;
                    assert(method_of(methods@[k], before[k]));
                    assert(after[k] == before[k]);
                    assert(after[before.len() as int] == *f);
                    assert(after[k].fn_sig.ident@ == after[before.len() as int].fn_sig.ident@);
                    assert(!unique_names(after));
                    lemma_prefix_of_members(fns@, i as int + 1, before.len() as int);
                    assert(after.subrange(0, before.len() as int) =~= before);
                    assert(after.subrange(0, before.len() as int + 1) =~= after);
                }
                let ghost members = group_members(fns@);
                proof {
                    lemma_prefix_of_members(fns@, i as int + 1, before.len() as int + 1);
                    assert(members.subrange(0, before.len() as int + 1) == after);
                    assert(members.subrange(0, before.len() as int) =~= after.subrange(0, before.len() as int));
                    assert(first_duplicate(members, f.fn_sig.ident));
                }
                return Err(EngineError::DuplicateMethodName { name: copy_string(&f.fn_sig.ident) });
            }
            methods.push(trait_method_of(f));
            proof {
                assert forall|a: int, b: int| 0 <= a < b < after.len() implies (#[trigger] after[a]).fn_sig.ident@
                    != (#[trigger] after[b]).fn_sig.ident@ by {
                    if b == before.len() {
                        assert(methods@[a].ident@ == after[a].fn_sig.ident@);
                    }
                }
                assert forall|l: int| 0 <= l < after.len() implies method_of(#[trigger] methods@[l], after[l]) by {
                }
            }
        }
        i += 1;
    }
    assert(fns@.subrange(0, i as int) =~= fns@);
    Ok(InterfaceDef { ident, vis: attr.trait_visibility, methods })
}

/// The members of a prefix of a group are a prefix of the group's members.
pub proof fn lemma_prefix_of_members(fns: Seq<EntraitFn>, i: int, n: int)
    requires
        0 <= i <= fns.len(),
        0 <= n <= group_members(fns.subrange(0, i)).len(),
    ensures
        n <= group_members(fns).len(),
        group_members(fns).subrange(0, n) == group_members(fns.subrange(0, i)).subrange(0, n),
    decreases fns.len() - i,
{
    if i == fns.len() {
        assert(fns.subrange(0, i) =~= fns);
    } else {
        assert(fns.subrange(0, i + 1).drop_last() =~= fns.subrange(0, i));
        let a = group_members(fns.subrange(0, i));
        let b = group_members(fns.subrange(0, i + 1));
        assert(b.subrange(0, n) =~= a.subrange(0, n));
        lemma_prefix_of_members(fns, i + 1, n);
    }
}

} // verus!
