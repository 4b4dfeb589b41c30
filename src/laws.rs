use vstd::prelude::*;

use crate::config::{
    extension_key, extension_with, key_spec, lemma_agree_extends, lemma_apply_commutes,
    lemma_error_persists, lemma_push_contains, resolve_spec, resolve_state, states_agree,
    DelegateBy, EntraitAttr, MockLibrary, OptionKey, OptionToken, TraitName,
};
use crate::delegation::{forwards_to, Callee, DependencyExpr, ForwardingMethod};
use crate::error::EngineError;
use crate::interface::{method_of, InterfaceDef, TraitMethod};
use crate::signature::{slot_len, CallArg, EntraitFn, ParamPattern};
use crate::split::{
    declared_in, forwards_to_inherent, split_error, split_spec, splittable, DispatchMode,
    ImplBlock, SplitResult,
};

verus! {

/// The interface method of a function has one parameter fewer than the
/// function, the dependency slot, or, with `no_deps`, exactly as many.
pub proof fn law_interface_arity(f: EntraitFn, m: TraitMethod)
    requires
        f.wf(),
        method_of(m, f),
    ensures
        !f.no_deps ==> m.inputs@.len() == f.fn_sig.inputs@.len() - 1,
        f.no_deps ==> m.inputs@.len() == f.fn_sig.inputs@.len(),
{
}

/// The forwarding call passes every parameter in its own position: the slot
/// as the dependency, every other parameter by its own identifier.
pub proof fn law_call_argument_identity(f: EntraitFn)
    requires
        f.wf(),
    ensures
        f.call_param_list@.len() == f.fn_sig.inputs@.len(),
        forall|i: int|
            slot_len(f.no_deps) <= i < f.fn_sig.inputs@.len() ==> (#[trigger] f.fn_sig.inputs@[i]).pattern is Ident,
        forall|i: int|
            0 <= i < f.fn_sig.inputs@.len() ==> #[trigger] f.call_param_list@[i] == if i < slot_len(f.no_deps) {
                CallArg::Dependency
            } else {
                CallArg::Ident(f.fn_sig.inputs@[i].pattern->Ident_0)
            },
{
    assert forall|i: int| slot_len(f.no_deps) <= i < f.fn_sig.inputs@.len() implies (
    #[trigger] f.fn_sig.inputs@[i]).pattern is Ident by {
        assert(crate::signature::param_error(f.fn_sig.inputs@[i], i).is_none());
    }
}

/// Whatever the strategy, a forwarding method calls with the function's own
/// argument list: the dependency in the slot and every other argument
/// unchanged. Two strategies forward the same arguments to the same name.
pub proof fn law_forwarding_transparency(
    f: EntraitFn,
    m1: ForwardingMethod,
    by1: DelegateBy,
    m2: ForwardingMethod,
    by2: DelegateBy,
)
    requires
        f.wf(),
        forwards_to(m1, f, by1),
        forwards_to(m2, f, by2),
    ensures
        m1.args@ == f.call_param_list@,
        m1.args@ == m2.args@,
        m1.ident == m2.ident,
        match m1.callee {
            Callee::OriginalFn(n) => n == f.fn_sig.ident,
            Callee::DynMethod(n) => n == f.fn_sig.ident,
            Callee::TargetFn(n) => n == f.fn_sig.ident,
            Callee::InherentMethod(_) => false,
            Callee::InnerMethod(_) => false,
        },
        forall|i: int|
            0 <= i < m1.args@.len() ==> (#[trigger] m1.args@[i] == CallArg::Dependency <==> i < slot_len(
                f.no_deps,
            )),
{
    law_call_argument_identity(f);
}

/// Resolving the same option list twice gives the same configuration.
pub proof fn law_resolution_deterministic(
    name: Option<TraitName>,
    a: Seq<(OptionToken, bool)>,
    b: Seq<(OptionToken, bool)>,
    lib: MockLibrary,
)
    requires
        a == b,
    ensures
        resolve_spec(name, a, lib) == resolve_spec(name, b, lib),
{
}

/// The key an option sets, for an option that resolves.
pub open spec fn option_key_of(o: (OptionToken, bool)) -> OptionKey {
    extension_key(extension_with(o.0, o.1)->Ok_0)
}

/// Options that each resolve, with no key given twice, resolve together; the
/// keys seen are exactly theirs.
pub proof fn lemma_valid_prefix(
    name: Option<TraitName>,
    opts: Seq<(OptionToken, bool)>,
    lib: MockLibrary,
    n: int,
)
    requires
        0 <= n <= opts.len(),
        forall|j: int| 0 <= j < n ==> (#[trigger] extension_with(opts[j].0, opts[j].1)) is Ok,
        forall|j: int, k: int| 0 <= j < k < n ==> option_key_of(#[trigger] opts[j]) != option_key_of(#[trigger] opts[k]),
    ensures
        resolve_state(name, opts.subrange(0, n), lib) is Ok,
        forall|k: OptionKey|
            (#[trigger] resolve_state(name, opts.subrange(0, n), lib)->Ok_0.1.contains(k)) ==> exists|j: int|
                0 <= j < n && option_key_of(opts[j]) == k,
    decreases n,
{
    if n == 0 {
        assert(opts.subrange(0, 0) =~= Seq::<(OptionToken, bool)>::empty());
    } else {
        lemma_valid_prefix(name, opts, lib, n - 1);
        let prefix = opts.subrange(0, n);
        assert(prefix.drop_last() =~= opts.subrange(0, n - 1));
        assert(prefix.last() == opts[n - 1]);
        let (a, seen) = resolve_state(name, opts.subrange(0, n - 1), lib)->Ok_0;
        assert(extension_with(opts[n - 1].0, opts[n - 1].1) is Ok);
        let kn = option_key_of(opts[n - 1]);
        if seen.contains(kn) {
            let j = choose|j: int| 0 <= j < n - 1 && option_key_of(opts[j]) == kn;
            assert(option_key_of(opts[j]) != option_key_of(opts[n - 1]));
        }
        assert forall|k: OptionKey| (#[trigger] seen.push(kn).contains(k)) implies exists|j: int|
            0 <= j < n && option_key_of(opts[j]) == k by {
            lemma_push_contains(seen, kn, k);
            if k == kn {
                assert(option_key_of(opts[n - 1]) == k);
            } else {
                assert(seen.contains(k));
                assert(resolve_state(name, opts.subrange(0, n - 1), lib)->Ok_0.1.contains(k));
            }
        }
    }
}

/// An unrecognised key fails the whole resolution with that key, whatever
/// follows it, when every option before it resolves and no key repeats
/// among them.
pub proof fn law_unknown_option_rejected(
    name: Option<TraitName>,
    opts: Seq<(OptionToken, bool)>,
    lib: MockLibrary,
    i: int,
)
    requires
        0 <= i < opts.len(),
        forall|j: int| 0 <= j < i ==> (#[trigger] extension_with(opts[j].0, opts[j].1)) is Ok,
        forall|j: int, k: int| 0 <= j < k < i ==> option_key_of(#[trigger] opts[j]) != option_key_of(#[trigger] opts[k]),
        key_spec(opts[i].0.key@) is None,
    ensures
        resolve_spec(name, opts, lib) == Err::<EntraitAttr, EngineError>(
            EngineError::UnknownOption { name: opts[i].0.key },
        ),
{
    lemma_valid_prefix(name, opts, lib, i);
    assert(opts.subrange(0, i + 1).drop_last() =~= opts.subrange(0, i));
    lemma_error_persists(name, opts, lib, i + 1);
}

/// Options are order-insensitive: swapping two neighbouring options of a
/// list that resolves leaves the configuration unchanged.
pub proof fn law_options_commute(
    name: Option<TraitName>,
    p: Seq<(OptionToken, bool)>,
    a: (OptionToken, bool),
    b: (OptionToken, bool),
    t: Seq<(OptionToken, bool)>,
    lib: MockLibrary,
)
    requires
        resolve_spec(name, p + seq![a, b] + t, lib) is Ok,
    ensures
        resolve_spec(name, p + seq![b, a] + t, lib) == resolve_spec(name, p + seq![a, b] + t, lib),
{
    let l1 = p + seq![a, b] + t;
    let q1 = p.push(a).push(b);
    let q2 = p.push(b).push(a);
    assert(l1 =~= q1 + t);
    assert(p + seq![b, a] + t =~= q2 + t);
    assert(l1.subrange(0, p.len() as int + 2) =~= q1);
    if resolve_state(name, q1, lib) is Err {
        lemma_error_persists(name, l1, lib, p.len() as int + 2);
    }
    assert(q1.drop_last() =~= p.push(a));
    assert(p.push(a).drop_last() =~= p);
    assert(q2.drop_last() =~= p.push(b));
    assert(p.push(b).drop_last() =~= p);
    assert(q1.last() == b);
    assert(p.push(a).last() == a);
    assert(resolve_state(name, p.push(a), lib) is Ok);
    assert(resolve_state(name, p, lib) is Ok);
    let (attr, seen) = resolve_state(name, p, lib)->Ok_0;
    assert(extension_with(a.0, a.1) is Ok);
    let xa = extension_with(a.0, a.1)->Ok_0;
    let ka = extension_key(xa);
    assert(!seen.contains(ka));
    assert(resolve_state(name, p.push(a), lib) == Ok::<(EntraitAttr, Seq<OptionKey>), EngineError>(
        (crate::config::apply_spec(attr, xa), seen.push(ka)),
    ));
    assert(extension_with(b.0, b.1) is Ok);
    let xb = extension_with(b.0, b.1)->Ok_0;
    let kb = extension_key(xb);
    assert(!seen.push(ka).contains(kb));
    lemma_push_contains(seen, ka, kb);
    lemma_push_contains(seen, kb, ka);
    assert(q2.last() == a);
    assert(p.push(b).last() == b);
    lemma_apply_commutes(attr, xa, xb);
    assert forall|k: OptionKey| seen.push(ka).push(kb).contains(k) == seen.push(kb).push(ka).contains(k) by {
        lemma_push_contains(seen, ka, k);
        lemma_push_contains(seen, kb, k);
        lemma_push_contains(seen.push(ka), kb, k);
        lemma_push_contains(seen.push(kb), ka, k);
    }
    let ab = crate::config::apply_spec(crate::config::apply_spec(attr, xa), xb);
    let ba = crate::config::apply_spec(crate::config::apply_spec(attr, xb), xa);
    assert(resolve_state(name, q1, lib) == Ok::<(EntraitAttr, Seq<OptionKey>), EngineError>(
        (ab, seen.push(ka).push(kb)),
    ));
    assert(!seen.contains(kb));
    assert(resolve_state(name, p.push(b), lib) == Ok::<(EntraitAttr, Seq<OptionKey>), EngineError>(
        (crate::config::apply_spec(attr, xb), seen.push(kb)),
    ));
    assert(!seen.push(kb).contains(ka));
    assert(resolve_state(name, q2, lib) == Ok::<(EntraitAttr, Seq<OptionKey>), EngineError>(
        (ba, seen.push(kb).push(ka)),
    ));
    assert(states_agree(resolve_state(name, q1, lib), resolve_state(name, q2, lib)));
    lemma_agree_extends(name, q1, q2, t, lib);
}

/// When every method of a block can be split, the split succeeds: the
/// inherent block keeps every method and body as written, and each forwarding
/// method calls its own inherent method with the wrapper passed on unchanged
/// and every other parameter by its own identifier.
pub proof fn law_split_equivalence(
    block: ImplBlock,
    iface: InterfaceDef,
    mode: DispatchMode,
    r: Result<SplitResult, EngineError>,
)
    requires
        split_spec(r, block, iface, mode),
        block.trait_ident@ == iface.ident@,
        forall|i: int| 0 <= i < block.methods@.len() ==> splittable(#[trigger] block.methods@[i], iface.methods@, mode),
    ensures
        r is Ok,
        r->Ok_0.inherent.methods@ == block.methods@,
        r->Ok_0.forwarding@.len() == block.methods@.len(),
        forall|i: int|
            0 <= i < block.methods@.len() ==> {
                &&& (#[trigger] r->Ok_0.forwarding@[i]).callee == Callee::InherentMethod(block.methods@[i].sig.ident)
                &&& r->Ok_0.forwarding@[i].dependency == DependencyExpr::WrapperRef
                &&& r->Ok_0.forwarding@[i].args@.len() == block.methods@[i].sig.inputs@.len()
                &&& r->Ok_0.forwarding@[i].args@[0] == CallArg::Dependency
                &&& forall|k: int|
                    1 <= k < block.methods@[i].sig.inputs@.len() ==> r->Ok_0.forwarding@[i].args@[k]
                        == CallArg::Ident(block.methods@[i].sig.inputs@[k].pattern->Ident_0)
            },
{
    let s = r->Ok_0;
    assert forall|i: int| 0 <= i < block.methods@.len() implies {
        &&& (#[trigger] r->Ok_0.forwarding@[i]).callee == Callee::InherentMethod(block.methods@[i].sig.ident)
        &&& r->Ok_0.forwarding@[i].dependency == DependencyExpr::WrapperRef
        &&& r->Ok_0.forwarding@[i].args@.len() == block.methods@[i].sig.inputs@.len()
        &&& r->Ok_0.forwarding@[i].args@[0] == CallArg::Dependency
        &&& forall|k: int|
            1 <= k < block.methods@[i].sig.inputs@.len() ==> r->Ok_0.forwarding@[i].args@[k]
                == CallArg::Ident(block.methods@[i].sig.inputs@[k].pattern->Ident_0)
    } by {
        assert(splittable(block.methods@[i], iface.methods@, mode));
        assert(forwards_to_inherent(s.forwarding@[i], block.methods@[i]));
        let k = choose|k: int|
            0 <= k < iface.methods@.len() && crate::split::signature_matches(
                block.methods@[i].sig,
                #[trigger] iface.methods@[k],
            );
        assert(block.methods@[i].sig.inputs@.len() > 0);
        let inputs = block.methods@[i].sig.inputs@;
        assert forall|k: int| 1 <= k < inputs.len() implies r->Ok_0.forwarding@[i].args@[k] == CallArg::Ident(
            inputs[k].pattern->Ident_0,
        ) by {
            assert(crate::signature::param_error(inputs[k], k).is_none());
        }
    }
}

/// A method whose name the interface does not declare fails the split with
/// `SignatureMismatch` naming it, when every earlier method can be split;
/// nothing is produced.
pub proof fn law_mismatch_detected(
    block: ImplBlock,
    iface: InterfaceDef,
    mode: DispatchMode,
    r: Result<SplitResult, EngineError>,
    i: int,
)
    requires
        split_spec(r, block, iface, mode),
        block.trait_ident@ == iface.ident@,
        0 <= i < block.methods@.len(),
        forall|k: int| 0 <= k < iface.methods@.len() ==> (#[trigger] iface.methods@[k]).ident@ != block.methods@[i].sig.ident@,
        forall|j: int| 0 <= j < i ==> splittable(#[trigger] block.methods@[j], iface.methods@, mode),
    ensures
        r == Err::<SplitResult, EngineError>(EngineError::SignatureMismatch { method: block.methods@[i].sig.ident }),
{
    assert(!declared_in(block.methods@[i].sig, iface.methods@));
    assert(!splittable(block.methods@[i], iface.methods@, mode));
    let e = r->Err_0;
    let i2 = choose|i2: int|
        0 <= i2 < block.methods@.len() && split_error(#[trigger] block.methods@[i2], iface.methods@, mode, e)
            && forall|j: int| 0 <= j < i2 ==> splittable(#[trigger] block.methods@[j], iface.methods@, mode);
    if i2 < i {
        assert(splittable(block.methods@[i2], iface.methods@, mode));
        let m = block.methods@[i2];
        let p = choose|p: int|
            0 <= p < m.sig.inputs@.len() && #[trigger] crate::signature::param_error(m.sig.inputs@[p], p) == Some(e)
                && forall|q: int| 0 <= q < p ==> (#[trigger] crate::signature::param_error(m.sig.inputs@[q], q)).is_none();
        assert(false);
    }
}

} // verus!
