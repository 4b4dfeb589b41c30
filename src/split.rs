use vstd::prelude::*;

use crate::delegation::{Callee, DependencyExpr, ForwardingMethod};
use crate::error::EngineError;
use crate::interface::{InterfaceDef, TraitMethod};
use crate::signature::{
    call_args_spec, copy_string, extract_call_param_list, first_param_error, forwardable,
    FnSignature, GenericKind, GenericParam,
};

verus! {

/// One method of a hand-written implementation block.
#[derive(PartialEq, Eq, Clone, Debug)]
pub struct ImplMethod {
    pub sig: FnSignature,
    /// The body, carried through as it was written.
    pub body: String,
}

/// A hand-written implementation block for a delegation-target interface.
#[derive(PartialEq, Eq, Clone, Debug)]
pub struct ImplBlock {
    /// The delegation-target interface the block claims to implement.
    pub trait_ident: String,
    /// The concrete type the block is for.
    pub target_type: String,
    pub methods: Vec<ImplMethod>,
}

/// Whether the forwarding implementation dispatches statically or through a
/// dynamic reference.
#[derive(PartialEq, Eq, Structural, Clone, Copy, Debug)]
pub enum DispatchMode {
    Static,
    Dynamic,
}

/// An implementation block split in two.
#[derive(PartialEq, Eq, Clone, Debug)]
pub struct SplitResult {
    /// The block as written, now an inherent block of the target type.
    pub inherent: ImplBlock,
    pub mode: DispatchMode,
    /// The forwarding implementation's methods, one per inherent method.
    pub forwarding: Vec<ForwardingMethod>,
}

/// `m` has the shape of the interface method `t`: the same name, the
/// wrapper's parameter first and then `t`'s parameter types, the same output
/// and asyncness.
pub open spec fn signature_matches(m: FnSignature, t: TraitMethod) -> bool {
    &&& m.ident@ == t.ident@
    &&& m.inputs@.len() == t.inputs@.len() + 1
    &&& forall|k: int| 0 <= k < t.inputs@.len() ==> (#[trigger] m.inputs@[k + 1]).ty@ == t.inputs@[k].ty@
    &&& m.output@ == t.output@
    &&& m.is_async == t.is_async
}

/// Some method of the interface has the shape of `m`.
pub open spec fn declared_in(m: FnSignature, methods: Seq<TraitMethod>) -> bool {
    exists|k: int| 0 <= k < methods.len() && signature_matches(m, #[trigger] methods[k])
}

/// A character that can continue an identifier.
pub open spec fn is_word_char(c: char) -> bool {
    ('a' <= c <= 'z') || ('A' <= c <= 'Z') || ('0' <= c <= '9') || c == '_' || c > '\x7f'
}

/// `name` stands in `text` at `i` as a whole word.
pub open spec fn word_at(text: Seq<char>, name: Seq<char>, i: int) -> bool {
    &&& 0 <= i && i + name.len() <= text.len()
    &&& text.subrange(i, i + name.len()) == name
    &&& (i == 0 || !is_word_char(text[i - 1]))
    &&& (i + name.len() == text.len() || !is_word_char(text[i + name.len()]))
}

/// `name` occurs in `text` as a whole word.
pub open spec fn mentions(text: Seq<char>, name: Seq<char>) -> bool {
    name.len() > 0 && exists|i: int| #[trigger] word_at(text, name, i)
}

/// A generic parameter a dynamically dispatched method may have: a lifetime,
/// or the wrapper's own, named in the type of the first parameter.
pub open spec fn generic_dispatchable(sig: FnSignature, g: GenericParam) -> bool {
    g.kind == GenericKind::Lifetime || (sig.inputs@.len() > 0 && mentions(sig.inputs@[0].ty@, g.name@))
}

/// `m` can stand in a forwarding implementation dispatched by `mode`: a
/// dynamically dispatched one takes no generic parameters beyond the
/// wrapper's own and lifetimes, and no `impl` parameter after the wrapper.
pub open spec fn dispatchable(m: ImplMethod, mode: DispatchMode) -> bool {
    mode == DispatchMode::Static || {
        &&& forall|g: int| 0 <= g < m.sig.generics@.len() ==> generic_dispatchable(m.sig, #[trigger] m.sig.generics@[g])
        &&& forall|j: int| 1 <= j < m.sig.inputs@.len() ==> !mentions((#[trigger] m.sig.inputs@[j]).ty@, "impl"@)
    }
}

/// `m` can be split: it is declared and dispatchable, and its call can be
/// forwarded.
pub open spec fn splittable(m: ImplMethod, methods: Seq<TraitMethod>, mode: DispatchMode) -> bool {
    declared_in(m.sig, methods) && dispatchable(m, mode) && forwardable(m.sig.inputs@, false)
}

/// `e` is the error that method `m` is refused with.
pub open spec fn split_error(m: ImplMethod, methods: Seq<TraitMethod>, mode: DispatchMode, e: EngineError) -> bool {
    if !declared_in(m.sig, methods) || !dispatchable(m, mode) {
        e == (EngineError::SignatureMismatch { method: m.sig.ident })
    } else {
        first_param_error(m.sig.inputs@, false, e)
    }
}

/// `f` forwards to the inherent method `m`, passing the wrapper on unchanged.
pub open spec fn forwards_to_inherent(f: ForwardingMethod, m: ImplMethod) -> bool {
    &&& f.ident == m.sig.ident
    &&& f.callee == Callee::InherentMethod(m.sig.ident)
    &&& f.dependency == DependencyExpr::WrapperRef
    &&& f.args@ == call_args_spec(m.sig.inputs@, false)
}

/// `r` is the outcome of splitting `block` against the interface `iface`.
pub open spec fn split_spec(r: Result<SplitResult, EngineError>, block: ImplBlock, iface: InterfaceDef, mode: DispatchMode) -> bool {
    if block.trait_ident@ != iface.ident@ {
        r == Err::<SplitResult, EngineError>(EngineError::InterfaceMismatch { claimed: block.trait_ident })
    } else {
        &&& r is Ok <==> forall|i: int|
                0 <= i < block.methods@.len() ==> splittable(#[trigger] block.methods@[i], iface.methods@, mode)
        &&& r matches Ok(s) ==> {
                &&& s.inherent == block
                &&& s.mode == mode
                &&& s.forwarding@.len() == block.methods@.len()
                &&& forall|i: int|
                    0 <= i < block.methods@.len() ==> forwards_to_inherent(
                        #[trigger] s.forwarding@[i],
                        block.methods@[i],
                    )
            }
        &&& r matches Err(e) ==> exists|i: int|
                0 <= i < block.methods@.len() && split_error(#[trigger] block.methods@[i], iface.methods@, mode, e)
                    && forall|j: int| 0 <= j < i ==> splittable(#[trigger] block.methods@[j], iface.methods@, mode)
    }
}

fn char_is_word(c: char) -> (r: bool)
    ensures
        r == is_word_char(c),
{
    ('a' <= c && c <= 'z') || ('A' <= c && c <= 'Z') || ('0' <= c && c <= '9') || c == '_' || c > '\x7f'
}

fn word_at_exec(t: &str, tl: usize, n: &str, nl: usize, i: usize) -> (r: bool)
    requires
        tl == t@.len(),
        nl == n@.len(),
        nl <= tl,
        i <= tl - nl,
    ensures
        r == word_at(t@, n@, i as int),
{
    let mut j: usize = 0;
    while j < nl
        invariant
            tl == t@.len(),
            nl == n@.len(),
            i + nl <= tl,
            j <= nl,
            forall|k: int| 0 <= k < j ==> t@[i + k] == n@[k],
        decreases nl - j,
    {
        if t.get_char(i + j) != n.get_char(j) {
            assert(t@.subrange(i as int, i + nl)[j as int] != n@[j as int]);
            return false;
        }
        j += 1;
    }
    assert(t@.subrange(i as int, i + nl) =~= n@);
    let before = i == 0 || !char_is_word(t.get_char(i - 1));
    let after = i + nl == tl || !char_is_word(t.get_char(i + nl));
    before && after
}

fn mentions_exec(text: &String, name: &String) -> (r: bool)
    ensures
        r == mentions(text@, name@),
{
    let t = text.as_str();
    let n = name.as_str();
    let tl = t.unicode_len();
    let nl = n.unicode_len();
    if nl == 0 || nl > tl {
        return false;
    }
    let mut i: usize = 0;
    while i <= tl - nl
        invariant
            tl == t@.len(),
            nl == n@.len(),
            t@ == text@,
            n@ == name@,
            0 < nl <= tl,
            i <= tl - nl + 1,
            forall|k: int| 0 <= k < i ==> !word_at(t@, n@, k),
        decreases tl - nl + 1 - i,
    {
        if word_at_exec(t, tl, n, nl, i) {
            return true;
        }
        i += 1;
    }
    assert forall|k: int| !word_at(t@, n@, k) by {
        if 0 <= k < i {
        }
    }
    false
}

fn dispatchable_exec(m: &ImplMethod, mode: DispatchMode) -> (r: bool)
    ensures
        r == dispatchable(*m, mode),
{
    if mode == DispatchMode::Static {
        return true;
    }
    let mut g: usize = 0;
    while g < m.sig.generics.len()
        invariant
            mode == DispatchMode::Dynamic,
            g <= m.sig.generics@.len(),
            forall|h: int| 0 <= h < g ==> generic_dispatchable(m.sig, #[trigger] m.sig.generics@[h]),
        decreases m.sig.generics@.len() - g,
    {
        let p = &m.sig.generics[g];
        if p.kind != GenericKind::Lifetime {
            if m.sig.inputs.len() == 0 || !mentions_exec(&m.sig.inputs[0].ty, &p.name) {
                return false;
            }
        }
        g += 1;
    }
    let word = String::from_str("impl");
    let mut j: usize = 1;
    while j < m.sig.inputs.len()
        invariant
            mode == DispatchMode::Dynamic,
            word@ == "impl"@,
            1 <= j,
            j <= m.sig.inputs@.len() || m.sig.inputs@.len() == 0,
            forall|h: int| 0 <= h < m.sig.generics@.len() ==> generic_dispatchable(m.sig, #[trigger] m.sig.generics@[h]),
            forall|k: int| 1 <= k < j && k < m.sig.inputs@.len() ==> !mentions((#[trigger] m.sig.inputs@[k]).ty@, "impl"@),
        decreases m.sig.inputs@.len() - j,
    {
        if mentions_exec(&m.sig.inputs[j].ty, &word) {
            return false;
        }
        j += 1;
    }
    true
}

fn signature_matches_exec(m: &FnSignature, t: &TraitMethod) -> (r: bool)
    ensures
        r == signature_matches(*m, *t),
{
    if !(m.ident == t.ident) || m.inputs.len() == 0 || m.inputs.len() - 1 != t.inputs.len() || !(m.output == t.output)
        || m.is_async != t.is_async {
        return false;
    }
    let mut k: usize = 0;
    while k < t.inputs.len()
        invariant
            m.inputs@.len() == t.inputs@.len() + 1,
            k <= t.inputs@.len(),
            forall|l: int| 0 <= l < k ==> (#[trigger] m.inputs@[l + 1]).ty@ == t.inputs@[l].ty@,
        decreases t.inputs@.len() - k,
    {
        if !(m.inputs[k + 1].ty == t.inputs[k].ty) {
            return false;
        }
        k += 1;
    }
    true
}

fn declared_in_exec(m: &FnSignature, methods: &Vec<TraitMethod>) -> (r: bool)
    ensures
        r == declared_in(*m, methods@),
{
    let mut k: usize = 0;
    while k < methods.len()
        invariant
            k <= methods@.len(),
            forall|l: int| 0 <= l < k ==> !signature_matches(*m, #[trigger] methods@[l]),
        decreases methods@.len() - k,
    {
        if signature_matches_exec(m, &methods[k]) {
            return true;
        }
        k += 1;
    }
    false
}

/// Splits an implementation block into an inherent block and a forwarding
/// implementation.
///
/// The block must claim `iface`, the declared delegation-target interface,
/// by name. Every method must have the shape of a method of `iface`, and
/// forward its parameters by identifier. The first method in order that fails decides the error and nothing is
/// returned. Otherwise the block comes back unchanged as the inherent block,
/// and each forwarding method calls its inherent method with the wrapper
/// passed on as it came.
pub fn split_impl_block(block: ImplBlock, iface: &InterfaceDef, mode: DispatchMode) -> (r: Result<
    SplitResult,
    EngineError,
>)
    ensures
        split_spec(r, block, *iface, mode),
{
    if !(block.trait_ident == iface.ident) {
        return Err(EngineError::InterfaceMismatch { claimed: copy_string(&block.trait_ident) });
    }
    let mut forwarding: Vec<ForwardingMethod> = Vec::new();
    let mut i: usize = 0;
    while i < block.methods.len()
        invariant
            block.trait_ident@ == iface.ident@,
            i <= block.methods@.len(),
            forwarding@.len() == i,
            forall|j: int| 0 <= j < i ==> splittable(#[trigger] block.methods@[j], iface.methods@, mode),
            forall|j: int|
                0 <= j < i ==> forwards_to_inherent(#[trigger] forwarding@[j], block.methods@[j]),
        decreases block.methods@.len() - i,
    {
        let m = &block.methods[i];
        if !declared_in_exec(&m.sig, &iface.methods) || !dispatchable_exec(m, mode) {
            assert(split_error(block.methods@[i as int], iface.methods@, mode, EngineError::SignatureMismatch { method: m.sig.ident }));
            return Err(EngineError::SignatureMismatch { method: copy_string(&m.sig.ident) });
        }
        let args = match extract_call_param_list(&m.sig, false) {
            Ok(a) => a,
            Err(e) => {
                assert(split_error(block.methods@[i as int], iface.methods@, mode, e));
                return Err(e);
            },
        };
        forwarding.push(
            ForwardingMethod {
                ident: copy_string(&m.sig.ident),
                callee: Callee::InherentMethod(copy_string(&m.sig.ident)),
                dependency: DependencyExpr::WrapperRef,
                args,
            },
        );
        i += 1;
    }
    Ok(SplitResult { inherent: block, mode, forwarding })
}

} // verus!
