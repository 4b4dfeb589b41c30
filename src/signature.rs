use vstd::prelude::*;

use crate::error::EngineError;

verus! {

/// Visibility of a declaration.
#[derive(PartialEq, Eq, Structural, Clone, Copy, Debug)]
pub enum Visibility {
    Private,
    Restricted,
    Public,
}

/// How a parameter binds its value.
#[derive(PartialEq, Eq, Clone, Debug)]
pub enum ParamPattern {
    /// `self`, `&self` and the like.
    Receiver,
    /// A plain identifier, possibly `mut`.
    Ident(String),
    /// A destructuring pattern or a wildcard.
    Destructure,
}

/// One parameter of a function signature: its pattern and its type text.
#[derive(PartialEq, Eq, Clone, Debug)]
pub struct Param {
    pub pattern: ParamPattern,
    pub ty: String,
}

/// What a generic parameter stands for.
#[derive(PartialEq, Eq, Structural, Clone, Copy, Debug)]
pub enum GenericKind {
    Lifetime,
    Type,
    Const,
}

/// One generic parameter of a signature, by name (a lifetime with its `'`).
#[derive(PartialEq, Eq, Clone, Debug)]
pub struct GenericParam {
    pub kind: GenericKind,
    pub name: String,
}

/// The parts of a function signature the engine reads.
#[derive(PartialEq, Eq, Clone, Debug)]
pub struct FnSignature {
    pub ident: String,
    /// The generic parameters, in order.
    pub generics: Vec<GenericParam>,
    pub is_async: bool,
    pub inputs: Vec<Param>,
    pub output: String,
}

/// One argument of the call that forwards to the original function.
#[derive(PartialEq, Eq, Clone, Debug)]
pub enum CallArg {
    /// The dependency value, supplied by the forwarding layer.
    Dependency,
    /// A parameter passed on by its identifier.
    Ident(String),
}

/// Number of leading parameters that form the dependency slot.
pub open spec fn slot_len(no_deps: bool) -> int {
    if no_deps {
        0
    } else {
        1
    }
}

/// Why the parameter at `position` cannot be forwarded, if it cannot.
pub open spec fn param_error(p: Param, position: int) -> Option<EngineError> {
    match p.pattern {
        ParamPattern::Receiver => Some(
            EngineError::UnexpectedReceiverParameter { position: position as usize },
        ),
        ParamPattern::Ident(_) => None,
        ParamPattern::Destructure => Some(
            EngineError::NonIdentifierParameterPattern { position: position as usize },
        ),
    }
}

/// The call argument that stands for the parameter at `position`.
pub open spec fn call_arg_of(p: Param, position: int, no_deps: bool) -> CallArg {
    if position < slot_len(no_deps) {
        CallArg::Dependency
    } else {
        match p.pattern {
            ParamPattern::Ident(name) => CallArg::Ident(name),
            _ => CallArg::Dependency,
        }
    }
}

/// Every parameter outside the dependency slot binds a plain identifier.
pub open spec fn forwardable(inputs: Seq<Param>, no_deps: bool) -> bool {
    forall|i: int| slot_len(no_deps) <= i < inputs.len() ==> (#[trigger] param_error(inputs[i], i)).is_none()
}

/// `e` is the error of the first parameter outside the slot that cannot be forwarded.
pub open spec fn first_param_error(inputs: Seq<Param>, no_deps: bool, e: EngineError) -> bool {
    exists|i: int|
        slot_len(no_deps) <= i < inputs.len() && #[trigger] param_error(inputs[i], i) == Some(e)
            && forall|j: int| slot_len(no_deps) <= j < i ==> (#[trigger] param_error(inputs[j], j)).is_none()
}

/// The argument list of the forwarding call, one argument per parameter.
pub open spec fn call_args_spec(inputs: Seq<Param>, no_deps: bool) -> Seq<CallArg> {
    Seq::new(inputs.len(), |i: int| call_arg_of(inputs[i], i, no_deps))
}

/// The parameters of the interface method: all but the dependency slot.
pub open spec fn method_inputs_spec(inputs: Seq<Param>, no_deps: bool) -> Seq<Param> {
    inputs.subrange(slot_len(no_deps), inputs.len() as int)
}

pub(crate) fn copy_string(s: &String) -> (r: String)
    ensures
        r == *s,
{
    s.clone()
}

pub(crate) fn copy_pattern(p: &ParamPattern) -> (r: ParamPattern)
    ensures
        r == *p,
{
    match p {
        ParamPattern::Receiver => ParamPattern::Receiver,
        ParamPattern::Ident(name) => ParamPattern::Ident(copy_string(name)),
        ParamPattern::Destructure => ParamPattern::Destructure,
    }
}

pub(crate) fn copy_param(p: &Param) -> (r: Param)
    ensures
        r == *p,
{
    Param { pattern: copy_pattern(&p.pattern), ty: copy_string(&p.ty) }
}

pub(crate) fn copy_params(ps: &Vec<Param>) -> (r: Vec<Param>)
    ensures
        r@ == ps@,
{
    let mut r: Vec<Param> = Vec::new();
    let mut i: usize = 0;
    while i < ps.len()
        invariant
            i <= ps@.len(),
            r@ == ps@.subrange(0, i as int),
        decreases ps@.len() - i,
    {
        r.push(copy_param(&ps[i]));
        i += 1;
        assert(r@ =~= ps@.subrange(0, i as int));
    }
    assert(r@ =~= ps@);
    r
}

/// The parameters of the interface method derived from `sig`.
///
/// Without `no_deps` the first parameter is the dependency slot: it becomes
/// the method's receiver and is left out, and a signature without any
/// parameter is refused.
pub fn extract_trait_fn_inputs(sig: &FnSignature, no_deps: bool) -> (r: Result<
    Vec<Param>,
    EngineError,
>)
    ensures
        r is Ok <==> (no_deps || sig.inputs@.len() > 0),
        r matches Ok(v) ==> v@ == method_inputs_spec(sig.inputs@, no_deps),
        r matches Err(e) ==> e == (EngineError::MissingDependencyParameter {
            fn_ident: sig.ident,
        }),
{
    if !no_deps && sig.inputs.len() == 0 {
        return Err(EngineError::MissingDependencyParameter { fn_ident: copy_string(&sig.ident) });
    }
    let start: usize = if no_deps {
        0
    } else {
        1
    };
    let mut v: Vec<Param> = Vec::new();
    let mut i: usize = start;
    while i < sig.inputs.len()
        invariant
            start as int == slot_len(no_deps),
            start <= i <= sig.inputs@.len(),
            v@ == sig.inputs@.subrange(start as int, i as int),
        decreases sig.inputs@.len() - i,
    {
        v.push(copy_param(&sig.inputs[i]));
        i += 1;
        assert(v@ =~= sig.inputs@.subrange(start as int, i as int));
    }
    Ok(v)
}

/// The argument list of the call that forwards to the original function.
///
/// The dependency slot becomes `Dependency`; every other parameter is passed
/// on by its identifier, in its own position. A receiver outside the slot, or
/// a parameter that binds a pattern, is refused at the first such position.
pub fn extract_call_param_list(sig: &FnSignature, no_deps: bool) -> (r: Result<
    Vec<CallArg>,
    EngineError,
>)
    ensures
        r is Ok <==> forwardable(sig.inputs@, no_deps),
        r matches Ok(args) ==> args@ == call_args_spec(sig.inputs@, no_deps),
        r matches Err(e) ==> first_param_error(sig.inputs@, no_deps, e),
{
    let ghost inputs = sig.inputs@;
    let mut args: Vec<CallArg> = Vec::new();
    let mut i: usize = 0;
    while i < sig.inputs.len()
        invariant
            inputs == sig.inputs@,
            i <= inputs.len(),
            args@ == call_args_spec(inputs, no_deps).subrange(0, i as int),
            forall|j: int| slot_len(no_deps) <= j < i ==> (#[trigger] param_error(inputs[j], j)).is_none(),
        decreases inputs.len() - i,
    {
        let p = &sig.inputs[i];
        if i == 0 && !no_deps {
            args.push(CallArg::Dependency);
        } else {
            match &p.pattern {
                ParamPattern::Receiver => {
                    let e = EngineError::UnexpectedReceiverParameter { position: i };
                    assert(param_error(inputs[i as int], i as int) == Some(e));
                    return Err(e);
                },
                ParamPattern::Destructure => {
                    let e = EngineError::NonIdentifierParameterPattern { position: i };
                    assert(param_error(inputs[i as int], i as int) == Some(e));
                    return Err(e);
                },
                ParamPattern::Ident(name) => {
                    args.push(CallArg::Ident(copy_string(name)));
                },
            }
        }
        i += 1;
        assert(args@ =~= call_args_spec(inputs, no_deps).subrange(0, i as int));
    }
    assert(args@ =~= call_args_spec(inputs, no_deps));
    Ok(args)
}

/// A function decorated for the engine, with the parts of its signature that
/// the interface and the forwarding call are built from.
#[derive(PartialEq, Eq, Clone, Debug)]
pub struct EntraitFn {
    pub fn_attrs: Vec<String>,
    pub fn_vis: Visibility,
    pub fn_sig: FnSignature,
    /// The body, carried through as it was written.
    pub fn_body: String,
    pub no_deps: bool,
    /// The interface method's parameters: the signature's without the slot.
    pub trait_fn_inputs: Vec<Param>,
    /// The forwarding call's arguments, one per parameter of the signature.
    pub call_param_list: Vec<CallArg>,
}

impl EntraitFn {
    /// The derived parts agree with the signature, and the signature is one
    /// the engine accepts.
    pub open spec fn wf(&self) -> bool {
        &&& (self.no_deps || self.fn_sig.inputs@.len() > 0)
        &&& forwardable(self.fn_sig.inputs@, self.no_deps)
        &&& self.trait_fn_inputs@ == method_inputs_spec(self.fn_sig.inputs@, self.no_deps)
        &&& self.call_param_list@ == call_args_spec(self.fn_sig.inputs@, self.no_deps)
    }

    /// Builds the model of a decorated function from its parts.
    pub fn parse(
        fn_attrs: Vec<String>,
        fn_vis: Visibility,
        fn_sig: FnSignature,
        fn_body: String,
        no_deps: bool,
    ) -> (r: Result<EntraitFn, EngineError>)
        ensures
            r is Ok <==> (no_deps || fn_sig.inputs@.len() > 0) && forwardable(
                fn_sig.inputs@,
                no_deps,
            ),
            r matches Ok(f) ==> {
                &&& f.wf()
                &&& f.fn_attrs == fn_attrs
                &&& f.fn_vis == fn_vis
                &&& f.fn_sig == fn_sig
                &&& f.fn_body == fn_body
                &&& f.no_deps == no_deps
            },
            r matches Err(e) ==> if !no_deps && fn_sig.inputs@.len() == 0 {
                e == (EngineError::MissingDependencyParameter { fn_ident: fn_sig.ident })
            } else {
                first_param_error(fn_sig.inputs@, no_deps, e)
            },
    {
        let trait_fn_inputs = match extract_trait_fn_inputs(&fn_sig, no_deps) {
            Ok(v) => v,
            Err(e) => return Err(e),
        };
        let call_param_list = match extract_call_param_list(&fn_sig, no_deps) {
            Ok(v) => v,
            Err(e) => return Err(e),
        };
        Ok(EntraitFn { fn_attrs, fn_vis, fn_sig, fn_body, no_deps, trait_fn_inputs, call_param_list })
    }
}

} // verus!
