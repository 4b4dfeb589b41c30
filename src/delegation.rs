use vstd::prelude::*;

use crate::config::DelegateBy;
use crate::interface::{InterfaceDef, MethodReceiver, TraitMethod};
use crate::error::EngineError;
use crate::signature::{copy_params, copy_string, param_error, CallArg, EntraitFn, ParamPattern, Visibility};

verus! {

/// What a forwarding method calls.
#[derive(PartialEq, Eq, Clone, Debug)]
pub enum Callee {
    /// The original function, by name.
    OriginalFn(String),
    /// The interface method of this name, through a dynamic reference.
    DynMethod(String),
    /// The delegation target's static function of this name.
    TargetFn(String),
    /// The inherent method of this name on the implementing type.
    InherentMethod(String),
    /// The interface method of this name, called on the inner value.
    InnerMethod(String),
}

/// The expression handed over in the dependency position of the call.
#[derive(PartialEq, Eq, Structural, Clone, Copy, Debug)]
pub enum DependencyExpr {
    /// A reference to the wrapper's inner value.
    InnerRef,
    /// The inner value, upcast to a dynamic interface reference.
    DynUpcast,
    /// The wrapper itself, by reference.
    WrapperRef,
}

/// The constraint the forwarding implementation puts on the wrapper's inner type.
#[derive(PartialEq, Eq, Clone, Debug)]
pub enum WrapperBound {
    /// The inner type implements the named interface.
    InnerImplements(String),
    /// The inner type can be viewed as a dynamic reference to the named interface.
    InnerUpcastsTo(String),
    /// The inner type implements the selector, whose `Target` implements the
    /// delegation-target interface.
    SelectorTarget { selector: String, target_trait: String },
}

/// One method of a forwarding implementation: the call its body makes.
#[derive(PartialEq, Eq, Clone, Debug)]
pub struct ForwardingMethod {
    pub ident: String,
    pub callee: Callee,
    pub dependency: DependencyExpr,
    /// The arguments, in order; `CallArg::Dependency` marks where
    /// `dependency` goes.
    pub args: Vec<CallArg>,
}

/// The implementation of an interface for the generic wrapper type.
#[derive(PartialEq, Eq, Clone, Debug)]
pub struct ForwardingImpl {
    pub interface: String,
    pub strategy: DelegateBy,
    pub bound: WrapperBound,
    pub methods: Vec<ForwardingMethod>,
    /// The static delegation-target interface, for named delegation.
    pub delegation_target: Option<InterfaceDef>,
}

pub open spec fn callee_spec(by: DelegateBy, f: EntraitFn) -> Callee {
    match by {
        DelegateBy::SelfBound => Callee::OriginalFn(f.fn_sig.ident),
        DelegateBy::RefUpcast => Callee::DynMethod(f.fn_sig.ident),
        DelegateBy::Named(_) => Callee::TargetFn(f.fn_sig.ident),
    }
}

pub open spec fn dependency_spec(by: DelegateBy) -> DependencyExpr {
    match by {
        DelegateBy::SelfBound => DependencyExpr::InnerRef,
        DelegateBy::RefUpcast => DependencyExpr::DynUpcast,
        DelegateBy::Named(_) => DependencyExpr::WrapperRef,
    }
}

/// The name of the delegation-target interface of an interface: the name
/// given for it, or else the interface's name followed by `Impl`.
pub open spec fn target_trait_name(iface: Seq<char>, given: Option<String>) -> Seq<char> {
    match given {
        Some(n) => n@,
        None => iface + "Impl"@,
    }
}

/// `b` is the constraint the strategy puts on the wrapper for `iface`, whose
/// delegation-target interface is named `target`.
pub open spec fn bound_spec(b: WrapperBound, by: DelegateBy, iface: String, target: Seq<char>) -> bool {
    match by {
        DelegateBy::SelfBound => b == WrapperBound::InnerImplements(iface),
        DelegateBy::RefUpcast => b == WrapperBound::InnerUpcastsTo(iface),
        DelegateBy::Named(sel) => match b {
            WrapperBound::SelectorTarget { selector, target_trait } => selector == sel
                && target_trait@ == target,
            _ => false,
        },
    }
}

/// `m` forwards to `f` as the strategy `by` does.
pub open spec fn forwards_to(m: ForwardingMethod, f: EntraitFn, by: DelegateBy) -> bool {
    &&& m.ident == f.fn_sig.ident
    &&& m.callee == callee_spec(by, f)
    &&& m.dependency == dependency_spec(by)
    &&& m.args@ == f.call_param_list@
}

/// `t` is the static counterpart of `m`: the wrapper becomes an explicit
/// first parameter.
pub open spec fn target_method_of(t: TraitMethod, m: TraitMethod) -> bool {
    &&& t.ident == m.ident
    &&& t.receiver == MethodReceiver::WrapperParam
    &&& t.inputs@ == m.inputs@
    &&& t.output == m.output
    &&& t.is_async == m.is_async
}

/// `t` is the delegation-target interface of `iface`, named `target`.
pub open spec fn delegation_target_of(t: InterfaceDef, iface: InterfaceDef, target: Seq<char>) -> bool {
    &&& t.ident@ == target
    &&& t.vis == iface.vis
    &&& t.methods@.len() == iface.methods@.len()
    &&& forall|i: int| 0 <= i < iface.methods@.len() ==> target_method_of(#[trigger] t.methods@[i], iface.methods@[i])
}

/// The functions a forwarding implementation covers: the visible members of
/// a group, or every function given.
pub open spec fn forwarded_fns(fns: Seq<EntraitFn>, grouped: bool) -> Seq<EntraitFn> {
    if grouped {
        crate::interface::group_members(fns)
    } else {
        fns
    }
}

/// `r` is the forwarding implementation of `iface` for `fns` by strategy `by`.
pub open spec fn forwarding_spec(r: ForwardingImpl, iface: InterfaceDef, fns: Seq<EntraitFn>, by: DelegateBy) -> bool {
    &&& r.interface == iface.ident
    &&& r.strategy == by
    &&& bound_spec(r.bound, by, iface.ident, target_trait_name(iface.ident@, None))
    &&& r.methods@.len() == fns.len()
    &&& forall|i: int| 0 <= i < fns.len() ==> forwards_to(#[trigger] r.methods@[i], fns[i], by)
    &&& match by {
        DelegateBy::Named(_) => r.delegation_target matches Some(t) && delegation_target_of(
            t,
            iface,
            target_trait_name(iface.ident@, None),
        ),
        _ => r.delegation_target is None,
    }
}

pub(crate) fn copy_delegate_by(by: &DelegateBy) -> (r: DelegateBy)
    ensures
        r == *by,
{
    match by {
        DelegateBy::SelfBound => DelegateBy::SelfBound,
        DelegateBy::RefUpcast => DelegateBy::RefUpcast,
        DelegateBy::Named(s) => DelegateBy::Named(copy_string(s)),
    }
}

fn copy_call_args(args: &Vec<CallArg>) -> (r: Vec<CallArg>)
    ensures
        r@ == args@,
{
    let mut r: Vec<CallArg> = Vec::new();
    let mut i: usize = 0;
    while i < args.len()
        invariant
            i <= args@.len(),
            r@ == args@.subrange(0, i as int),
        decreases args@.len() - i,
    {
        let a = match &args[i] {
            CallArg::Dependency => CallArg::Dependency,
            CallArg::Ident(n) => CallArg::Ident(copy_string(n)),
        };
        r.push(a);
        i += 1;
        assert(r@ =~= args@.subrange(0, i as int));
    }
    assert(r@ =~= args@);
    r
}

fn forwarding_method(f: &EntraitFn, by: &DelegateBy) -> (r: ForwardingMethod)
    ensures
        forwards_to(r, *f, *by),
{
    let name = copy_string(&f.fn_sig.ident);
    let (callee, dependency) = match by {
        DelegateBy::SelfBound => (Callee::OriginalFn(name), DependencyExpr::InnerRef),
        DelegateBy::RefUpcast => (Callee::DynMethod(name), DependencyExpr::DynUpcast),
        DelegateBy::Named(_) => (Callee::TargetFn(name), DependencyExpr::WrapperRef),
    };
    ForwardingMethod {
        ident: copy_string(&f.fn_sig.ident),
        callee,
        dependency,
        args: copy_call_args(&f.call_param_list),
    }
}

/// The delegation-target interface of `iface`, named `name`: the same
/// methods, made static and taking the wrapper by reference.
pub fn delegation_target(iface: &InterfaceDef, name: String) -> (r: InterfaceDef)
    ensures
        delegation_target_of(r, *iface, name@),
{
    let mut methods: Vec<TraitMethod> = Vec::new();
    let mut i: usize = 0;
    while i < iface.methods.len()
        invariant
            i <= iface.methods@.len(),
            methods@.len() == i,
            forall|j: int| 0 <= j < i ==> target_method_of(#[trigger] methods@[j], iface.methods@[j]),
        decreases iface.methods@.len() - i,
    {
        let m = &iface.methods[i];
        methods.push(
            TraitMethod {
                ident: copy_string(&m.ident),
                receiver: MethodReceiver::WrapperParam,
                inputs: copy_params(&m.inputs),
                output: copy_string(&m.output),
                is_async: m.is_async,
            },
        );
        i += 1;
    }
    InterfaceDef { ident: name, vis: iface.vis, methods }
}

/// The wrapper's constraint under strategy `by`, and the delegation-target
/// interface that named delegation declares.
fn strategy_bound(iface: &InterfaceDef, by: &DelegateBy, given: &Option<String>) -> (r: (
    WrapperBound,
    Option<InterfaceDef>,
))
    ensures
        bound_spec(r.0, *by, iface.ident, target_trait_name(iface.ident@, *given)),
        match *by {
            DelegateBy::Named(_) => r.1 matches Some(t) && delegation_target_of(
                t,
                *iface,
                target_trait_name(iface.ident@, *given),
            ),
            _ => r.1 is None,
        },
{
    match by {
        DelegateBy::SelfBound => (WrapperBound::InnerImplements(copy_string(&iface.ident)), None),
        DelegateBy::RefUpcast => (WrapperBound::InnerUpcastsTo(copy_string(&iface.ident)), None),
        DelegateBy::Named(sel) => {
            let name = match given {
                Some(n) => copy_string(n),
                None => copy_string(&iface.ident).concat("Impl"),
            };
            let t = delegation_target(iface, name);
            (
                WrapperBound::SelectorTarget {
                    selector: copy_string(sel),
                    target_trait: copy_string(&t.ident),
                },
                Some(t),
            )
        },
    }
}

/// The forwarding implementation of `iface` for the wrapper, by strategy `by`.
///
/// Every method calls what the strategy says with the dependency expression
/// in the slot and all other arguments as the original function takes them.
/// With `grouped`, the private functions of the group are skipped, as the
/// interface skips them. Named delegation also yields the delegation-target
/// interface.
pub fn select_delegation(
    iface: &InterfaceDef,
    fns: &Vec<EntraitFn>,
    grouped: bool,
    by: &DelegateBy,
) -> (r: ForwardingImpl)
    ensures
        forwarding_spec(r, *iface, forwarded_fns(fns@, grouped), *by),
{
    let mut methods: Vec<ForwardingMethod> = Vec::new();
    let mut i: usize = 0;
    assert(fns@.subrange(0, 0) =~= Seq::<EntraitFn>::empty());
    while i < fns.len()
        invariant
            i <= fns@.len(),
            methods@.len() == forwarded_fns(fns@.subrange(0, i as int), grouped).len(),
            forall|j: int|
                0 <= j < methods@.len() ==> forwards_to(
                    #[trigger] methods@[j],
                    forwarded_fns(fns@.subrange(0, i as int), grouped)[j],
                    *by,
                ),
        decreases fns@.len() - i,
    {
        let ghost before = forwarded_fns(fns@.subrange(0, i as int), grouped);
        assert(fns@.subrange(0, i as int + 1).drop_last() =~= fns@.subrange(0, i as int));
        if !grouped {
            assert(fns@.subrange(0, i as int + 1) =~= before.push(fns@[i as int]));
        }
        let f = &fns[i];
        if !grouped || f.fn_vis != Visibility::Private {
            methods.push(forwarding_method(f, by));
        }
        i += 1;
    }
    assert(fns@.subrange(0, i as int) =~= fns@);
    let (bound, delegation_target) = strategy_bound(iface, by, &None);
    ForwardingImpl {
        interface: copy_string(&iface.ident),
        strategy: copy_delegate_by(by),
        bound,
        methods,
        delegation_target,
    }
}

/// Number of leading parameters an interface method's receiver takes.
pub open spec fn receiver_slot(m: TraitMethod) -> int {
    if m.receiver == MethodReceiver::Static {
        0
    } else {
        1
    }
}

/// Every parameter of an interface method binds a plain identifier.
pub open spec fn method_forwardable(m: TraitMethod) -> bool {
    forall|j: int| 0 <= j < m.inputs@.len() ==> (#[trigger] param_error(m.inputs@[j], j + receiver_slot(m))).is_none()
}

/// `e` is the error of the first parameter of `m` that cannot be forwarded;
/// positions count the receiver.
pub open spec fn method_param_error(m: TraitMethod, e: EngineError) -> bool {
    exists|j: int|
        0 <= j < m.inputs@.len() && #[trigger] param_error(m.inputs@[j], j + receiver_slot(m)) == Some(e)
            && forall|l: int| 0 <= l < j ==> (#[trigger] param_error(m.inputs@[l], l + receiver_slot(m))).is_none()
}

/// The forwarding call's arguments for a method of an existing interface:
/// the receiver becomes the dependency, every parameter is passed on by its
/// identifier.
pub open spec fn method_call_args(m: TraitMethod) -> Seq<CallArg> {
    let rest = Seq::new(m.inputs@.len(), |j: int| CallArg::Ident(m.inputs@[j].pattern->Ident_0));
    if m.receiver == MethodReceiver::Static {
        rest
    } else {
        seq![CallArg::Dependency] + rest
    }
}

pub open spec fn interface_callee_spec(by: DelegateBy, name: String) -> Callee {
    match by {
        DelegateBy::SelfBound => Callee::InnerMethod(name),
        DelegateBy::RefUpcast => Callee::DynMethod(name),
        DelegateBy::Named(_) => Callee::TargetFn(name),
    }
}

/// `fm` forwards the method `m` of an existing interface as `by` does.
pub open spec fn forwards_method(fm: ForwardingMethod, m: TraitMethod, by: DelegateBy) -> bool {
    &&& fm.ident == m.ident
    &&& fm.callee == interface_callee_spec(by, m.ident)
    &&& fm.dependency == dependency_spec(by)
    &&& fm.args@ == method_call_args(m)
}

/// `r` forwards every method of the existing interface `iface` by `by`; a
/// name given with the declaration names the delegation-target interface.
pub open spec fn interface_forwarding_spec(
    r: ForwardingImpl,
    iface: InterfaceDef,
    by: DelegateBy,
    given: Option<String>,
) -> bool {
    &&& r.interface == iface.ident
    &&& r.strategy == by
    &&& bound_spec(r.bound, by, iface.ident, target_trait_name(iface.ident@, given))
    &&& r.methods@.len() == iface.methods@.len()
    &&& forall|i: int|
        0 <= i < iface.methods@.len() ==> forwards_method(#[trigger] r.methods@[i], iface.methods@[i], by)
    &&& match by {
        DelegateBy::Named(_) => r.delegation_target matches Some(t) && delegation_target_of(
            t,
            iface,
            target_trait_name(iface.ident@, given),
        ),
        _ => r.delegation_target is None,
    }
}

fn method_forwarding(m: &TraitMethod, by: &DelegateBy) -> (r: Result<ForwardingMethod, EngineError>)
    ensures
        r is Ok <==> method_forwardable(*m),
        r matches Ok(fm) ==> forwards_method(fm, *m, *by),
        r matches Err(e) ==> method_param_error(*m, e),
{
    let ghost rest = Seq::new(m.inputs@.len(), |j: int| CallArg::Ident(m.inputs@[j].pattern->Ident_0));
    let ghost head: Seq<CallArg> = if m.receiver == MethodReceiver::Static {
        Seq::empty()
    } else {
        seq![CallArg::Dependency]
    };
    let offset: usize = if m.receiver == MethodReceiver::Static {
        0
    } else {
        1
    };
    let mut args: Vec<CallArg> = Vec::new();
    if offset == 1 {
        args.push(CallArg::Dependency);
    }
    assert(args@ =~= head);
    let mut j: usize = 0;
    while j < m.inputs.len()
        invariant
            offset as int == receiver_slot(*m),
            j <= m.inputs@.len(),
            rest == Seq::new(m.inputs@.len(), |l: int| CallArg::Ident(m.inputs@[l].pattern->Ident_0)),
            head == (if m.receiver == MethodReceiver::Static {
                Seq::<CallArg>::empty()
            } else {
                seq![CallArg::Dependency]
            }),
            args@ =~= head + rest.subrange(0, j as int),
            forall|l: int| 0 <= l < j ==> (#[trigger] param_error(m.inputs@[l], l + receiver_slot(*m))).is_none(),
        decreases m.inputs@.len() - j,
    {
        match &m.inputs[j].pattern {
            ParamPattern::Ident(n) => {
                args.push(CallArg::Ident(copy_string(n)));
            },
            ParamPattern::Receiver => {
                let e = EngineError::UnexpectedReceiverParameter { position: j + offset };
                assert(param_error(m.inputs@[j as int], j + receiver_slot(*m)) == Some(e));
                return Err(e);
            },
            ParamPattern::Destructure => {
                let e = EngineError::NonIdentifierParameterPattern { position: j + offset };
                assert(param_error(m.inputs@[j as int], j + receiver_slot(*m)) == Some(e));
                return Err(e);
            },
        }
        j += 1;
        assert(args@ =~= head + rest.subrange(0, j as int));
    }
    assert(rest.subrange(0, j as int) =~= rest);
    let (callee, dependency) = match by {
        DelegateBy::SelfBound => (Callee::InnerMethod(copy_string(&m.ident)), DependencyExpr::InnerRef),
        DelegateBy::RefUpcast => (Callee::DynMethod(copy_string(&m.ident)), DependencyExpr::DynUpcast),
        DelegateBy::Named(_) => (Callee::TargetFn(copy_string(&m.ident)), DependencyExpr::WrapperRef),
    };
    Ok(ForwardingMethod { ident: copy_string(&m.ident), callee, dependency, args })
}

/// The forwarding implementation for the wrapper of an interface that is
/// already declared.
///
/// Each method calls the interface method, through the strategy `by`, with
/// the receiver as the dependency and every parameter passed on by its
/// identifier. The first parameter, in method order, that binds anything but
/// an identifier is refused. Named delegation declares the delegation-target
/// interface under `target_name` where one is given.
pub fn forward_interface(iface: &InterfaceDef, by: &DelegateBy, target_name: &Option<String>) -> (r:
    Result<ForwardingImpl, EngineError>)
    ensures
        r is Ok <==> forall|i: int| 0 <= i < iface.methods@.len() ==> method_forwardable(#[trigger] iface.methods@[i]),
        r matches Ok(f) ==> interface_forwarding_spec(f, *iface, *by, *target_name),
        r matches Err(e) ==> exists|i: int|
            0 <= i < iface.methods@.len() && method_param_error(#[trigger] iface.methods@[i], e)
                && forall|k: int| 0 <= k < i ==> method_forwardable(#[trigger] iface.methods@[k]),
{
    let mut methods: Vec<ForwardingMethod> = Vec::new();
    let mut i: usize = 0;
    while i < iface.methods.len()
        invariant
            i <= iface.methods@.len(),
            methods@.len() == i,
            forall|k: int| 0 <= k < i ==> method_forwardable(#[trigger] iface.methods@[k]),
            forall|k: int| 0 <= k < i ==> forwards_method(#[trigger] methods@[k], iface.methods@[k], *by),
        decreases iface.methods@.len() - i,
    {
        match method_forwarding(&iface.methods[i], by) {
            Ok(fm) => methods.push(fm),
            Err(e) => return Err(e),
        }
        i += 1;
    }
    let (bound, delegation_target) = strategy_bound(iface, by, target_name);
    Ok(
        ForwardingImpl {
            interface: copy_string(&iface.ident),
            strategy: copy_delegate_by(by),
            bound,
            methods,
            delegation_target,
        },
    )
}

} // verus!
