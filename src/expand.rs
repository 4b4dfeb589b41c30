use vstd::prelude::*;

use crate::config::{EntraitAttr, MockLibrary};
use crate::delegation::{
    forward_interface, forwarding_spec, interface_forwarding_spec, method_forwardable,
    method_param_error, select_delegation, ForwardingImpl,
};
use crate::error::EngineError;
use crate::interface::{
    first_duplicate, group_members, methods_of, synthesize_fn_interface, synthesize_module_interface, unique_names,
    InterfaceDef,
};
use crate::mock::{mock_spec, request_mock, MockRequest};
use crate::signature::EntraitFn;

verus! {

/// What the engine produces for one decorated function or module, beside the
/// original declaration, which is echoed unchanged.
#[derive(PartialEq, Eq, Clone, Debug)]
pub struct Expansion {
    pub interface: InterfaceDef,
    pub forwarding: ForwardingImpl,
    pub mock: MockRequest,
}

/// The configuration asks for a mock library that needs a surface name, and
/// gives none.
pub open spec fn mock_refused(attr: EntraitAttr) -> bool {
    attr.mockable && attr.mock_library == MockLibrary::Unimock && attr.mock_surface_name is None
}

/// `x` is the expansion of the functions `fns` under `attr`.
pub open spec fn expansion_of(x: Expansion, attr: EntraitAttr, fns: Seq<EntraitFn>) -> bool {
    &&& Some(x.interface.ident) == attr.trait_ident
    &&& x.interface.vis == attr.trait_visibility
    &&& methods_of(x.interface.methods@, fns)
    &&& forwarding_spec(x.forwarding, x.interface, fns, attr.delegate_by)
    &&& mock_spec(Ok(x.mock), attr, x.interface)
}

/// Expands one decorated function: its single-method interface, the
/// forwarding implementation for the wrapper, and the mock request.
pub fn expand_fn(attr: &EntraitAttr, f: EntraitFn) -> (r: Result<Expansion, EngineError>)
    ensures
        r is Ok <==> attr.trait_ident is Some && !mock_refused(*attr),
        r matches Ok(x) ==> expansion_of(x, *attr, seq![f]),
        r matches Err(e) ==> if attr.trait_ident is None {
            e == EngineError::MissingInterfaceName
        } else {
            e == EngineError::MissingSurfaceName
        },
{
    let interface = match synthesize_fn_interface(attr, &f) {
        Ok(d) => d,
        Err(e) => return Err(e),
    };
    let mock = match request_mock(attr, &interface) {
        Ok(q) => q,
        Err(e) => return Err(e),
    };
    let ghost f0 = f;
    let mut fns: Vec<EntraitFn> = Vec::new();
    fns.push(f);
    assert(fns@ =~= seq![f0]);
    let forwarding = select_delegation(&interface, &fns, false, &attr.delegate_by);
    Ok(Expansion { interface, forwarding, mock })
}

/// Expands a module of decorated functions: one interface method per
/// function visible from the module, the forwarding implementation, and the
/// mock request.
pub fn expand_module(attr: &EntraitAttr, fns: &Vec<EntraitFn>) -> (r: Result<Expansion, EngineError>)
    ensures
        r is Ok <==> attr.trait_ident is Some && unique_names(group_members(fns@)) && !mock_refused(
            *attr,
        ),
        r matches Ok(x) ==> expansion_of(x, *attr, group_members(fns@)),
        r matches Err(e) ==> attr.trait_ident is None ==> e == EngineError::MissingInterfaceName,
        r matches Err(e) ==> attr.trait_ident is Some && !unique_names(group_members(fns@)) ==> exists|
            name: String,
        | first_duplicate(group_members(fns@), name) && e == (EngineError::DuplicateMethodName { name }),
        r matches Err(e) ==> attr.trait_ident is Some && unique_names(group_members(fns@)) ==> e
            == EngineError::MissingSurfaceName,
{
    let interface = match synthesize_module_interface(attr, fns) {
        Ok(d) => d,
        Err(e) => return Err(e),
    };
    let mock = match request_mock(attr, &interface) {
        Ok(q) => q,
        Err(e) => return Err(e),
    };
    let forwarding = select_delegation(&interface, fns, true, &attr.delegate_by);
    Ok(Expansion { interface, forwarding, mock })
}

/// What the engine produces for an interface that is already declared: the
/// forwarding implementation for the wrapper, and the mock request.
#[derive(PartialEq, Eq, Clone, Debug)]
pub struct InterfaceExpansion {
    pub forwarding: ForwardingImpl,
    pub mock: MockRequest,
}

/// Expands an interface that is already declared. The interface keeps its
/// own name; the strategy comes from `delegate_by`, and a name given with the
/// declaration names the delegation-target interface.
pub fn expand_interface(attr: &EntraitAttr, iface: &InterfaceDef) -> (r: Result<
    InterfaceExpansion,
    EngineError,
>)
    ensures
        r is Ok <==> (forall|i: int|
            0 <= i < iface.methods@.len() ==> method_forwardable(#[trigger] iface.methods@[i]))
            && !mock_refused(*attr),
        r matches Ok(x) ==> interface_forwarding_spec(x.forwarding, *iface, attr.delegate_by, attr.trait_ident)
            && mock_spec(Ok(x.mock), *attr, *iface),
        r matches Err(e) ==> if forall|i: int|
            0 <= i < iface.methods@.len() ==> method_forwardable(#[trigger] iface.methods@[i]) {
            e == EngineError::MissingSurfaceName
        } else {
            exists|i: int|
                0 <= i < iface.methods@.len() && method_param_error(#[trigger] iface.methods@[i], e)
                    && forall|k: int| 0 <= k < i ==> method_forwardable(#[trigger] iface.methods@[k])
        },
{
    let forwarding = match forward_interface(iface, &attr.delegate_by, &attr.trait_ident) {
        Ok(f) => f,
        Err(e) => return Err(e),
    };
    let mock = match request_mock(attr, iface) {
        Ok(q) => q,
        Err(e) => return Err(e),
    };
    Ok(InterfaceExpansion { forwarding, mock })
}

} // verus!
