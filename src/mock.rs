use vstd::prelude::*;

use crate::config::{EntraitAttr, MockLibrary};
use crate::error::EngineError;
use crate::interface::InterfaceDef;
use crate::signature::copy_string;

verus! {

/// What the mocking collaborator is asked for: whether a mock surface is
/// wanted, under which name, and for which library.
#[derive(PartialEq, Eq, Clone, Debug)]
pub struct MockRequest {
    pub requested: bool,
    pub surface_name: Option<String>,
    pub library: MockLibrary,
}

/// The input handed to the mocking collaborator: the surface name and the
/// interfaces to reify.
#[derive(PartialEq, Eq, Clone, Debug)]
pub struct EntraitGenerateMockInput {
    pub mock_ident: String,
    pub trait_items: Vec<InterfaceDef>,
}

/// The name a mockall surface gets when none is configured.
pub open spec fn default_surface_name(iface: Seq<char>) -> Seq<char> {
    "Mock"@ + iface
}

/// `r` is what a mock request for `iface` under `attr` comes to.
pub open spec fn mock_spec(r: Result<MockRequest, EngineError>, attr: EntraitAttr, iface: InterfaceDef) -> bool {
    if !attr.mockable || attr.mock_library == MockLibrary::Absent {
        r == Ok::<MockRequest, EngineError>(
            MockRequest { requested: false, surface_name: None, library: attr.mock_library },
        )
    } else {
        match attr.mock_surface_name {
            Some(n) => r == Ok::<MockRequest, EngineError>(
                MockRequest { requested: true, surface_name: Some(n), library: attr.mock_library },
            ),
            None => if attr.mock_library == MockLibrary::Unimock {
                r == Err::<MockRequest, EngineError>(EngineError::MissingSurfaceName)
            } else {
                match r {
                    Ok(q) => q.requested && q.library == attr.mock_library && match q.surface_name {
                        Some(s) => s@ == default_surface_name(iface.ident@),
                        None => false,
                    },
                    Err(_) => false,
                }
            },
        }
    }
}

/// Decides whether, and under which name, a mock surface of `iface` is
/// requested.
///
/// Nothing is requested unless the declaration is mockable and a mock library
/// is in use. Unimock needs an explicit surface name; mockall falls back to
/// `Mock` followed by the interface name.
pub fn request_mock(attr: &EntraitAttr, iface: &InterfaceDef) -> (r: Result<MockRequest, EngineError>)
    ensures
        mock_spec(r, *attr, *iface),
{
    if !attr.mockable || attr.mock_library == MockLibrary::Absent {
        return Ok(MockRequest { requested: false, surface_name: None, library: attr.mock_library });
    }
    let name = match &attr.mock_surface_name {
        Some(n) => copy_string(n),
        None => {
            if attr.mock_library == MockLibrary::Unimock {
                return Err(EngineError::MissingSurfaceName);
            }
            String::from_str("Mock").concat(iface.ident.as_str())
        },
    };
    Ok(MockRequest { requested: true, surface_name: Some(name), library: attr.mock_library })
}

impl EntraitGenerateMockInput {
    /// The collaborator's input for a request, if a surface was requested.
    pub fn from_request(req: &MockRequest, trait_items: Vec<InterfaceDef>) -> (r: Option<
        EntraitGenerateMockInput,
    >)
        ensures
            r is Some <==> req.requested && req.surface_name is Some,
            r matches Some(x) ==> Some(x.mock_ident) == req.surface_name && x.trait_items
                == trait_items,
    {
        if !req.requested {
            return None;
        }
        match &req.surface_name {
            Some(n) => Some(EntraitGenerateMockInput { mock_ident: copy_string(n), trait_items }),
            None => None,
        }
    }
}

} // verus!
