use ink_primitives::LangError;
use vstd::prelude::*;

verus! {

/// A failure of the called contract to route a call, as ink! reports it; it is kept apart
/// from the failures of the transport.
#[derive(Clone, Copy, Debug, PartialEq, Eq)]
pub struct InkLangError(pub LangError);

impl From<LangError> for InkLangError {
    fn from(e: LangError) -> (r: Self)
        ensures
            r.0 == e,
    {
        Self(e)
    }
}

impl vstd::std_specs::convert::FromSpecImpl<LangError> for InkLangError {
    open spec fn obeys_from_spec() -> bool {
        true
    }

    open spec fn from_spec(e: LangError) -> Self {
        InkLangError(e)
    }
}

} // verus!
