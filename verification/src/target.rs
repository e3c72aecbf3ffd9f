//! The check of the target before anything is run.

use crate::error::{ErrorView, MtrError};
use vstd::prelude::*;

verus! {

/// Whether a target is accepted: its name resolves, or it is written as a
/// literal address. One of the two is enough.
pub open spec fn acceptable(resolves: bool, is_literal: bool) -> bool {
    resolves || is_literal
}

/// Accepts or refuses a target, given what the resolver and the address
/// parser made of it. An accepted target is handed back as it was given.
pub fn validate_target(host: &str, resolves: bool, is_literal: bool) -> (result: Result<
    String,
    MtrError,
>)
    ensures
        match result {
            Ok(target) => acceptable(resolves, is_literal) && target@ == host@,
            Err(error) => !acceptable(resolves, is_literal) && error@
                == ErrorView::HostResolutionError(host@),
        },
{
    if resolves || is_literal {
        Ok(String::from_str(host))
    } else {
        Err(MtrError::HostResolutionError(String::from_str(host)))
    }
}

} // verus!
