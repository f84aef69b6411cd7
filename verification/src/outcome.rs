use vstd::prelude::*;

verus! {

/// The result of an instruction whose first failing check, if any, is `e`.
pub open spec fn outcome<E>(e: Option<E>) -> Result<(), E> {
    match e {
        Some(err) => Err(err),
        None => Ok(()),
    }
}

} // verus!
