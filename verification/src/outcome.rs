//! How the bridge ends: what becomes of the errors of its parts.

use vstd::prelude::*;

verus! {

/// The error of one part, if it has one.
pub open spec fn error_of<E>(part: Result<(), E>) -> Seq<E> {
    match part {
        Ok(_) => seq![],
        Err(e) => seq![e],
    }
}

/// The errors of the three parts, in order.
pub open spec fn errors_of<E>(
    player: Result<(), E>,
    server: Result<(), E>,
    worker: Result<(), E>,
) -> Seq<E> {
    error_of(player) + error_of(server) + error_of(worker)
}

/// Settles how the bridge ends: with the last error of its parts, if there is any. The errors
/// before that one are only to be reported.
pub fn settle<E>(player: Result<(), E>, server: Result<(), E>, worker: Result<(), E>) -> (r: (
    Vec<E>,
    Result<(), E>,
))
    ensures
        ({
            let errors = errors_of(player, server, worker);
            if errors.len() == 0 {
                r.0@ == errors && r.1 is Ok
            } else {
                r.0@ == errors.drop_last() && r.1 == Err::<(), E>(errors.last())
            }
        }),
{
    let mut errors: Vec<E> = Vec::new();
    let ghost all = errors_of(player, server, worker);
    if let Err(e) = player {
        errors.push(e);
    }
    if let Err(e) = server {
        errors.push(e);
    }
    if let Err(e) = worker {
        errors.push(e);
    }
    assert(errors@ == all);
    match errors.pop() {
        Some(last) => (errors, Err(last)),
        None => (errors, Ok(())),
    }
}

} // verus!
