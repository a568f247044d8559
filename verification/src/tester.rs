//! Trying a target out: acts go back to the target itself, not to Discord.

use vstd::prelude::*;

use crate::act::Stage;
use crate::raccord::Sendable;
use crate::wire::RequestBuilder;

verus! {

/// A staged act, for the target to look at.
#[derive(Clone, Debug)]
pub struct Wrap(pub Stage);

impl Sendable for Wrap {
    open spec fn path(&self) -> Seq<char> {
        "/test/act"@
    }

    open spec fn metadata(&self) -> Seq<(Seq<char>, Seq<char>)> {
        seq![]
    }

    open spec fn contents(&self) -> Option<Seq<char>> {
        None
    }

    fn url(&self) -> (r: String) {
        "/test/act".to_owned()
    }

    fn customise(&self, req: RequestBuilder) -> (r: RequestBuilder) {
        assert(req@.headers + self.metadata() == req@.headers);
        req
    }

    fn body(&self) -> (r: Option<Vec<u8>>) {
        None
    }
}

} // verus!
