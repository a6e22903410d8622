use vstd::prelude::*;

verus! {

/// The query parameters of an image proxy request.
#[derive(Debug)]
pub struct Params {
    pub referer: Option<String>,
}

} // verus!
