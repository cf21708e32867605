//! The banner shown above the connection menu. It carries no state;
//! drawing it is the rendering layer's business.

use vstd::prelude::*;

verus! {

/// The stateless title banner.
#[derive(Clone, Copy, Debug, PartialEq, Eq, Structural)]
pub struct Title {}

impl Default for Title {
    fn default() -> (r: Title)
        ensures
            r == (Title {  }),
    {
        Title {  }
    }
}

} // verus!
