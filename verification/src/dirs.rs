//! The fixed directories of the setup flow.

use vstd::prelude::*;
use crate::text;
use crate::text::spec_path_join;

verus! {

/// The developer's home directory.
pub open spec fn spec_home_dir() -> Seq<char> {
    "/Users/joesol"@
}

/// The repository's location under the home directory.
pub open spec fn spec_repository_path() -> Seq<char> {
    spec_path_join(spec_home_dir(), "labs/programify-feature-gate"@)
}

/// The developer's home directory.
pub fn home_dir() -> (r: String)
    ensures
        r@ == spec_home_dir(),
{
    String::from_str("/Users/joesol")
}

/// The repository's location.
pub fn repository_path() -> (r: String)
    ensures
        r@ == spec_repository_path(),
{
    let h = home_dir();
    text::path_join(h.as_str(), "labs/programify-feature-gate")
}

} // verus!
