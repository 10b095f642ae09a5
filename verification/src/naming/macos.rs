//! Shared-object names under the macOS convention.

use vstd::prelude::*;
use vstd::string::*;

verus! {

/// The file name that the macOS loader expects for library `s`: `lib{s}.dylib`.
pub open spec fn macos_library_file_name(s: Seq<char>) -> Seq<char> {
    seq!['l', 'i', 'b'] + s + seq!['.', 'd', 'y', 'l', 'i', 'b']
}

/// Builds the macOS file name of the shared object called `s` (`lib{s}.dylib`).
pub fn make_system_specific_name(s: &str) -> (r: String)
    ensures
        r@ == macos_library_file_name(s@),
        r@ == "lib"@ + s@ + ".dylib"@,
{
    let mut r = String::from_str("lib");
    r.append(s);
    r.append(".dylib");
    proof {
        reveal_strlit("lib");
        reveal_strlit(".dylib");
    }
    assert(r@ =~= macos_library_file_name(s@));
    assert(r@ =~= "lib"@ + s@ + ".dylib"@);
    r
}

} // verus!
