//! Shared-object names under the Windows convention.

use vstd::prelude::*;
use vstd::string::*;

verus! {

/// The file name that the Windows loader expects for library `s`: `{s}.dll`.
pub open spec fn windows_library_file_name(s: Seq<char>) -> Seq<char> {
    s + seq!['.', 'd', 'l', 'l']
}

/// Builds the Windows file name of the shared object called `s` (`{s}.dll`).
pub fn make_system_specific_name(s: &str) -> (r: String)
    ensures
        r@ == windows_library_file_name(s@),
        r@ == s@ + ".dll"@,
{
    let mut r = String::from_str(s);
    r.append(".dll");
    proof {
        reveal_strlit(".dll");
    }
    assert(r@ =~= windows_library_file_name(s@));
    assert(r@ =~= s@ + ".dll"@);
    r
}

} // verus!
