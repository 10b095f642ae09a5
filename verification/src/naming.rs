//! Shared-object file names for plugins given by a bare name.
//!
//! A plugin that is not registered and not bundled is looked up as a shared
//! object. Besides the name as written, the loader also tries the name that the
//! platform's dynamic loader uses for a library of that name: for `dir/foo`
//! that is `dir/libfoo.so` on Linux and FreeBSD, and `dir/libfoo.dylib` on
//! macOS. Names that already hold a `.` are taken to be file names and get no
//! such variant.
//!
//! Paths are split into components the way Unix paths are: `/` separates
//! components, repeated and trailing separators are ignored, and a leading `/`
//! is the root. Windows paths (drive and UNC prefixes, `\\` as a separator)
//! are not split here; [`windows`] only gives the Windows file name of a library.

use vstd::prelude::*;
use vstd::string::*;

pub mod macos;
pub mod windows;

verus! {

/// The Unix platforms whose library naming the loader follows.
#[derive(Clone, Copy, Debug)]
pub enum Platform {
    /// Linux and FreeBSD: `lib{name}.so`.
    LinuxFreeBsd,
    /// macOS: `lib{name}.dylib`.
    MacOs,
}

/// The file name that the dynamic loader of `platform` expects for library `s`.
pub open spec fn library_file_name(platform: Platform, s: Seq<char>) -> Seq<char> {
    match platform {
        Platform::LinuxFreeBsd => unix_library_file_name(s),
        Platform::MacOs => macos::macos_library_file_name(s),
    }
}

/// Builds the file name of the shared object called `s` on `platform`.
pub fn platform_library_file_name(platform: Platform, s: &str) -> (r: String)
    ensures
        r@ == library_file_name(platform, s@),
{
    match platform {
        Platform::LinuxFreeBsd => make_system_specific_name(s),
        Platform::MacOs => macos::make_system_specific_name(s),
    }
}

/// The file name that the Linux/FreeBSD dynamic loader expects for library `s`: `lib{s}.so`.
pub open spec fn unix_library_file_name(s: Seq<char>) -> Seq<char> {
    seq!['l', 'i', 'b'] + s + seq!['.', 's', 'o']
}

/// Builds the platform file name of the shared object called `s` (`lib{s}.so`).
pub fn make_system_specific_name(s: &str) -> (r: String)
    ensures
        r@ == unix_library_file_name(s@),
        r@ == "lib"@ + s@ + ".so"@,
{
    let mut r = String::from_str("lib");
    r.append(s);
    r.append(".so");
    proof {
        reveal_strlit("lib");
        reveal_strlit(".so");
    }
    assert(r@ =~= unix_library_file_name(s@));
    assert(r@ =~= "lib"@ + s@ + ".so"@);
    r
}

/// Length of the root of path `s`: 1 if it starts with `/`, else 0.
pub open spec fn root_len(s: Seq<char>) -> int {
    if s.len() > 0 && s[0] == '/' {
        1
    } else {
        0
    }
}

/// `s` without its trailing separators, but never shorter than `floor`.
pub open spec fn trim_trailing_separators(s: Seq<char>, floor: int) -> Seq<char>
    decreases s.len(),
{
    if s.len() > 0 && s.len() > floor && s.last() == '/' {
        trim_trailing_separators(s.drop_last(), floor)
    } else {
        s
    }
}

/// Where the last component of `t` starts: just after the last separator at or
/// after position `floor`, or at `floor` when there is none.
pub open spec fn component_start(t: Seq<char>, floor: int) -> int
    decreases t.len(),
{
    if t.len() == 0 || t.len() <= floor || t.last() == '/' {
        t.len() as int
    } else {
        component_start(t.drop_last(), floor)
    }
}

/// `s` up to the end of its last component.
pub open spec fn trimmed_path(s: Seq<char>) -> Seq<char> {
    trim_trailing_separators(s, root_len(s))
}

/// Start of the last component of path `s`.
pub open spec fn last_component_start(s: Seq<char>) -> int {
    component_start(trimmed_path(s), root_len(s))
}

/// The final component of path `s`, if it has one (a path that is empty or
/// only a root has none).
pub open spec fn unix_file_name(s: Seq<char>) -> Option<Seq<char>> {
    let t = trimmed_path(s);
    let k = last_component_start(s);
    if k < t.len() {
        Some(t.subrange(k, t.len() as int))
    } else {
        None
    }
}

/// The path `s` without its final component and the separators before it
/// (the root stays; a relative path of one component has the empty parent).
pub open spec fn unix_parent(s: Seq<char>) -> Seq<char> {
    trim_trailing_separators(s.subrange(0, last_component_start(s)), root_len(s))
}

/// The variant of plugin name `s` on `platform`: none when `s` holds a `.`
/// or has no final component; otherwise `{parent}/{library file name}`, such
/// as `{parent}/lib{file name}.so`.
pub open spec fn system_specific_name_on(platform: Platform, s: Seq<char>) -> Option<Seq<char>> {
    if s.contains('.') {
        None
    } else {
        match unix_file_name(s) {
            Some(name) => Some(unix_parent(s) + seq!['/'] + library_file_name(platform, name)),
            None => None,
        }
    }
}

/// The Linux/FreeBSD variant of plugin name `s` (`{parent}/lib{file name}.so`).
pub open spec fn system_specific_name_of(s: Seq<char>) -> Option<Seq<char>> {
    system_specific_name_on(Platform::LinuxFreeBsd, s)
}

proof fn lemma_trimmed_prefix(s: Seq<char>, floor: int, end: int)
    requires
        0 <= floor < end <= s.len(),
        s[end - 1] == '/',
    ensures
        trim_trailing_separators(s.subrange(0, end), floor) == trim_trailing_separators(
            s.subrange(0, end - 1),
            floor,
        ),
{
    assert(s.subrange(0, end).drop_last() =~= s.subrange(0, end - 1));
}

/// Returns the end of `s[..end]` once its trailing separators are dropped,
/// keeping at least `floor` characters.
fn trim_end(s: &str, floor: usize, end: usize) -> (r: usize)
    requires
        floor <= end <= s@.len(),
    ensures
        floor <= r <= end,
        s@.subrange(0, r as int) == trim_trailing_separators(s@.subrange(0, end as int), floor as int),
{
    let mut e = end;
    while e > floor && s.get_char(e - 1) == '/'
        invariant
            floor <= e <= end <= s@.len(),
            trim_trailing_separators(s@.subrange(0, e as int), floor as int)
                == trim_trailing_separators(s@.subrange(0, end as int), floor as int),
        decreases e,
    {
        proof {
            lemma_trimmed_prefix(s@, floor as int, e as int);
        }
        e = e - 1;
    }
    assert(s@.subrange(0, e as int).len() == e);
    if e > floor {
        assert(s@.subrange(0, e as int).last() == s@[e - 1]);
    }
    e
}

/// Returns where the last component of `s[..end]` starts (see [`component_start`]).
fn find_component_start(s: &str, floor: usize, end: usize) -> (r: usize)
    requires
        floor <= end <= s@.len(),
    ensures
        floor <= r <= end,
        r == component_start(s@.subrange(0, end as int), floor as int),
{
    let mut k = end;
    while k > floor && s.get_char(k - 1) != '/'
        invariant
            floor <= k <= end <= s@.len(),
            component_start(s@.subrange(0, k as int), floor as int) == component_start(
                s@.subrange(0, end as int),
                floor as int,
            ),
        decreases k,
    {
        assert(s@.subrange(0, k as int).drop_last() =~= s@.subrange(0, k - 1));
        k = k - 1;
    }
    assert(s@.subrange(0, k as int).len() == k);
    if k > floor {
        assert(s@.subrange(0, k as int).last() == s@[k - 1]);
    }
    k
}

/// Whether `s` holds the character `c`.
fn holds_char(s: &str, c: char) -> (r: bool)
    ensures
        r == s@.contains(c),
{
    let n = s.unicode_len();
    let mut i: usize = 0;
    while i < n
        invariant
            n == s@.len(),
            i <= n,
            forall|j: int| 0 <= j < i ==> s@[j] != c,
        decreases n - i,
    {
        if s.get_char(i) == c {
            return true;
        }
        i = i + 1;
    }
    false
}

/// The Linux/FreeBSD variant of plugin name `s` that the loader tries
/// besides `s` itself (see [`system_specific_name_of`]): `dir/foo` gives
/// `dir/libfoo.so`, a bare `foo` gives `/libfoo.so`, and a name with a `.`
/// gives none.
pub fn system_specific_name(s: &str) -> (r: Option<String>)
    ensures
        match r {
            Some(v) => system_specific_name_of(s@) == Some(v@),
            None => system_specific_name_of(s@) is None,
        },
{
    system_specific_name_for(Platform::LinuxFreeBsd, s)
}

/// The variant of plugin name `s` on `platform` (see
/// [`system_specific_name_on`]): on macOS, `dir/foo` gives `dir/libfoo.dylib`.
pub fn system_specific_name_for(platform: Platform, s: &str) -> (r: Option<String>)
    ensures
        match r {
            Some(v) => system_specific_name_on(platform, s@) == Some(v@),
            None => system_specific_name_on(platform, s@) is None,
        },
{
    if holds_char(s, '.') {
        return None;
    }
    let n = s.unicode_len();
    let floor: usize = if n > 0 && s.get_char(0) == '/' {
        1
    } else {
        0
    };
    assert(floor == root_len(s@));
    assert(s@.subrange(0, n as int) =~= s@);
    let end = trim_end(s, floor, n);
    let k = find_component_start(s, floor, end);
    assert(s@.subrange(0, end as int).len() == end);
    if k == end {
        return None;
    }
    let parent_end = trim_end(s, floor, k);
    assert(s@.subrange(0, end as int).subrange(0, k as int) =~= s@.subrange(0, k as int));
    let parent = s.substring_char(0, parent_end);
    let name = s.substring_char(k, end);
    assert(name@ =~= s@.subrange(0, end as int).subrange(k as int, end as int));
    let file = platform_library_file_name(platform, name);
    let mut r = String::from_str(parent);
    r.append("/");
    r.append(file.as_str());
    proof {
        reveal_strlit("/");
    }
    assert(r@ =~= unix_parent(s@) + seq!['/'] + library_file_name(platform, name@));
    Some(r)
}

} // verus!
