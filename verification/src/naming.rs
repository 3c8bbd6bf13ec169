//! Platform-specific shared-library file naming.
//!
//! A logical plugin identifier is mapped to the file name of the shared
//! library that holds it: the final dot-separated segment of the identifier
//! with the platform's native extension appended.

use vstd::prelude::*;
use vstd::string::StringExecFns;
use vstd::string::StrSliceExecFns;

verus! {

/// A target platform, as far as shared-library naming is concerned.
#[derive(Clone, Copy, PartialEq, Eq, Structural, Debug)]
pub enum Platform {
    Unix,
    Windows,
}

/// The native shared-library extension of a platform, dot included.
pub open spec fn lib_extension(p: Platform) -> Seq<char> {
    match p {
        Platform::Unix => ".so"@,
        Platform::Windows => ".dll"@,
    }
}

/// The final dot-separated segment of a string: everything after the last
/// `'.'`, or the whole string when it holds no `'.'`.
pub open spec fn final_segment(s: Seq<char>) -> Seq<char>
    decreases s.len(),
{
    if s.len() == 0 {
        s
    } else if s[s.len() - 1] == '.' {
        Seq::empty()
    } else {
        final_segment(s.drop_last()).push(s[s.len() - 1])
    }
}

/// The platform-specific library file name of a logical plugin identifier.
pub open spec fn spec_lib_name(s: Seq<char>, p: Platform) -> Seq<char> {
    final_segment(s) + lib_extension(p)
}

/// The final segment is the suffix that starts right after the last dot, or
/// the whole string when no character is a dot.
proof fn lemma_final_segment_is_suffix(s: Seq<char>, i: int)
    requires
        0 <= i <= s.len(),
        forall|j: int| i <= j < s.len() ==> s[j] != '.',
        i == 0 || s[i - 1] == '.',
    ensures
        final_segment(s) == s.subrange(i, s.len() as int),
    decreases s.len(),
{
    if i == s.len() {
        if i == 0 {
            assert(final_segment(s) =~= s.subrange(0, 0));
        } else {
            assert(s[s.len() - 1] == '.');
            assert(final_segment(s) =~= s.subrange(i, s.len() as int));
        }
    } else {
        let t = s.drop_last();
        assert(s[s.len() - 1] != '.');
        lemma_final_segment_is_suffix(t, i);
        assert(final_segment(s) == final_segment(t).push(s[s.len() - 1]));
        assert(t.subrange(i, t.len() as int).push(s[s.len() - 1]) =~= s.subrange(
            i,
            s.len() as int,
        ));
    }
}

/// The platform-specific library file name of a logical plugin identifier:
/// its final dot-separated segment with the platform's extension appended.
/// No file is touched; this is pure string work.
pub fn get_lib_name(name: &str, platform: Platform) -> (r: String)
    ensures
        r@ == spec_lib_name(name@, platform),
{
    let n: usize = name.unicode_len();
    let mut i: usize = n;
    while i > 0 && name.get_char(i - 1) != '.'
        invariant
            0 <= i <= n,
            n == name@.len(),
            forall|j: int| i <= j < n ==> name@[j] != '.',
        decreases i,
    {
        i = i - 1;
    }
    proof {
        lemma_final_segment_is_suffix(name@, i as int);
    }
    let segment: &str = name.substring_char(i, n);
    let mut out: String = String::from_str(segment);
    match platform {
        Platform::Unix => out.append(".so"),
        Platform::Windows => out.append(".dll"),
    }
    out
}

} // verus!
