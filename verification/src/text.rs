//! Character-level helpers for the path and argument strings the tool works
//! with, together with the spec functions the rest of the crate states its
//! contracts over.

use vstd::prelude::*;
use vstd::string::StrSliceExecFns;
use vstd::string::StringExecFns;

verus! {

/// A sequence starts with the given prefix.
pub open spec fn spec_starts_with(s: Seq<char>, prefix: Seq<char>) -> bool {
    s.len() >= prefix.len() && s.subrange(0, prefix.len() as int) == prefix
}

/// Joining a directory and a file name with `/`, the way the original
/// pipeline builds every path it touches: an absolute file name stands
/// alone, an empty directory contributes nothing, and a separator is
/// inserted only when the directory does not already end with one.
pub open spec fn spec_join(dir: Seq<char>, file: Seq<char>) -> Seq<char> {
    if file.len() > 0 && file[0] == '/' {
        file
    } else if dir.len() == 0 {
        file
    } else if dir.last() == '/' {
        dir + file
    } else {
        dir + "/"@ + file
    }
}

/// Character-wise equality of two string slices.
pub fn str_eq(a: &str, b: &str) -> (r: bool)
    ensures
        r == (a@ == b@),
{
    let alen = a.unicode_len();
    let blen = b.unicode_len();
    if alen != blen {
        return false;
    }
    let mut i: usize = 0;
    while i < alen
        invariant
            i <= alen,
            alen == a@.len(),
            blen == b@.len(),
            alen == blen,
            forall|j: int| 0 <= j < i ==> a@[j] == b@[j],
        decreases alen - i,
    {
        if a.get_char(i) != b.get_char(i) {
            return false;
        }
        i = i + 1;
    }
    proof {
        assert(a@ =~= b@);
    }
    true
}

/// Whether `s` starts with `prefix`, character for character.
pub fn str_starts_with(s: &str, prefix: &str) -> (r: bool)
    ensures
        r == spec_starts_with(s@, prefix@),
{
    let slen = s.unicode_len();
    let plen = prefix.unicode_len();
    if slen < plen {
        return false;
    }
    let mut i: usize = 0;
    while i < plen
        invariant
            i <= plen,
            slen == s@.len(),
            plen == prefix@.len(),
            plen <= slen,
            forall|j: int| 0 <= j < i ==> s@[j] == prefix@[j],
        decreases plen - i,
    {
        if s.get_char(i) != prefix.get_char(i) {
            proof {
                assert(s@.subrange(0, plen as int)[i as int] != prefix@[i as int]);
            }
            return false;
        }
        i = i + 1;
    }
    proof {
        assert(s@.subrange(0, plen as int) =~= prefix@);
    }
    true
}

/// Whether some string of `v` has exactly the characters of `s`.
pub fn contains_str(v: &Vec<String>, s: &str) -> (r: bool)
    ensures
        r == v.deep_view().contains(s@),
{
    let mut i: usize = 0;
    while i < v.len()
        invariant
            i <= v@.len(),
            forall|j: int| 0 <= j < i ==> v.deep_view()[j] != s@,
        decreases v@.len() - i,
    {
        if str_eq(v[i].as_str(), s) {
            proof {
                assert(v.deep_view()[i as int] == s@);
            }
            return true;
        }
        i = i + 1;
    }
    proof {
        assert(forall|j: int| 0 <= j < v.deep_view().len() ==> v.deep_view()[j] != s@);
    }
    false
}

/// Joins a directory path and a file name as `spec_join` describes.
pub fn join_path(dir: &str, file: &str) -> (r: String)
    ensures
        r@ == spec_join(dir@, file@),
{
    let flen = file.unicode_len();
    if flen > 0 && file.get_char(0) == '/' {
        return String::from_str(file);
    }
    let dlen = dir.unicode_len();
    if dlen == 0 {
        return String::from_str(file);
    }
    if dir.get_char(dlen - 1) == '/' {
        String::from_str(dir).concat(file)
    } else {
        String::from_str(dir).concat("/").concat(file)
    }
}

/// Copies a vector of strings, character for character.
pub fn clone_strings(v: &Vec<String>) -> (r: Vec<String>)
    ensures
        r.deep_view() == v.deep_view(),
{
    let mut r: Vec<String> = Vec::new();
    let mut i: usize = 0;
    while i < v.len()
        invariant
            i <= v@.len(),
            r.deep_view() =~= v.deep_view().take(i as int),
        decreases v@.len() - i,
    {
        let ghost prev = r.deep_view();
        r.push(v[i].clone());
        proof {
            assert(r.deep_view() =~= prev.push(v@[i as int]@));
        }
        i = i + 1;
    }
    proof {
        assert(v.deep_view().take(v@.len() as int) =~= v.deep_view());
    }
    r
}

/// The strings of `args` joined by single spaces: empty for no argument,
/// and no separator before the first.
pub open spec fn spec_join_space(args: Seq<Seq<char>>) -> Seq<char>
    decreases args.len(),
{
    if args.len() == 0 {
        Seq::empty()
    } else if args.len() == 1 {
        args[0]
    } else {
        spec_join_space(args.drop_last()) + " "@ + args.last()
    }
}

/// Joins argument strings with single spaces.
pub fn join_space(args: &Vec<String>) -> (r: String)
    ensures
        r@ == spec_join_space(args.deep_view()),
{
    let mut r = String::new();
    let mut i: usize = 0;
    while i < args.len()
        invariant
            i <= args@.len(),
            r@ == spec_join_space(args.deep_view().take(i as int)),
        decreases args@.len() - i,
    {
        if i > 0 {
            r.append(" ");
        }
        r.append(args[i].as_str());
        proof {
            let dv = args.deep_view();
            assert(dv.take(i + 1).drop_last() =~= dv.take(i as int));
            assert(dv.take(i + 1).last() == dv[i as int]);
        }
        i = i + 1;
    }
    proof {
        assert(args.deep_view().take(args.deep_view().len() as int) =~= args.deep_view());
    }
    r
}

} // verus!
