//! Path strings: joining a directory with a file name, and taking the
//! directory part of a path. A path is a string whose components are
//! separated by `/`.

use vstd::prelude::*;
use vstd::string::StrSliceExecFns;
use vstd::string::StringExecFns;

verus! {

/// The characters of `dir`, then the separator, then `name`.
pub open spec fn join_spec(dir: Seq<char>, name: Seq<char>) -> Seq<char> {
    dir + seq!['/'] + name
}

/// Joins a directory and a file name with the path separator.
pub fn path_join(dir: &str, name: &str) -> (r: String)
    ensures
        r@ == join_spec(dir@, name@),
{
    let mut r = dir.to_owned();
    r.append("/");
    r.append(name);
    proof {
        reveal_strlit("/");
        assert(r@ =~= join_spec(dir@, name@));
    }
    r
}

/// The index of the last `/` in `s`, or `-1` if `s` has none.
pub open spec fn last_sep(s: Seq<char>) -> int
    decreases s.len(),
{
    if s.len() == 0 {
        -1
    } else if s[s.len() - 1] == '/' {
        s.len() - 1
    } else {
        last_sep(s.drop_last())
    }
}

/// The directory part of a path: the characters before its last `/`, the
/// root `/` itself when that separator is the first character, and nothing
/// when the path has no separator at all.
pub open spec fn parent_of(s: Seq<char>) -> Option<Seq<char>> {
    if last_sep(s) < 0 {
        None
    } else if last_sep(s) == 0 {
        Some(seq!['/'])
    } else {
        Some(s.take(last_sep(s)))
    }
}

/// The directory part of `path`, as `parent_of` gives it.
pub fn parent_dir(path: &str) -> (r: Option<String>)
    ensures
        r is Some <==> parent_of(path@) is Some,
        r matches Some(p) ==> parent_of(path@) == Some(p@),
{
    let n = path.unicode_len();
    let mut i = n;
    assert(path@.take(n as int) =~= path@);
    while i > 0
        invariant
            i <= n,
            n == path@.len(),
            last_sep(path@.take(i as int)) == last_sep(path@),
        decreases i,
    {
        if path.get_char(i - 1) == '/' {
            assert(last_sep(path@.take(i as int)) == i - 1);
            if i - 1 == 0 {
                let root = "/".to_owned();
                proof {
                    reveal_strlit("/");
                    assert(root@ =~= seq!['/']);
                }
                return Some(root);
            } else {
                let p = path.substring_char(0, i - 1).to_owned();
                proof {
                    assert(p@ =~= path@.take(i - 1));
                }
                return Some(p);
            }
        }
        proof {
            assert(path@.take(i as int).drop_last() =~= path@.take(i - 1));
        }
        i = i - 1;
    }
    assert(path@.take(0) =~= Seq::<char>::empty());
    None
}

/// Whether `path` is the filesystem root, the one-character path `/`.
pub fn is_root_path(path: &str) -> (r: bool)
    ensures
        r <==> path@ == seq!['/'],
{
    let n = path.unicode_len();
    if n == 1 {
        let c = path.get_char(0);
        proof {
            if c == '/' {
                assert(path@ =~= seq!['/']);
            }
        }
        c == '/'
    } else {
        false
    }
}

} // verus!
