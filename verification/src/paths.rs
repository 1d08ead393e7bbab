//! Small verified helpers over slash-separated path strings: joining a
//! directory with a relative name, suffix tests, and finding the parent
//! directory of a path.

use vstd::prelude::*;

verus! {

/// The characters of `dir`, a separator, and the characters of `name`.
pub open spec fn spec_join(dir: Seq<char>, name: Seq<char>) -> Seq<char> {
    dir + "/"@ + name
}

/// Joins a directory path and a relative name with a separator.
pub fn join_path(dir: &str, name: &str) -> (r: String)
    ensures
        r@ == spec_join(dir@, name@),
{
    let mut r = String::from_str(dir);
    r.append("/");
    r.append(name);
    r
}

/// `s` ends with `suffix`.
pub open spec fn spec_ends_with(s: Seq<char>, suffix: Seq<char>) -> bool {
    suffix.len() <= s.len() && s.skip(s.len() - suffix.len()) == suffix
}

/// Executable suffix test on the character views of two strings.
pub fn str_ends_with(s: &str, suffix: &str) -> (r: bool)
    ensures
        r == spec_ends_with(s@, suffix@),
{
    let n: usize = s.unicode_len();
    let m: usize = suffix.unicode_len();
    if m > n {
        return false;
    }
    let tail = s.substring_char(n - m, n);
    proof {
        assert(s@.subrange(n - m as int, n as int) =~= s@.skip(s@.len() - suffix@.len()));
    }
    crate::classifier::str_eq(tail, suffix)
}

/// Index of the last separator in `s`, or a negative value when `s`
/// holds none.
pub open spec fn last_slash(s: Seq<char>) -> int
    decreases s.len(),
{
    if s.len() == 0 {
        -1
    } else if s[s.len() - 1] == '/' {
        s.len() - 1
    } else {
        last_slash(s.drop_last())
    }
}

/// The directory part of `path`: everything before the last separator,
/// or nothing when the path has no separator.
pub fn parent_dir(path: &str) -> (r: Option<String>)
    ensures
        match r {
            Option::Some(p) => last_slash(path@) >= 0 && p@ == path@.take(last_slash(path@)),
            Option::None => last_slash(path@) < 0,
        },
{
    let n: usize = path.unicode_len();
    let mut i: usize = n;
    proof {
        assert(path@.take(n as int) =~= path@);
    }
    loop
        invariant
            0 <= i <= n,
            n == path@.len(),
            last_slash(path@) == last_slash(path@.take(i as int)),
        ensures
            0 <= i <= n,
            n == path@.len(),
            i == 0 ==> last_slash(path@) < 0,
            i > 0 ==> path@[i - 1] == '/' && last_slash(path@) == i - 1,
        decreases i,
    {
        if i == 0 {
            break;
        }
        let c = path.get_char(i - 1);
        if c == '/' {
            proof {
                let pre = path@.take(i as int);
                assert(pre[pre.len() - 1] == path@[i - 1]);
            }
            break;
        }
        proof {
            let pre = path@.take(i as int);
            assert(pre[pre.len() - 1] == path@[i - 1]);
            assert(pre.drop_last() =~= path@.take(i as int - 1));
        }
        i -= 1;
    }
    if i == 0 {
        None
    } else {
        let p = String::from_str(path.substring_char(0, i - 1));
        proof {
            assert(path@.subrange(0, i - 1) =~= path@.take(last_slash(path@)));
        }
        Some(p)
    }
}

} // verus!
