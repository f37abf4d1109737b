//! Paths as text, in the form of Unix: `/` stands between components.

use vstd::prelude::*;
use vstd::string::*;

verus! {

/// `name` placed below the directory `base`.
///
/// One separator stands between the two; an empty `base` adds none.
pub open spec fn below(base: Seq<char>, name: Seq<char>) -> Seq<char> {
    if base.len() == 0 || base.last() == '/' {
        base + name
    } else {
        base + seq!['/'] + name
    }
}

/// A path below a directory begins with the directory and ends with the name. At most one
/// character stands between them, a separator: just where the directory is not empty and does not
/// end with one itself.
pub proof fn law_below_keeps_both_parts(base: Seq<char>, name: Seq<char>)
    ensures
        ({
            let path = below(base, name);
            let between = path.len() - base.len() - name.len();
            &&& base.is_prefix_of(path)
            &&& name.is_suffix_of(path)
            &&& between == 0 || between == 1
            &&& between == 1 <==> base.len() > 0 && base[base.len() - 1] != '/'
            &&& between == 1 ==> path[base.len() as int] == '/'
        }),
{
    let path = below(base, name);
    assert(base =~= path.subrange(0, base.len() as int));
    assert(name =~= path.subrange(path.len() - name.len(), path.len() as int));
}

/// Places the relative path `name` below the directory `base`.
pub fn join(base: &str, name: &str) -> (res: String)
    requires
        name@.len() > 0,
        name@[0] != '/',
    ensures
        res@ == below(base@, name@),
{
    let mut res = base.to_owned();
    let len = base.unicode_len();
    if len > 0 && base.get_char(len - 1) != '/' {
        proof {
            reveal_strlit("/");
        }
        res.append("/");
        assert("/"@ =~= seq!['/']);
    }
    res.append(name);
    res
}

} // verus!
