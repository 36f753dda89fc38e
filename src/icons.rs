use vstd::prelude::*;

verus! {

/// The name of the directory, under the application's data directory, that
/// holds the user's icons.
pub const ICON_DIR_NAME: &'static str = "icons";

/// The file name ending that marks a user icon.
pub const ICON_SUFFIX: &'static str = ".svg";

pub open spec fn ends_with(s: Seq<char>, suffix: Seq<char>) -> bool {
    suffix.len() <= s.len() && s.subrange(s.len() - suffix.len(), s.len() as int) == suffix
}

/// A file name is a user icon when it ends in ".svg".
pub open spec fn is_icon_name(name: Seq<char>) -> bool {
    ends_with(name, ICON_SUFFIX@)
}

/// The icon names among `names`, in their order.
pub open spec fn icon_names(names: Seq<Seq<char>>) -> Seq<Seq<char>>
    decreases names.len(),
{
    if names.len() == 0 {
        seq![]
    } else {
        let rest = icon_names(names.drop_last());
        if is_icon_name(names.last()) {
            rest.push(names.last())
        } else {
            rest
        }
    }
}

pub open spec fn views(v: Seq<String>) -> Seq<Seq<char>> {
    v.map_values(|s: String| s@)
}

/// Whether `name` ends with `suffix`.
pub fn has_suffix(name: &str, suffix: &str) -> (r: bool)
    ensures
        r == ends_with(name@, suffix@),
{
    let n = name.unicode_len();
    let k = suffix.unicode_len();
    if k > n {
        return false;
    }
    let start = n - k;
    let mut i: usize = 0;
    while i < k
        invariant
            n == name@.len(),
            k == suffix@.len(),
            start == n - k,
            i <= k,
            forall|j: int| 0 <= j < i ==> name@[start + j] == suffix@[j],
        decreases k - i,
    {
        if name.get_char(start + i) != suffix.get_char(i) {
            proof {
                assert(name@.subrange(start as int, n as int)[i as int] != suffix@[i as int]);
            }
            return false;
        }
        i = i + 1;
    }
    proof {
        assert(name@.subrange(start as int, n as int) =~= suffix@);
    }
    true
}

/// Whether the file name is that of a user icon.
pub fn is_icon_file(name: &str) -> (r: bool)
    ensures
        r == is_icon_name(name@),
{
    has_suffix(name, ICON_SUFFIX)
}

/// The user icons among the file names of the icon directory, in the order
/// given.
pub fn user_icon_names(names: &Vec<String>) -> (r: Vec<String>)
    ensures
        views(r@) == icon_names(views(names@)),
{
    let mut out: Vec<String> = Vec::new();
    let mut i: usize = 0;
    while i < names.len()
        invariant
            i <= names@.len(),
            views(out@) == icon_names(views(names@.subrange(0, i as int))),
        decreases names@.len() - i,
    {
        let name = &names[i];
        proof {
            let pre = names@.subrange(0, i as int);
            let next = names@.subrange(0, i as int + 1);
            assert(views(next).drop_last() =~= views(pre));
            assert(views(next).last() == name@);
        }
        if is_icon_file(name.as_str()) {
            let ghost prev = out@;
            out.push(name.clone());
            proof {
                assert(out@.drop_last() =~= prev);
                assert(views(out@) =~= views(prev).push(name@));
            }
        }
        i = i + 1;
    }
    proof {
        assert(names@.subrange(0, names@.len() as int) =~= names@);
    }
    out
}

} // verus!
