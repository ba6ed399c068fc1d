use vstd::prelude::*;

verus! {

/// `part` appended to `base` as one more path component: a separator is put
/// between them unless `base` is empty or already ends with one.
pub open spec fn joined(base: Seq<char>, part: Seq<char>) -> Seq<char> {
    if base.len() == 0 || base.last() == '/' {
        base + part
    } else {
        base + seq!['/'] + part
    }
}

/// Joins a relative path component onto a base path.
pub fn join_path(base: &str, part: &str) -> (r: String)
    ensures
        r@ == joined(base@, part@),
{
    let mut r = base.to_owned();
    let n = base.unicode_len();
    if n == 0 || base.get_char(n - 1) == '/' {
    } else {
        proof {
            reveal_strlit("/");
        }
        r.append("/");
    }
    r.append(part);
    r
}

} // verus!
