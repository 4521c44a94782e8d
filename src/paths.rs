use vstd::prelude::*;

verus! {

/// `rel` (a relative path) placed under `base`, as a path join does it: no
/// separator is added after an empty base or one that already ends in `/`.
pub open spec fn join_path(base: Seq<char>, rel: Seq<char>) -> Seq<char> {
    if base.len() == 0 {
        rel
    } else if base.last() == '/' {
        base + rel
    } else {
        base + seq!['/'] + rel
    }
}

/// Joins the relative path `rel` under `base`.
pub fn join(base: &str, rel: &str) -> (r: String)
    ensures
        r@ == join_path(base@, rel@),
{
    let n = base.unicode_len();
    if n == 0 {
        return rel.to_owned();
    }
    let last = base.get_char(n - 1);
    let head = base.to_owned();
    if last == '/' {
        head.concat(rel)
    } else {
        let sep = head.concat("/");
        proof {
            reveal_strlit("/");
        }
        let r = sep.concat(rel);
        assert(r@ =~= base@ + seq!['/'] + rel@);
        r
    }
}

} // verus!
