//! Names of artifacts and Locations, matched by name or by prefix.
use vstd::prelude::*;

use crate::text::chars_of;

verus! {

/// A pattern that ends in `*` matches every name that starts with what comes
/// before the `*`; any other pattern matches exactly the name it spells.
pub open spec fn pattern_matches(pattern: Seq<char>, name: Seq<char>) -> bool {
    if pattern.len() > 0 && pattern.last() == '*' {
        pattern.drop_last().is_prefix_of(name)
    } else {
        pattern == name
    }
}

/// Whether `name` matches `pattern`: exactly, or under a prefix when the
/// pattern ends in `*`.
pub fn matches_pattern(pattern: &str, name: &str) -> (r: bool)
    ensures
        r == pattern_matches(pattern@, name@),
{
    let p = chars_of(pattern);
    let n = chars_of(name);
    let prefix = p.len() > 0 && p[p.len() - 1] == '*';
    let wanted: usize = if prefix { p.len() - 1 } else { p.len() };
    assert(prefix == (pattern@.len() > 0 && pattern@.last() == '*'));
    if n.len() < wanted || (!prefix && n.len() != wanted) {
        assert(p@.len() != n@.len() ==> p@ != n@);
        return false;
    }
    let mut i: usize = 0;
    while i < wanted
        invariant
            p@ == pattern@,
            n@ == name@,
            prefix == (p@.len() > 0 && p@.last() == '*'),
            wanted == if prefix { p.len() - 1 } else { p.len() as int },
            !prefix ==> n.len() == wanted,
            wanted <= n.len(),
            0 <= i <= wanted,
            forall|j: int| 0 <= j < i ==> p@[j] == n@[j],
        decreases wanted - i,
    {
        if p[i] != n[i] {
            if prefix {
                assert(p@.drop_last()[i as int] != n@.subrange(0, wanted as int)[i as int]);
            } else {
                assert(p@[i as int] != n@[i as int]);
            }
            return false;
        }
        i = i + 1;
    }
    assert(p@.take(wanted as int) =~= n@.take(wanted as int));
    if !prefix {
        assert(p@ =~= n@);
    } else {
        assert(p@.drop_last() =~= p@.take(wanted as int));
        assert(n@.subrange(0, wanted as int) =~= n@.take(wanted as int));
    }
    true
}

} // verus!
