//! Release-tag normalization.
//!
//! Releases in the upstream repository are sometimes tagged with an
//! unrelated prefix followed by a hyphen-delimited version suffix (a
//! shared release stream covering several sibling tools). When a release's
//! version tag does not start with the product prefix `grain`, the bare
//! version is the substring after the last hyphen, and the release is
//! re-fetched under the reconstructed tag `grain-<bare version>`.

use vstd::prelude::*;
use vstd::string::StrSliceExecFns;
use vstd::string::StringExecFns;

verus! {

/// True when the tag begins with the product prefix `grain`.
pub open spec fn spec_has_product_prefix(v: Seq<char>) -> bool {
    v.len() >= "grain"@.len() && v.subrange(0, "grain"@.len() as int) == "grain"@
}

/// True when the tag holds at least one hyphen.
pub open spec fn spec_has_hyphen(v: Seq<char>) -> bool {
    exists|i: int| 0 <= i < v.len() && v[i] == '-'
}

/// `i` is the position of the last hyphen in `v`.
pub open spec fn spec_last_hyphen_at(v: Seq<char>, i: int) -> bool {
    &&& 0 <= i < v.len()
    &&& v[i] == '-'
    &&& forall|j: int| i < j < v.len() ==> v[j] != '-'
}

/// The position of the last hyphen in `v` (meaningful only when
/// `spec_has_hyphen(v)` holds).
pub open spec fn spec_last_hyphen(v: Seq<char>) -> int {
    choose|i: int| spec_last_hyphen_at(v, i)
}

/// The bare version of a tag: the substring after the last hyphen, or the
/// whole tag when it holds no hyphen.
pub open spec fn spec_bare_version(v: Seq<char>) -> Seq<char> {
    if spec_has_hyphen(v) {
        v.subrange(spec_last_hyphen(v) + 1, v.len() as int)
    } else {
        v
    }
}

/// Checks whether the tag begins with the product prefix `grain`.
pub fn has_product_prefix(v: &String) -> (r: bool)
    ensures
        r == spec_has_product_prefix(v@),
{
    proof {
        reveal_strlit("grain");
    }
    let s = v.as_str();
    let n = s.unicode_len();
    if n < 5 {
        return false;
    }
    let ok = s.get_char(0) == 'g' && s.get_char(1) == 'r' && s.get_char(2) == 'a'
        && s.get_char(3) == 'i' && s.get_char(4) == 'n';
    proof {
        if ok {
            assert(v@.subrange(0, 5) =~= "grain"@);
        } else {
            if v@.subrange(0, 5) == "grain"@ {
                assert(v@[0] == v@.subrange(0, 5)[0]);
                assert(v@[1] == v@.subrange(0, 5)[1]);
                assert(v@[2] == v@.subrange(0, 5)[2]);
                assert(v@[3] == v@.subrange(0, 5)[3]);
                assert(v@[4] == v@.subrange(0, 5)[4]);
                assert(false);
            }
        }
    }
    ok
}

/// Extracts the bare version: the substring after the last hyphen, or the
/// whole tag when no hyphen occurs.
pub fn bare_version(v: &String) -> (r: String)
    ensures
        r@ == spec_bare_version(v@),
{
    let s = v.as_str();
    let n = s.unicode_len();
    let mut i: usize = n;
    while i > 0
        invariant
            i <= n,
            n == v@.len(),
            s@ == v@,
            forall|j: int| i <= j < n ==> v@[j] != '-',
        decreases i,
    {
        if s.get_char(i - 1) == '-' {
            proof {
                assert(spec_last_hyphen_at(v@, i - 1));
                assert(forall|k: int| spec_last_hyphen_at(v@, k) ==> k == i - 1);
                assert(spec_last_hyphen(v@) == i - 1);
            }
            let suffix = s.substring_char(i, n);
            return String::from_str(suffix);
        }
        i = i - 1;
    }
    proof {
        assert(!spec_has_hyphen(v@));
    }
    String::from_str(s)
}

/// The reconstructed tag used for the normalized re-fetch:
/// `grain-<bare version>`. When the original tag holds at least one
/// hyphen, the part after `grain-` is exactly the substring after the
/// tag's last hyphen.
pub fn refetch_tag(version: &String) -> (r: String)
    ensures
        r@ == "grain-"@ + spec_bare_version(version@),
        spec_has_hyphen(version@) ==> r@ == "grain-"@ + version@.subrange(
            spec_last_hyphen(version@) + 1,
            version@.len() as int,
        ),
{
    let bare = bare_version(version);
    String::from_str("grain-").concat(bare.as_str())
}

} // verus!
