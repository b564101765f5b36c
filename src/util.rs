use vstd::prelude::*;
use vstd::string::*;

verus! {

/// The text without one trailing slash, if it ends with one.
pub open spec fn strip_trailing_slash(s: Seq<char>) -> Seq<char> {
    if s.len() > 0 && s.last() == '/' {
        s.drop_last()
    } else {
        s
    }
}

/// Drops one trailing `/` from a URL.
pub fn without_trailing_slash(url: &str) -> (r: String)
    ensures
        r@ == strip_trailing_slash(url@),
{
    let n = url.unicode_len();
    if n > 0 && url.get_char(n - 1) == '/' {
        let head = url.substring_char(0, n - 1);
        proof {
            assert(head@ == url@.drop_last());
        }
        head.to_owned()
    } else {
        url.to_owned()
    }
}

/// Compares two strings character by character.
pub fn str_eq(a: &str, b: &str) -> (r: bool)
    ensures
        r == (a@ == b@),
{
    let n = a.unicode_len();
    if n != b.unicode_len() {
        return false;
    }
    let mut i: usize = 0;
    while i < n
        invariant
            n == a@.len() == b@.len(),
            0 <= i <= n,
            forall|k: int| 0 <= k < i ==> a@[k] == b@[k],
        decreases n - i,
    {
        if a.get_char(i) != b.get_char(i) {
            return false;
        }
        i = i + 1;
    }
    proof {
        assert(a@ =~= b@);
    }
    true
}

} // verus!
