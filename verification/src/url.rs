//! Joining a base URL and a request path: exactly one slash stands between
//! them, however many either side brought.

use vstd::prelude::*;
use vstd::string::*;

verus! {

/// `s` without its trailing slashes.
pub open spec fn spec_trim_trailing_slashes(s: Seq<char>) -> Seq<char>
    decreases s.len(),
{
    if s.len() > 0 && s.last() == '/' {
        spec_trim_trailing_slashes(s.drop_last())
    } else {
        s
    }
}

/// `s` without its leading slashes.
pub open spec fn spec_trim_leading_slashes(s: Seq<char>) -> Seq<char>
    decreases s.len(),
{
    if s.len() > 0 && s.first() == '/' {
        spec_trim_leading_slashes(s.skip(1))
    } else {
        s
    }
}

/// Joins a base URL and a path with exactly one `/`: trailing slashes of the
/// base and leading slashes of the path are dropped first.
pub fn format_url(base_url: &str, path: &str) -> (r: String)
    ensures
        r@ == spec_trim_trailing_slashes(base_url@) + seq!['/'] + spec_trim_leading_slashes(
            path@,
        ),
{
    let base_len = base_url.unicode_len();
    let mut end: usize = base_len;
    proof {
        assert(base_url@.subrange(0, base_len as int) =~= base_url@);
    }
    while end > 0 && base_url.get_char(end - 1) == '/'
        invariant
            end <= base_len,
            base_len == base_url@.len(),
            spec_trim_trailing_slashes(base_url@) == spec_trim_trailing_slashes(
                base_url@.subrange(0, end as int),
            ),
        decreases end,
    {
        proof {
            assert(base_url@.subrange(0, end as int).drop_last() =~= base_url@.subrange(
                0,
                end as int - 1,
            ));
        }
        end = end - 1;
    }
    let base_trimmed = base_url.substring_char(0, end);
    proof {
        if end > 0 {
            assert(spec_trim_trailing_slashes(base_url@.subrange(0, end as int))
                == base_url@.subrange(0, end as int));
        }
    }
    let path_len = path.unicode_len();
    let mut start: usize = 0;
    proof {
        assert(path@.subrange(0, path_len as int) =~= path@);
    }
    while start < path_len && path.get_char(start) == '/'
        invariant
            start <= path_len,
            path_len == path@.len(),
            spec_trim_leading_slashes(path@) == spec_trim_leading_slashes(
                path@.subrange(start as int, path_len as int),
            ),
        decreases path_len - start,
    {
        proof {
            assert(path@.subrange(start as int, path_len as int).skip(1) =~= path@.subrange(
                start as int + 1,
                path_len as int,
            ));
        }
        start = start + 1;
    }
    let path_trimmed = path.substring_char(start, path_len);
    proof {
        if start < path_len {
            assert(spec_trim_leading_slashes(path@.subrange(start as int, path_len as int))
                == path@.subrange(start as int, path_len as int));
        }
        reveal_strlit("/");
        assert("/"@ =~= seq!['/']);
    }
    let mut r = String::from_str(base_trimmed);
    r.append("/");
    r.append(path_trimmed);
    r
}

} // verus!
