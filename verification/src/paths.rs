use vstd::prelude::*;
use vstd::string::*;
use crate::text::{spec_split, split_fields, string_views, concat2};

verus! {

/// The view of an optional string.
pub open spec fn opt_view(r: Option<String>) -> Option<Seq<char>> {
    match r {
        Some(s) => Some(s@),
        None => None,
    }
}

/// Whether a component of a `/` separated path names nothing: it is empty
/// (from a repeated or trailing separator) or the current directory `.`.
pub open spec fn skipped_component(part: Seq<char>) -> bool {
    part.len() == 0 || part == seq!['.']
}

/// The last of the components `parts` that names something.
pub open spec fn last_named_component(parts: Seq<Seq<char>>) -> Option<Seq<char>>
    decreases parts.len(),
{
    if parts.len() == 0 {
        None
    } else if skipped_component(parts.last()) {
        last_named_component(parts.drop_last())
    } else {
        Some(parts.last())
    }
}

/// The final component of `path`, as `Path::file_name` gives it: the last
/// component that is neither empty nor `.`, or `None` when there is none
/// (`"/"`, `"."`) or when it is `..`.
pub open spec fn spec_file_name(path: Seq<char>) -> Option<Seq<char>> {
    match last_named_component(spec_split(path, '/')) {
        Some(name) => if name == seq!['.', '.'] {
            None
        } else {
            Some(name)
        },
        None => None,
    }
}

/// The final component of `path` (see `spec_file_name`).
pub fn file_name(path: &str) -> (r: Option<String>)
    ensures
        opt_view(r) == spec_file_name(path@),
{
    let parts = split_fields(path, '/');
    let ghost views = string_views(parts@);
    let mut i: usize = parts.len();
    proof {
        assert(views.take(i as int) == views);
    }
    while i > 0
        invariant
            i <= parts.len(),
            views == string_views(parts@),
            views == spec_split(path@, '/'),
            last_named_component(views) == last_named_component(views.take(i as int)),
        decreases i,
    {
        let k: usize = i - 1;
        let part = parts[k].as_str();
        proof {
            assert(views.take(i as int).drop_last() == views.take(k as int));
            assert(views.take(i as int).last() == part@);
        }
        let n: usize = part.unicode_len();
        if n == 0 || (n == 1 && part.get_char(0) == '.') {
            proof {
                assert(skipped_component(part@)) by {
                    if n == 1 {
                        assert(part@ == seq!['.']);
                    }
                }
            }
            i = k;
        } else {
            let dots = n == 2 && part.get_char(0) == '.' && part.get_char(1) == '.';
            proof {
                assert(part@ != seq!['.']);
                if dots {
                    assert(part@ == seq!['.', '.']);
                } else {
                    assert(part@ != seq!['.', '.']);
                }
            }
            if dots {
                return None;
            }
            return Some(part.to_owned());
        }
    }
    None
}

/// `dir` with `name` appended as one more component, as `Path::join` does
/// it for a relative `name`: a `/` goes between them unless `dir` is empty
/// or already ends with one.
pub open spec fn spec_path_join(dir: Seq<char>, name: Seq<char>) -> Seq<char> {
    if dir.len() == 0 || dir.last() == '/' {
        dir + name
    } else {
        dir + seq!['/'] + name
    }
}

/// Appends the component `name` to the path `dir`.
pub fn path_join(dir: &str, name: &str) -> (r: String)
    ensures
        r@ == spec_path_join(dir@, name@),
{
    let n: usize = dir.unicode_len();
    if n == 0 || dir.get_char(n - 1) == '/' {
        concat2(dir, name)
    } else {
        let mut s = concat2(dir, "/");
        proof {
            reveal_strlit("/");
        }
        s.append(name);
        s
    }
}

} // verus!
