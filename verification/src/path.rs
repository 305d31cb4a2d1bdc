//! Paths as text. A path is a run of names separated by `/`; the library
//! builds and reads paths in this form only, and leaves it to its caller to
//! hand them to the file system.

use vstd::prelude::*;
use crate::text::{chars_of, last_index_of, split, split_text};

verus! {

/// The character that separates the names of a path.
pub const SEPARATOR: char = '/';

/// `child` below `base`: an absolute `child` stands for itself; otherwise it
/// follows `base`, with one separator between them unless `base` is empty or
/// already ends in one.
pub open spec fn join(base: Seq<char>, child: Seq<char>) -> Seq<char> {
    if child.len() > 0 && child[0] == SEPARATOR {
        child
    } else if base.len() == 0 || base.last() == SEPARATOR {
        base + child
    } else {
        base + seq![SEPARATOR] + child
    }
}

/// The last of `pieces` that names something: empty pieces and `.` are passed
/// over from the end, and `..` names nothing.
pub open spec fn last_name(pieces: Seq<Seq<char>>) -> Option<Seq<char>>
    decreases pieces.len(),
{
    if pieces.len() == 0 {
        None
    } else if pieces.last().len() == 0 || pieces.last() == seq!['.'] {
        last_name(pieces.drop_last())
    } else if pieces.last() == seq!['.', '.'] {
        None
    } else {
        Some(pieces.last())
    }
}

/// The final name of a path, if it has one.
pub open spec fn file_name(path: Seq<char>) -> Option<Seq<char>> {
    last_name(split(path, SEPARATOR))
}

/// What follows the last dot of a name, unless the name has no dot or its only dot leads it.
pub open spec fn name_extension(name: Seq<char>) -> Option<Seq<char>> {
    match last_index_of(name, '.') {
        Some(i) => if i == 0 {
            None
        } else {
            Some(name.skip(i + 1))
        },
        None => None,
    }
}

/// The extension of a path's final name.
pub open spec fn extension(path: Seq<char>) -> Option<Seq<char>> {
    match file_name(path) {
        Some(name) => name_extension(name),
        None => None,
    }
}

/// The view of an optional text.
pub open spec fn opt_text(t: Option<String>) -> Option<Seq<char>> {
    match t {
        Some(s) => Some(s@),
        None => None,
    }
}

/// `child` below `base`.
pub fn join_path(base: &str, child: &str) -> (joined: String)
    ensures
        joined@ == join(base@, child@),
{
    let b = chars_of(base);
    let c = chars_of(child);
    if c.len() > 0 && c[0] == SEPARATOR {
        child.to_owned()
    } else if b.len() == 0 || b[b.len() - 1] == SEPARATOR {
        base.to_owned().concat(child)
    } else {
        proof {
            reveal_strlit("/");
            assert("/"@ =~= seq![SEPARATOR]);
        }
        base.to_owned().concat("/").concat(child)
    }
}

/// The final name of `path`, if it has one.
pub fn file_name_of(path: &str) -> (name: Option<String>)
    ensures
        opt_text(name) == file_name(path@),
{
    let mut pieces = split_text(path, SEPARATOR);
    proof {
        reveal_strlit(".");
        reveal_strlit("..");
        assert("."@ =~= seq!['.']);
        assert(".."@ =~= seq!['.', '.']);
    }
    let ghost all = pieces.deep_view();
    while pieces.len() > 0
        invariant
            all == split(path@, SEPARATOR),
            last_name(pieces.deep_view()) == last_name(all),
            "."@ == seq!['.'],
            ".."@ == seq!['.', '.'],
        decreases pieces.len(),
    {
        let ghost now = pieces.deep_view();
        let last = pieces.pop().unwrap();
        assert(pieces.deep_view() =~= now.drop_last());
        assert(now.last() == last@);
        let chars = chars_of(last.as_str());
        if chars.len() == 0 || (chars.len() == 1 && chars[0] == '.') {
            assert(chars.len() == 1 ==> last@ =~= seq!['.']);
        } else if chars.len() == 2 && chars[0] == '.' && chars[1] == '.' {
            assert(last@ =~= seq!['.', '.']);
            return None;
        } else {
            assert(last@ != seq!['.']) by {
                if last@ == seq!['.'] {
                    assert(last@.len() == 1);
                    assert(last@[0] == '.');
                }
            }
            assert(last@ != seq!['.', '.']) by {
                if last@ == seq!['.', '.'] {
                    assert(last@.len() == 2);
                    assert(last@[0] == '.');
                    assert(last@[1] == '.');
                }
            }
            return Some(last);
        }
    }
    None
}

/// What follows the last dot of `name`, unless `name` has no dot or its only dot leads it.
pub fn name_extension_of(name: &str) -> (ext: Option<String>)
    ensures
        opt_text(ext) == name_extension(name@),
{
    let chars = chars_of(name);
    let mut i: usize = chars.len();
    assert(name@.take(i as int) =~= name@);
    while i > 0
        invariant
            chars@ == name@,
            i <= chars.len(),
            last_index_of(name@, '.') == last_index_of(name@.take(i as int), '.'),
        decreases i,
    {
        let ghost t = name@.take(i as int);
        assert(t.last() == chars@[i - 1]);
        assert(t.drop_last() =~= name@.take(i - 1));
        if chars[i - 1] == '.' {
            if i - 1 == 0 {
                return None;
            }
            let tail = name.substring_char(i, chars.len()).to_owned();
            assert(tail@ =~= name@.skip(i as int));
            return Some(tail);
        }
        i -= 1;
    }
    None
}

/// The extension of the final name of `path`.
pub fn extension_of(path: &str) -> (ext: Option<String>)
    ensures
        opt_text(ext) == extension(path@),
{
    match file_name_of(path) {
        Some(name) => name_extension_of(name.as_str()),
        None => None,
    }
}

} // verus!
