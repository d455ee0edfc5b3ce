//! File names as `std::path::Path` reads them: the extension after the last
//! dot and the stem before it.
use crate::text::{chars_of, str_eq, string_of_range};
use vstd::prelude::*;

verus! {

/// The index of the last `.` in `name`, or -1 when there is none.
pub open spec fn last_dot(name: Seq<char>) -> int
    decreases name.len(),
{
    if name.len() == 0 {
        -1
    } else if name.last() == '.' {
        name.len() - 1
    } else {
        last_dot(name.drop_last())
    }
}

/// Whether a file name has an extension: a dot that is not its first
/// character (`..` has none).
pub open spec fn has_extension(name: Seq<char>) -> bool {
    name != ".."@ && last_dot(name) > 0
}

/// The extension of a file name: what follows its last dot
/// (`Path::extension`).
pub open spec fn extension_spec(name: Seq<char>) -> Option<Seq<char>> {
    if has_extension(name) {
        Some(name.skip(last_dot(name) + 1))
    } else {
        None
    }
}

/// The stem of a file name: what precedes its last dot, or the whole name
/// when it has no extension (`Path::file_stem`).
pub open spec fn stem_spec(name: Seq<char>) -> Seq<char> {
    if has_extension(name) {
        name.take(last_dot(name))
    } else {
        name
    }
}

proof fn lemma_last_dot_range(name: Seq<char>)
    ensures
        -1 <= last_dot(name) < name.len(),
        last_dot(name) >= 0 ==> name[last_dot(name)] == '.',
        forall|j: int| last_dot(name) < j < name.len() ==> name[j] != '.',
    decreases name.len(),
{
    if name.len() > 0 {
        lemma_last_dot_range(name.drop_last());
        if name.last() != '.' {
            assert forall|j: int| last_dot(name) < j < name.len() implies name[j] != '.' by {
                if j < name.len() - 1 {
                    assert(name[j] == name.drop_last()[j]);
                }
            }
        }
    }
}

/// The index of the last dot of the characters `v`, if any.
fn find_last_dot(v: &Vec<char>) -> (r: Option<usize>)
    ensures
        match r {
            Some(k) => last_dot(v@) == k as int,
            None => last_dot(v@) == -1,
        },
{
    let mut i = v.len();
    assert(v@.take(i as int) =~= v@);
    while i > 0
        invariant
            i <= v@.len(),
            last_dot(v@) == last_dot(v@.take(i as int)),
        decreases i,
    {
        let ghost pre = v@.take(i as int);
        assert(pre.drop_last() =~= v@.take(i - 1));
        if v[i - 1] == '.' {
            return Some(i - 1);
        }
        i = i - 1;
    }
    None
}

/// The extension of the file name `name`, if it has one.
pub fn file_extension(name: &str) -> (r: Option<String>)
    ensures
        match r {
            Some(e) => extension_spec(name@) == Some(e@),
            None => extension_spec(name@) is None,
        },
{
    let v = chars_of(name);
    if str_eq(name, "..") {
        return None;
    }
    match find_last_dot(&v) {
        Some(k) => {
            if k == 0 {
                None
            } else {
                proof {
                    lemma_last_dot_range(v@);
                }
                assert(k < v@.len());
                let e = string_of_range(&v, k + 1, v.len());
                assert(v@.subrange(k + 1, v@.len() as int) =~= v@.skip(k + 1));
                Some(e)
            }
        },
        None => None,
    }
}

/// The stem of the file name `name`.
pub fn file_stem(name: &str) -> (r: String)
    ensures
        r@ == stem_spec(name@),
{
    let v = chars_of(name);
    if str_eq(name, "..") {
        return string_of_range(&v, 0, v.len());
    }
    assert(v@.subrange(0, v@.len() as int) =~= v@);
    match find_last_dot(&v) {
        Some(k) => {
            if k == 0 {
                string_of_range(&v, 0, v.len())
            } else {
                proof {
                    lemma_last_dot_range(v@);
                }
                let s = string_of_range(&v, 0, k);
                assert(v@.subrange(0, k as int) =~= v@.take(k as int));
                s
            }
        },
        None => string_of_range(&v, 0, v.len()),
    }
}

/// Whether the file name ends in the extension `mp3`.
pub open spec fn is_mp3_spec(name: Seq<char>) -> bool {
    extension_spec(name) == Some("mp3"@)
}

/// Whether the file name `name` has the extension `mp3`.
pub fn is_mp3(name: &str) -> (r: bool)
    ensures
        r == is_mp3_spec(name@),
{
    match file_extension(name) {
        Some(e) => str_eq(e.as_str(), "mp3"),
        None => false,
    }
}


/// Characters without a dot appended after a text leave its last dot
/// where it was.
proof fn lemma_last_dot_append(a: Seq<char>, b: Seq<char>)
    requires
        forall|j: int| 0 <= j < b.len() ==> #[trigger] b[j] != '.',
    ensures
        last_dot(a + b) == last_dot(a),
    decreases b.len(),
{
    if b.len() > 0 {
        let b0 = b.drop_last();
        assert forall|j: int| 0 <= j < b0.len() implies #[trigger] b0[j] != '.' by {
            assert(b0[j] == b[j]);
        }
        lemma_last_dot_append(a, b0);
        assert((a + b).drop_last() =~= a + b0);
        assert((a + b).last() == b[b.len() - 1]);
    }
}

/// The stem, a dot and the extension make up the file name again, and an
/// extension holds no dot; a name without an extension is all stem.
pub proof fn stem_and_extension_rebuild_the_name(name: Seq<char>)
    ensures
        extension_spec(name) matches Some(e) ==> stem_spec(name) + "."@ + e == name && forall|j: int|
            0 <= j < e.len() ==> #[trigger] e[j] != '.',
        extension_spec(name) is None ==> stem_spec(name) == name,
{
    reveal_strlit(".");
    lemma_last_dot_range(name);
    if extension_spec(name) is Some {
        let k = last_dot(name);
        let e = name.skip(k + 1);
        assert(stem_spec(name) + "."@ + e =~= name);
        assert forall|j: int| 0 <= j < e.len() implies #[trigger] e[j] != '.' by {
            assert(e[j] == name[k + 1 + j]);
        }
    }
}

/// A file named by a stem that is not empty, a dot and a dot-free
/// extension has that extension and that stem (unless the name is `..`).
pub proof fn named_file_has_its_parts(stem: Seq<char>, extension: Seq<char>)
    requires
        stem.len() > 0,
        forall|j: int| 0 <= j < extension.len() ==> #[trigger] extension[j] != '.',
        stem + "."@ + extension != ".."@,
    ensures
        extension_spec(stem + "."@ + extension) == Some(extension),
        stem_spec(stem + "."@ + extension) == stem,
{
    reveal_strlit(".");
    let name = stem + "."@ + extension;
    lemma_last_dot_append(stem + "."@, extension);
    let sd = stem + "."@;
    assert(sd.last() == '.');
    assert(last_dot(sd) == stem.len());
    assert(name.skip(stem.len() as int + 1) =~= extension);
    assert(name.take(stem.len() as int) =~= stem);
}

} // verus!
