//! Text utilities shared by the chat command parsers: splitting a chat
//! message into words, joining them back, and reading numbers out of words.
use vstd::prelude::*;
use vstd::string::StringExecFns;

verus! {

// ---------------------------------------------------------------------------
// Specifications
// ---------------------------------------------------------------------------

/// The fields of `s` separated by `sep`, empty fields included
/// (what `str::split` with a character pattern yields).
pub open spec fn split_spec(s: Seq<char>, sep: char) -> Seq<Seq<char>>
    decreases s.len(),
{
    if s.len() == 0 {
        seq![Seq::<char>::empty()]
    } else {
        let rest = split_spec(s.drop_last(), sep);
        if s.last() == sep {
            rest.push(Seq::<char>::empty())
        } else {
            rest.update(rest.len() - 1, rest.last().push(s.last()))
        }
    }
}

/// The words joined with `sep` between consecutive words.
pub open spec fn join_spec(words: Seq<Seq<char>>, sep: Seq<char>) -> Seq<char>
    decreases words.len(),
{
    if words.len() == 0 {
        Seq::<char>::empty()
    } else if words.len() == 1 {
        words[0]
    } else {
        join_spec(words.drop_last(), sep) + sep + words.last()
    }
}

/// Unicode `White_Space`, the property that `char::is_whitespace` tests.
pub open spec fn is_white_space_spec(c: char) -> bool {
    let u = c as u32;
    (0x09 <= u <= 0x0d) || u == 0x20 || u == 0x85 || u == 0xa0 || u == 0x1680 || (0x2000 <= u
        <= 0x200a) || u == 0x2028 || u == 0x2029 || u == 0x202f || u == 0x205f || u == 0x3000
}

/// The maximal runs of non-white-space characters of `s`
/// (what `str::split_whitespace` yields).
pub open spec fn words_spec(s: Seq<char>) -> Seq<Seq<char>>
    decreases s.len(),
{
    if s.len() == 0 {
        Seq::<Seq<char>>::empty()
    } else {
        let rest = words_spec(s.drop_last());
        if is_white_space_spec(s.last()) {
            rest
        } else if s.len() >= 2 && !is_white_space_spec(s[s.len() - 2]) {
            rest.update(rest.len() - 1, rest.last().push(s.last()))
        } else {
            rest.push(seq![s.last()])
        }
    }
}

/// `s` without white space at either end (what `str::trim` gives).
pub open spec fn trim_spec(s: Seq<char>) -> Seq<char>
    decreases s.len(),
{
    if s.len() == 0 {
        s
    } else if is_white_space_spec(s[0]) {
        trim_spec(s.drop_first())
    } else if is_white_space_spec(s.last()) {
        trim_spec(s.drop_last())
    } else {
        s
    }
}

pub open spec fn is_digit_spec(c: char) -> bool {
    '0' <= c <= '9'
}

pub open spec fn digit_value(c: char) -> int {
    (c as u32) - ('0' as u32)
}

/// The value of a string made of decimal digits only (leading digit most
/// significant); meaningful when every character is a digit.
pub open spec fn digits_value(s: Seq<char>) -> int
    decreases s.len(),
{
    if s.len() == 0 {
        0
    } else {
        digits_value(s.drop_last()) * 10 + digit_value(s.last())
    }
}

pub open spec fn all_digits(s: Seq<char>) -> bool {
    forall|i: int| 0 <= i < s.len() ==> #[trigger] is_digit_spec(s[i])
}

/// The magnitude written in `s`, as std's integer parsing reads it: one or
/// more decimal digits, nothing else.
pub open spec fn magnitude_spec(s: Seq<char>) -> Option<int> {
    if s.len() > 0 && all_digits(s) {
        Some(digits_value(s))
    } else {
        None
    }
}

/// The value that std's `u64::from_str` (and `usize`, `u32`) reads from `s`
/// before the range check: an optional `+` followed by one or more digits.
pub open spec fn unsigned_text_value(s: Seq<char>) -> Option<int> {
    if s.len() > 0 && s[0] == '+' {
        magnitude_spec(s.drop_first())
    } else {
        magnitude_spec(s)
    }
}

/// The value that std's signed integer `from_str` reads from `s` before the
/// range check: an optional `+` or `-` followed by one or more digits.
pub open spec fn signed_text_value(s: Seq<char>) -> Option<int> {
    if s.len() > 0 && s[0] == '+' {
        magnitude_spec(s.drop_first())
    } else if s.len() > 0 && s[0] == '-' {
        match magnitude_spec(s.drop_first()) {
            Some(m) => Some(-m),
            None => None,
        }
    } else {
        magnitude_spec(s)
    }
}

/// What `s.parse::<u64>()` gives, as an `Option`.
pub open spec fn parse_u64_spec(s: Seq<char>) -> Option<u64> {
    match unsigned_text_value(s) {
        Some(v) => if v <= u64::MAX { Some(v as u64) } else { None },
        None => None,
    }
}

/// What `s.parse::<u32>()` gives, as an `Option`.
pub open spec fn parse_u32_spec(s: Seq<char>) -> Option<u32> {
    match parse_u64_spec(s) {
        Some(v) => if v <= u32::MAX { Some(v as u32) } else { None },
        None => None,
    }
}

/// What `s.parse::<usize>()` gives, as an `Option`.
pub open spec fn parse_usize_spec(s: Seq<char>) -> Option<usize> {
    match parse_u64_spec(s) {
        Some(v) => if v <= usize::MAX { Some(v as usize) } else { None },
        None => None,
    }
}

/// What `s.parse::<i32>()` gives, as an `Option`.
pub open spec fn parse_i32_spec(s: Seq<char>) -> Option<i32> {
    match parse_i64_spec(s) {
        Some(v) => if i32::MIN <= v <= i32::MAX { Some(v as i32) } else { None },
        None => None,
    }
}

/// What `s.parse::<i64>()` gives, as an `Option`.
pub open spec fn parse_i64_spec(s: Seq<char>) -> Option<i64> {
    match signed_text_value(s) {
        Some(v) => if i64::MIN <= v <= i64::MAX { Some(v as i64) } else { None },
        None => None,
    }
}

/// The strings concatenated in order.
pub open spec fn concat_spec(parts: Seq<Seq<char>>) -> Seq<char>
    decreases parts.len(),
{
    if parts.len() == 0 {
        Seq::<char>::empty()
    } else {
        concat_spec(parts.drop_last()) + parts.last()
    }
}

/// The views of a vector of strings.
pub open spec fn views(v: Seq<String>) -> Seq<Seq<char>> {
    v.map_values(|s: String| s@)
}

// ---------------------------------------------------------------------------
// Conversions
// ---------------------------------------------------------------------------

/// The characters of `s`, in order.
pub fn chars_of(s: &str) -> (v: Vec<char>)
    ensures
        v@ == s@,
{
    let mut v: Vec<char> = Vec::new();
    for c in it: s.chars()
        invariant
            v@ == it.seq().take(it.index() as int),
    {
        v.push(c);
    }
    v
}

/// Appends one character to a string (std's `String::push`).
#[verifier::external_body]
pub(crate) fn push_char(s: &mut String, c: char)
    ensures
        final(s)@ == old(s)@.push(c),
{
    s.push(c);
}

/// The string made of `v[lo..hi]`.
pub fn string_of_range(v: &Vec<char>, lo: usize, hi: usize) -> (s: String)
    requires
        lo <= hi <= v@.len(),
    ensures
        s@ == v@.subrange(lo as int, hi as int),
{
    let mut s = String::new();
    let mut i = lo;
    while i < hi
        invariant
            lo <= i <= hi <= v@.len(),
            s@ == v@.subrange(lo as int, i as int),
        decreases hi - i,
    {
        push_char(&mut s, v[i]);
        assert(v@.subrange(lo as int, i + 1) == v@.subrange(lo as int, i as int).push(v@[i as int]));
        i = i + 1;
    }
    s
}

/// An owned copy of `s`.
pub fn owned(s: &str) -> (r: String)
    ensures
        r@ == s@,
{
    s.to_owned()
}

/// The concatenation of `a` and `b`.
pub fn concat(a: &str, b: &str) -> (r: String)
    ensures
        r@ == a@ + b@,
{
    let mut r = String::new();
    r.append(a);
    r.append(b);
    r
}

/// The concatenation of `a`, `b` and `c`.
pub fn concat3(a: &str, b: &str, c: &str) -> (r: String)
    ensures
        r@ == a@ + b@ + c@,
{
    let mut r = String::new();
    r.append(a);
    r.append(b);
    r.append(c);
    r
}

/// Whether `a` and `b` hold the same characters.
pub fn str_eq(a: &str, b: &str) -> (r: bool)
    ensures
        r == (a@ == b@),
{
    let va = chars_of(a);
    let vb = chars_of(b);
    if va.len() != vb.len() {
        return false;
    }
    let mut i: usize = 0;
    while i < va.len()
        invariant
            va@ == a@,
            vb@ == b@,
            va@.len() == vb@.len(),
            i <= va@.len(),
            forall|j: int| 0 <= j < i ==> va@[j] == vb@[j],
        decreases va@.len() - i,
    {
        if va[i] != vb[i] {
            return false;
        }
        i = i + 1;
    }
    assert(va@ =~= vb@);
    true
}

/// Whether `a` holds the same characters as the string `b`.
pub fn string_eq(a: &String, b: &str) -> (r: bool)
    ensures
        r == (a@ == b@),
{
    str_eq(a.as_str(), b)
}

/// The first character of `s`, if any.
pub fn first_char(s: &str) -> (r: Option<char>)
    ensures
        r == (if s@.len() > 0 { Some(s@[0]) } else { None::<char> }),
{
    let v = chars_of(s);
    if v.len() > 0 {
        Some(v[0])
    } else {
        None
    }
}

/// Whether `c` has the Unicode `White_Space` property.
pub fn is_white_space(c: char) -> (r: bool)
    ensures
        r == is_white_space_spec(c),
{
    let u = c as u32;
    (0x09 <= u && u <= 0x0d) || u == 0x20 || u == 0x85 || u == 0xa0 || u == 0x1680 || (0x2000 <= u
        && u <= 0x200a) || u == 0x2028 || u == 0x2029 || u == 0x202f || u == 0x205f || u == 0x3000
}

// ---------------------------------------------------------------------------
// Splitting and joining
// ---------------------------------------------------------------------------

/// Splitting always yields at least one field.
pub proof fn lemma_split_nonempty(s: Seq<char>, sep: char)
    ensures
        split_spec(s, sep).len() >= 1,
    decreases s.len(),
{
    if s.len() > 0 {
        lemma_split_nonempty(s.drop_last(), sep);
    }
}

/// Joining words whose last word was replaced: the words before it, the
/// separator, and the new last word.
proof fn lemma_join_update_last(words: Seq<Seq<char>>, sep: Seq<char>, x: Seq<char>)
    requires
        words.len() >= 1,
    ensures
        join_spec(words.update(words.len() - 1, x), sep) == (if words.len() == 1 {
            x
        } else {
            join_spec(words.drop_last(), sep) + sep + x
        }),
{
    let u = words.update(words.len() - 1, x);
    assert(u.drop_last() =~= words.drop_last());
    assert(u.last() == x);
    if words.len() == 1 {
        assert(u[0] == x);
    }
}

/// Splitting a text on a separator and joining the fields with that
/// separator gives the text back: no character is lost or added.
pub proof fn split_then_join(s: Seq<char>, sep: char)
    ensures
        join_spec(split_spec(s, sep), seq![sep]) == s,
    decreases s.len(),
{
    if s.len() == 0 {
        assert(split_spec(s, sep) =~= seq![Seq::<char>::empty()]);
        assert(s =~= Seq::<char>::empty());
    } else {
        let t = s.drop_last();
        let r = split_spec(t, sep);
        split_then_join(t, sep);
        lemma_split_nonempty(t, sep);
        if s.last() == sep {
            let p = r.push(Seq::<char>::empty());
            assert(p.drop_last() =~= r);
            assert(join_spec(p, seq![sep]) == join_spec(r, seq![sep]) + seq![sep] + Seq::<char>::empty());
            assert(t.push(sep) =~= s);
            assert(join_spec(r, seq![sep]) + seq![sep] + Seq::<char>::empty() =~= t.push(sep));
        } else {
            lemma_join_update_last(r, seq![sep], r.last().push(s.last()));
            if r.len() == 1 {
                assert(join_spec(r, seq![sep]) == r[0]);
                assert(r.last().push(s.last()) =~= t.push(s.last()));
            } else {
                assert(join_spec(r, seq![sep]) == join_spec(r.drop_last(), seq![sep]) + seq![sep]
                    + r.last());
                assert(join_spec(r.drop_last(), seq![sep]) + seq![sep] + r.last().push(s.last())
                    =~= t.push(s.last()));
            }
            assert(t.push(s.last()) =~= s);
        }
    }
}

/// A text without the separator is a single field.
pub proof fn split_without_separator(a: Seq<char>, sep: char)
    requires
        !a.contains(sep),
    ensures
        split_spec(a, sep) == seq![a],
    decreases a.len(),
{
    if a.len() == 0 {
        assert(a =~= Seq::<char>::empty());
        assert(split_spec(a, sep) =~= seq![a]);
    } else {
        let t = a.drop_last();
        assert(!t.contains(sep)) by {
            if t.contains(sep) {
                let k = choose|k: int| 0 <= k < t.len() && t[k] == sep;
                assert(a[k] == sep);
            }
        }
        split_without_separator(t, sep);
        assert(a[a.len() - 1] != sep);
        assert(split_spec(a, sep) =~= seq![t.push(a.last())]);
        assert(t.push(a.last()) =~= a);
    }
}

/// The fields of two texts joined by the separator are the fields of the
/// first followed by the fields of the second.
pub proof fn split_around_separator(a: Seq<char>, b: Seq<char>, sep: char)
    ensures
        split_spec(a + seq![sep] + b, sep) == split_spec(a, sep) + split_spec(b, sep),
    decreases b.len(),
{
    lemma_split_nonempty(a, sep);
    if b.len() == 0 {
        let s = a + seq![sep] + b;
        assert(s.drop_last() =~= a);
        assert(s.last() == sep);
        assert(split_spec(b, sep) =~= seq![Seq::<char>::empty()]);
        assert(split_spec(a, sep).push(Seq::<char>::empty()) =~= split_spec(a, sep) + split_spec(b, sep));
    } else {
        let s = a + seq![sep] + b;
        let b0 = b.drop_last();
        split_around_separator(a, b0, sep);
        lemma_split_nonempty(b0, sep);
        assert(s.drop_last() =~= a + seq![sep] + b0);
        assert(s.last() == b.last());
        let fa = split_spec(a, sep);
        let fb0 = split_spec(b0, sep);
        if b.last() == sep {
            assert((fa + fb0).push(Seq::<char>::empty()) =~= fa + fb0.push(Seq::<char>::empty()));
        } else {
            let r = fa + fb0;
            assert(r.last() == fb0.last());
            assert(r.update(r.len() - 1, r.last().push(b.last())) =~= fa + fb0.update(
                fb0.len() - 1,
                fb0.last().push(b.last()),
            ));
        }
    }
}

/// A command followed by a space and a text: its first field is the
/// command, and the rest of its fields joined with spaces give back the
/// text exactly (the words of a prompt come back as the chatter wrote them).
pub proof fn text_after_command(command: Seq<char>, rest: Seq<char>)
    requires
        !command.contains(' '),
    ensures
        split_spec(command + " "@ + rest, ' ')[0] == command,
        split_spec(command + " "@ + rest, ' ').skip(1) == split_spec(rest, ' '),
        join_spec(split_spec(command + " "@ + rest, ' ').skip(1), " "@) == rest,
{
    reveal_strlit(" ");
    assert(" "@ =~= seq![' ']);
    split_around_separator(command, rest, ' ');
    split_without_separator(command, ' ');
    split_then_join(rest, ' ');
    let f = split_spec(command + " "@ + rest, ' ');
    assert(f =~= seq![command] + split_spec(rest, ' '));
    assert(f.skip(1) =~= split_spec(rest, ' '));
}

/// No field of a split holds the separator.
pub proof fn split_fields_lack_separator(s: Seq<char>, sep: char)
    ensures
        forall|i: int, j: int|
            0 <= i < split_spec(s, sep).len() && 0 <= j < split_spec(s, sep)[i].len() ==> #[trigger] split_spec(
                s,
                sep,
            )[i][j] != sep,
    decreases s.len(),
{
    if s.len() > 0 {
        let t = s.drop_last();
        let r = split_spec(t, sep);
        split_fields_lack_separator(t, sep);
        lemma_split_nonempty(t, sep);
        let f = split_spec(s, sep);
        assert forall|i: int, j: int| 0 <= i < f.len() && 0 <= j < f[i].len() implies #[trigger] f[i][j]
            != sep by {
            if s.last() == sep {
                if i < r.len() {
                    assert(f[i] == r[i]);
                }
            } else {
                if i < r.len() - 1 {
                    assert(f[i] == r[i]);
                } else {
                    assert(f[i] == r.last().push(s.last()));
                    if j < r.last().len() {
                        assert(f[i][j] == r[r.len() - 1][j]);
                    }
                }
            }
        }
    }
}

/// Joining two non-empty lists of words one after the other is joining
/// each and putting the separator between them.
pub proof fn join_concat(a: Seq<Seq<char>>, b: Seq<Seq<char>>, sep: Seq<char>)
    requires
        a.len() > 0,
        b.len() > 0,
    ensures
        join_spec(a + b, sep) == join_spec(a, sep) + sep + join_spec(b, sep),
    decreases b.len(),
{
    if b.len() == 1 {
        assert((a + b).drop_last() =~= a);
        assert((a + b).last() == b[0]);
    } else {
        join_concat(a, b.drop_last(), sep);
        assert((a + b).drop_last() =~= a + b.drop_last());
        assert((a + b).last() == b.last());
        assert(join_spec(a + b, sep) == join_spec(a + b.drop_last(), sep) + sep + b.last());
        assert(join_spec(b, sep) == join_spec(b.drop_last(), sep) + sep + b.last());
        assert(join_spec(a, sep) + sep + join_spec(b.drop_last(), sep) + sep + b.last() =~= join_spec(
            a,
            sep,
        ) + sep + (join_spec(b.drop_last(), sep) + sep + b.last()));
    }
}

/// The fields of `s` separated by `sep`, as `str::split(sep)` yields them.
pub fn split_on(s: &str, sep: char) -> (fields: Vec<String>)
    ensures
        views(fields@) == split_spec(s@, sep),
{
    let v = chars_of(s);
    let mut fields: Vec<String> = Vec::new();
    let mut start: usize = 0;
    let mut i: usize = 0;
    assert(views(fields@) =~= Seq::<Seq<char>>::empty());
    assert(v@.take(0) =~= Seq::<char>::empty());
    assert(v@.subrange(0, 0) =~= Seq::<char>::empty());
    while i < v.len()
        invariant
            v@ == s@,
            start <= i <= v@.len(),
            views(fields@).push(v@.subrange(start as int, i as int)) == split_spec(
                v@.take(i as int),
                sep,
            ),
        decreases v@.len() - i,
    {
        let ghost pre = v@.take(i + 1);
        assert(pre.drop_last() == v@.take(i as int));
        proof {
            lemma_split_nonempty(v@.take(i as int), sep);
        }
        let ghost old_fields = fields@;
        if v[i] == sep {
            let f = string_of_range(&v, start, i);
            fields.push(f);
            assert(fields@ == old_fields.push(f));
            assert(views(fields@) =~= views(old_fields).push(f@));
            start = i + 1;
            assert(v@.subrange(start as int, i + 1) =~= Seq::<char>::empty());
        } else {
            assert(v@.subrange(start as int, i + 1) == v@.subrange(start as int, i as int).push(
                v@[i as int],
            ));
        }
        i = i + 1;
    }
    let last = string_of_range(&v, start, v.len());
    fields.push(last);
    assert(v@.take(v@.len() as int) == v@);
    fields
}


proof fn lemma_words_push_view(old_words: Seq<String>, w: String)
    ensures
        views(old_words.push(w)) == views(old_words).push(w@),
{
    assert(views(old_words.push(w)) =~= views(old_words).push(w@));
}

/// The words of `s`: the maximal runs of characters that are not white
/// space, as `str::split_whitespace` yields them.
pub fn split_words(s: &str) -> (words: Vec<String>)
    ensures
        views(words@) == words_spec(s@),
{
    let v = chars_of(s);
    let mut words: Vec<String> = Vec::new();
    let mut start: usize = 0;
    let mut i: usize = 0;
    assert(views(words@) =~= Seq::<Seq<char>>::empty());
    assert(v@.take(0) =~= Seq::<char>::empty());
    while i < v.len()
        invariant
            v@ == s@,
            start <= i <= v@.len(),
            (start < i) == (i > 0 && !is_white_space_spec(v@[i - 1])),
            start < i ==> views(words@).push(v@.subrange(start as int, i as int)) == words_spec(
                v@.take(i as int),
            ),
            start == i ==> views(words@) == words_spec(v@.take(i as int)),
        decreases v@.len() - i,
    {
        let ghost pre = v@.take(i + 1);
        assert(pre.drop_last() == v@.take(i as int));
        assert(pre.last() == v@[i as int]);
        if i >= 1 {
            assert(pre[pre.len() - 2] == v@[i - 1]);
        }
        let ghost old_words = words@;
        let c = v[i];
        if is_white_space(c) {
            if start < i {
                let w = string_of_range(&v, start, i);
                words.push(w);
                proof {
                    lemma_words_push_view(old_words, w);
                }
            }
            start = i + 1;
        } else {
            assert(v@.subrange(start as int, i + 1) == v@.subrange(start as int, i as int).push(c));
            if start == i {
                assert(v@.subrange(start as int, i + 1) =~= seq![c]);
            }
        }
        i = i + 1;
    }
    assert(v@.take(v@.len() as int) == v@);
    if start < v.len() {
        let ghost old_words = words@;
        let w = string_of_range(&v, start, v.len());
        words.push(w);
        proof {
            lemma_words_push_view(old_words, w);
        }
    }
    words
}

/// The words joined with `sep` between consecutive words
/// (what `[String]::join(sep)` gives).
pub fn join(words: &[String], sep: &str) -> (r: String)
    ensures
        r@ == join_spec(views(words@), sep@),
{
    let mut r = String::new();
    let mut i: usize = 0;
    assert(views(words@.take(0)) =~= Seq::<Seq<char>>::empty());
    while i < words.len()
        invariant
            i <= words@.len(),
            r@ == join_spec(views(words@.take(i as int)), sep@),
        decreases words@.len() - i,
    {
        let ghost pre = views(words@.take(i + 1));
        assert(pre.drop_last() =~= views(words@.take(i as int)));
        assert(pre.last() == words@[i as int]@);
        if i > 0 {
            r.append(sep);
        } else {
            assert(pre =~= seq![words@[0]@]);
        }
        r.append(words[i].as_str());
        i = i + 1;
    }
    assert(words@.take(words@.len() as int) == words@);
    r
}

/// `words[from..]` joined with `sep`; the empty string when `from` is past
/// the end.
pub fn join_from(words: &Vec<String>, from: usize, sep: &str) -> (r: String)
    ensures
        r@ == (if from < words@.len() {
            join_spec(views(words@.skip(from as int)), sep@)
        } else {
            Seq::<char>::empty()
        }),
{
    if from >= words.len() {
        return String::new();
    }
    let tail = slice_from(words, from);
    join(tail.as_slice(), sep)
}

/// A copy of `words[from..]`.
pub fn slice_from(words: &Vec<String>, from: usize) -> (r: Vec<String>)
    requires
        from <= words@.len(),
    ensures
        r@ == words@.skip(from as int),
{
    let mut r: Vec<String> = Vec::new();
    let mut i = from;
    while i < words.len()
        invariant
            from <= i <= words@.len(),
            r@ == words@.subrange(from as int, i as int),
        decreases words@.len() - i,
    {
        r.push(words[i].clone());
        assert(words@.subrange(from as int, i + 1) =~= words@.subrange(from as int, i as int).push(
            words@[i as int],
        ));
        i = i + 1;
    }
    assert(words@.subrange(from as int, words@.len() as int) =~= words@.skip(from as int));
    r
}

// ---------------------------------------------------------------------------
// Numbers
// ---------------------------------------------------------------------------

proof fn lemma_digits_monotone(s: Seq<char>, k: int)
    requires
        0 <= k <= s.len(),
        all_digits(s),
    ensures
        digits_value(s) >= digits_value(s.take(k)),
        digits_value(s) >= 0,
    decreases s.len(),
{
    if s.len() == 0 {
        assert(s.take(k) =~= s);
    } else if k == s.len() {
        assert(all_digits(s.drop_last()));
        assert(is_digit_spec(s[s.len() - 1]));
        assert(s.take(k) =~= s);
        lemma_digits_monotone(s.drop_last(), 0);
    } else {
        assert(all_digits(s.drop_last()));
        lemma_digits_monotone(s.drop_last(), k);
        assert(s.drop_last().take(k) =~= s.take(k));
        assert(is_digit_spec(s[s.len() - 1]));
    }
}

proof fn lemma_magnitude_nonneg(t: Seq<char>)
    ensures
        magnitude_spec(t) matches Some(m) ==> m >= 0,
{
    if t.len() > 0 && all_digits(t) {
        lemma_digits_monotone(t, 0);
    }
}

/// The magnitude written in `v[lo..]` when it fits in a `u64`.
fn parse_magnitude(v: &Vec<char>, lo: usize) -> (r: Option<u64>)
    requires
        lo <= v@.len(),
    ensures
        r == (match magnitude_spec(v@.skip(lo as int)) {
            Some(m) => if m <= u64::MAX { Some(m as u64) } else { None::<u64> },
            None => None::<u64>,
        }),
{
    let ghost t = v@.skip(lo as int);
    if lo >= v.len() {
        return None;
    }
    let mut acc: u64 = 0;
    let mut i = lo;
    assert(t.take(0) =~= Seq::<char>::empty());
    while i < v.len()
        invariant
            lo <= i <= v@.len(),
            t == v@.skip(lo as int),
            all_digits(t.take(i - lo)),
            acc == digits_value(t.take(i - lo)),
        decreases v@.len() - i,
    {
        let c = v[i];
        let ghost pre = t.take(i - lo + 1);
        assert(pre.drop_last() =~= t.take(i - lo));
        assert(pre.last() == c);
        if !('0' <= c && c <= '9') {
            assert(!is_digit_spec(t[i - lo]));
            assert(!all_digits(t));
            return None;
        }
        let d = (c as u32 - '0' as u32) as u64;
        assert(d == digit_value(c));
        if acc > (u64::MAX - d) / 10 {
            proof {
                assert(acc * 10 + d > u64::MAX) by (nonlinear_arith)
                    requires
                        acc > (u64::MAX - d) / 10,
                        d <= 9,
                ;
                if all_digits(t) {
                    lemma_digits_monotone(t, i - lo + 1);
                }
            }
            return None;
        }
        assert(acc * 10 + d <= u64::MAX) by (nonlinear_arith)
            requires
                acc <= (u64::MAX - d) / 10,
                d <= 9,
        ;
        acc = acc * 10 + d;
        assert forall|j: int| 0 <= j < pre.len() implies #[trigger] is_digit_spec(pre[j]) by {
            if j < pre.len() - 1 {
                assert(pre[j] == t.take(i - lo)[j]);
            }
        }
        i = i + 1;
    }
    assert(t.take(i - lo) =~= t);
    Some(acc)
}

/// `s.parse::<u64>().ok()`.
pub fn parse_u64(s: &str) -> (r: Option<u64>)
    ensures
        r == parse_u64_spec(s@),
{
    let v = chars_of(s);
    let lo: usize = if v.len() > 0 && v[0] == '+' {
        1
    } else {
        0
    };
    assert(v@.skip(0) =~= v@);
    assert(v@.len() > 0 ==> v@.skip(1) =~= v@.drop_first());
    parse_magnitude(&v, lo)
}

/// `s.parse::<u32>().ok()`.
pub fn parse_u32(s: &str) -> (r: Option<u32>)
    ensures
        r == parse_u32_spec(s@),
{
    match parse_u64(s) {
        Some(v) => if v <= u32::MAX as u64 {
            Some(v as u32)
        } else {
            None
        },
        None => None,
    }
}

/// `s.parse::<usize>().ok()`.
pub fn parse_usize(s: &str) -> (r: Option<usize>)
    ensures
        r == parse_usize_spec(s@),
{
    match parse_u64(s) {
        Some(v) => if v <= usize::MAX as u64 {
            Some(v as usize)
        } else {
            None
        },
        None => None,
    }
}

/// `s.parse::<i64>().ok()`.
pub fn parse_i64(s: &str) -> (r: Option<i64>)
    ensures
        r == parse_i64_spec(s@),
{
    let v = chars_of(s);
    assert(v@.skip(0) =~= v@);
    assert(v@.len() > 0 ==> v@.skip(1) =~= v@.drop_first());
    proof {
        lemma_magnitude_nonneg(v@);
        if v@.len() > 0 {
            lemma_magnitude_nonneg(v@.drop_first());
        }
    }
    if v.len() > 0 && v[0] == '-' {
        assert(signed_text_value(s@) == match magnitude_spec(v@.skip(1)) {
            Some(m) => Some(-m),
            None => None::<int>,
        });
        match parse_magnitude(&v, 1) {
            Some(m) => if m <= 0x8000_0000_0000_0000u64 {
                if m == 0x8000_0000_0000_0000u64 {
                    Some(i64::MIN)
                } else {
                    Some(-(m as i64))
                }
            } else {
                None
            },
            None => None,
        }
    } else {
        let lo: usize = if v.len() > 0 && v[0] == '+' {
            1
        } else {
            0
        };
        match parse_magnitude(&v, lo) {
            Some(m) => if m <= i64::MAX as u64 {
                Some(m as i64)
            } else {
                None
            },
            None => None,
        }
    }
}

/// `s.parse::<i32>().ok()`.
pub fn parse_i32(s: &str) -> (r: Option<i32>)
    ensures
        r == parse_i32_spec(s@),
{
    match parse_i64(s) {
        Some(v) => if i32::MIN as i64 <= v && v <= i32::MAX as i64 {
            Some(v as i32)
        } else {
            None
        },
        None => None,
    }
}

/// The word at `index`, if there is one (`Vec::get`).
pub fn word_at(words: &Vec<String>, index: usize) -> (r: Option<&String>)
    ensures
        r == (if index < words@.len() { Some(&words@[index as int]) } else { None::<&String> }),
{
    if index < words.len() {
        Some(&words[index])
    } else {
        None
    }
}

/// Whether the word at `index` is `lit`.
pub fn word_is(words: &Vec<String>, index: usize, lit: &str) -> (r: bool)
    ensures
        r == (index < words@.len() && words@[index as int]@ == lit@),
{
    if index < words.len() {
        str_eq(words[index].as_str(), lit)
    } else {
        false
    }
}

/// A copy of the word at `index`, if there is one.
pub fn word_copy(words: &Vec<String>, index: usize) -> (r: Option<String>)
    ensures
        r matches Some(w) ==> index < words@.len() && w@ == words@[index as int]@,
        r is None <==> index >= words@.len(),
{
    if index < words.len() {
        Some(owned(words[index].as_str()))
    } else {
        None
    }
}

/// Whether one of the strings `v` holds the same characters as `s`.
pub fn contains_text(v: &Vec<String>, s: &str) -> (r: bool)
    ensures
        r == views(v@).contains(s@),
{
    let ghost vs = views(v@);
    let mut i: usize = 0;
    while i < v.len()
        invariant
            i <= v@.len(),
            vs == views(v@),
            vs.len() == v@.len(),
            forall|j: int| 0 <= j < i ==> vs[j] != s@,
        decreases v@.len() - i,
    {
        assert(vs[i as int] == v@[i as int]@);
        if str_eq(v[i].as_str(), s) {
            return true;
        }
        i = i + 1;
    }
    false
}

/// The view of an optional string.
pub open spec fn opt_view(o: Option<String>) -> Option<Seq<char>> {
    match o {
        Some(s) => Some(s@),
        None => None,
    }
}

/// The word at `index` as plain text, if there is one.
pub open spec fn word_at_spec(words: Seq<Seq<char>>, index: int) -> Option<Seq<char>> {
    if 0 <= index < words.len() {
        Some(words[index])
    } else {
        None
    }
}

/// The decimal digit character for `d` (`0 <= d < 10`).
pub open spec fn digit_char(d: nat) -> char {
    if d == 0 {
        '0'
    } else if d == 1 {
        '1'
    } else if d == 2 {
        '2'
    } else if d == 3 {
        '3'
    } else if d == 4 {
        '4'
    } else if d == 5 {
        '5'
    } else if d == 6 {
        '6'
    } else if d == 7 {
        '7'
    } else if d == 8 {
        '8'
    } else {
        '9'
    }
}

/// The digit character for `d`.
pub fn digit_to_char(d: u64) -> (c: char)
    requires
        d < 10,
    ensures
        c == digit_char(d as nat),
{
    if d == 0 {
        '0'
    } else if d == 1 {
        '1'
    } else if d == 2 {
        '2'
    } else if d == 3 {
        '3'
    } else if d == 4 {
        '4'
    } else if d == 5 {
        '5'
    } else if d == 6 {
        '6'
    } else if d == 7 {
        '7'
    } else if d == 8 {
        '8'
    } else {
        '9'
    }
}

/// The decimal text of `n`, as `format!("{}", n)` writes it.
pub open spec fn decimal_spec(n: nat) -> Seq<char>
    decreases n,
{
    if n < 10 {
        seq![digit_char(n)]
    } else {
        decimal_spec(n / 10).push(digit_char(n % 10))
    }
}

/// The decimal text of a signed number: a minus sign before the digits of
/// a negative one.
pub open spec fn signed_decimal_spec(n: int) -> Seq<char> {
    if n < 0 {
        seq!['-'] + decimal_spec((-n) as nat)
    } else {
        decimal_spec(n as nat)
    }
}

/// The digits of a number are digits, and read back as the number.
proof fn lemma_decimal_digits(n: nat)
    ensures
        all_digits(decimal_spec(n)),
        decimal_spec(n).len() > 0,
        digits_value(decimal_spec(n)) == n,
    decreases n,
{
    if n < 10 {
        let d = decimal_spec(n);
        assert(d[0] == digit_char(n));
        assert(d.drop_last() =~= Seq::<char>::empty());
        assert(digits_value(d) == digits_value(d.drop_last()) * 10 + digit_value(d.last()));
    } else {
        lemma_decimal_digits(n / 10);
        let p = decimal_spec(n / 10);
        let d = p.push(digit_char(n % 10));
        assert(d.drop_last() =~= p);
        assert(digits_value(d) == digits_value(p) * 10 + digit_value(digit_char(n % 10)));
        assert forall|i: int| 0 <= i < d.len() implies #[trigger] is_digit_spec(d[i]) by {
            if i < p.len() {
                assert(d[i] == p[i]);
            }
        }
    }
}

/// Every number the bot writes in decimal reads back as the same number:
/// `s.parse::<u64>()` of the text gives the number.
pub proof fn decimal_reads_back(n: u64)
    ensures
        parse_u64_spec(decimal_spec(n as nat)) == Some(n),
{
    lemma_decimal_digits(n as nat);
    let d = decimal_spec(n as nat);
    assert(is_digit_spec(d[0]));
}

/// The decimal text of `n`.
pub fn decimal(n: u64) -> (s: String)
    ensures
        s@ == decimal_spec(n as nat),
    decreases n,
{
    let ch = digit_to_char(n % 10);
    if n < 10 {
        let mut s = String::new();
        push_char(&mut s, ch);
        assert(s@ =~= seq![ch]);
        s
    } else {
        let mut s = decimal(n / 10);
        push_char(&mut s, ch);
        s
    }
}

/// The decimal text of the signed number `n`.
pub fn signed_decimal(n: i64) -> (s: String)
    ensures
        s@ == signed_decimal_spec(n as int),
{
    if n < 0 {
        let m: u64 = if n == i64::MIN {
            0x8000_0000_0000_0000u64
        } else {
            (-n) as u64
        };
        let digits = decimal(m);
        let r = concat("-", digits.as_str());
        proof {
            reveal_strlit("-");
            assert("-"@ =~= seq!['-']);
        }
        r
    } else {
        decimal(n as u64)
    }
}

/// The text of the error that std's `str::parse::<i32>` reports for a text
/// that is no `i32` (the `Display` of `ParseIntError`, whose kind depends on
/// where the scan fails).
pub uninterp spec fn i32_parse_error_text(s: Seq<char>) -> Seq<char>;

/// std's `str::parse::<i32>`, with the error turned into its text: a number
/// exactly where the text is an optional sign and decimal digits of a value
/// in range (std's documented grammar, as `parse_i32_spec` states it).
#[verifier::external_body]
pub(crate) fn parse_i32_or_error(s: &str) -> (r: Result<i32, String>)
    ensures
        match r {
            Ok(v) => parse_i32_spec(s@) == Some(v),
            Err(e) => parse_i32_spec(s@) is None && e@ == i32_parse_error_text(s@),
        },
{
    match s.parse::<i32>() {
        Ok(v) => Ok(v),
        Err(e) => Err(e.to_string()),
    }
}

// ---------------------------------------------------------------------------
// Case
// ---------------------------------------------------------------------------

/// What std's `str::to_lowercase` gives for `s` (Unicode lower case mapping,
/// which takes tables to state).
pub uninterp spec fn lowercase(s: Seq<char>) -> Seq<char>;

/// Whether every character of `s` is ASCII.
pub open spec fn is_ascii_text(s: Seq<char>) -> bool {
    forall|i: int| 0 <= i < s.len() ==> (#[trigger] s[i] as u32) < 128
}

/// The ASCII lower case of a character: `A`-`Z` become `a`-`z`, every
/// other character stays.
pub open spec fn ascii_lower_char(c: char) -> char {
    if 'A' <= c <= 'Z' {
        ((c as u32) + 32) as char
    } else {
        c
    }
}

/// The ASCII lower case of a text, character by character.
pub open spec fn ascii_lowercase(s: Seq<char>) -> Seq<char> {
    s.map_values(|c: char| ascii_lower_char(c))
}

/// std's `str::to_lowercase`: the result is the named lower case of the
/// text. Lower case follows Unicode's `Lowercase` property, which on ASCII
/// text maps `A`-`Z` to `a`-`z` and keeps every other character, so on such
/// text (the empty text among it) that is what is claimed; what it does to
/// other characters is left to the name.
#[verifier::external_body]
pub(crate) fn to_lowercase(s: &str) -> (r: String)
    ensures
        r@ == lowercase(s@),
        is_ascii_text(s@) ==> r@ == ascii_lowercase(s@),
{
    s.to_lowercase()
}


/// The words of a text are never empty and hold no white space, and a
/// text that ends in a character other than white space has a word.
pub proof fn words_are_runs_without_white_space(s: Seq<char>)
    ensures
        forall|i: int| 0 <= i < words_spec(s).len() ==> (#[trigger] words_spec(s)[i]).len() > 0,
        forall|i: int, j: int|
            0 <= i < words_spec(s).len() && 0 <= j < words_spec(s)[i].len() ==> !is_white_space_spec(
                #[trigger] words_spec(s)[i][j],
            ),
        s.len() > 0 && !is_white_space_spec(s.last()) ==> words_spec(s).len() > 0,
    decreases s.len(),
{
    if s.len() > 0 {
        let init = s.drop_last();
        words_are_runs_without_white_space(init);
        let rest = words_spec(init);
        let w = words_spec(s);
        let c = s.last();
        if !is_white_space_spec(c) {
            if s.len() >= 2 && !is_white_space_spec(s[s.len() - 2]) {
                assert(init.last() == s[s.len() - 2]);
                let k = rest.len() - 1;
                assert forall|i: int| 0 <= i < w.len() implies (#[trigger] w[i]).len() > 0 by {
                    if i != k {
                        assert(w[i] == rest[i]);
                    }
                }
                assert forall|i: int, j: int| 0 <= i < w.len() && 0 <= j < w[i].len() implies !is_white_space_spec(
                    #[trigger] w[i][j],
                ) by {
                    if i != k {
                        assert(w[i] == rest[i]);
                    } else {
                        assert(w[k] == rest[k].push(c));
                        if j < rest[k].len() {
                            assert(w[k][j] == rest[k][j]);
                        }
                    }
                }
            } else {
                assert forall|i: int| 0 <= i < w.len() implies (#[trigger] w[i]).len() > 0 by {
                    if i < rest.len() {
                        assert(w[i] == rest[i]);
                    }
                }
                assert forall|i: int, j: int| 0 <= i < w.len() && 0 <= j < w[i].len() implies !is_white_space_spec(
                    #[trigger] w[i][j],
                ) by {
                    if i < rest.len() {
                        assert(w[i] == rest[i]);
                    } else {
                        assert(w[i] == seq![c]);
                    }
                }
            }
        }
    }
}

} // verus!
