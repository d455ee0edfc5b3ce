//! Chat commands that move and spin OBS sources, and the channel reward
//! commands (`!flash_sale`, `!bootstrap_rewards`).
use crate::deps::random_below;
use crate::handlers::{is_streamer, is_streamer_name};
use crate::text::{
    chars_of, concat, concat3, concat_spec, decimal, decimal_spec, owned, parse_u64,
    parse_u64_spec, str_eq, string_of_range, views, word_at_spec,
};
use vstd::prelude::*;

verus! {

// ---------------------------------------------------------------------------
// Chunking long chat messages
// ---------------------------------------------------------------------------

/// Position `p` of `s` closes a chunk when it holds a comma, or when it is
/// the last character of `s` and that character is one byte long in UTF-8
/// (chunking compares byte offsets with the byte length).
pub open spec fn is_chunk_boundary(s: Seq<char>, p: int) -> bool {
    s[p] == ',' || (p == s.len() - 1 && (s[p] as u32) < 0x80)
}

/// Position `p` may end the chunk that starts at `start` when it is a
/// boundary and the chunk would hold at least `size` characters.
pub open spec fn may_end_chunk(s: Seq<char>, size: nat, start: int, p: int) -> bool {
    is_chunk_boundary(s, p) && p - start + 1 >= size
}

/// Where chunk `i` of `chunks` starts in their concatenation.
pub open spec fn chunk_start(chunks: Seq<Seq<char>>, i: int) -> int {
    concat_spec(chunks.take(i)).len() as int
}

/// No position of chunk `i` before its last one may end it.
pub open spec fn no_early_end(s: Seq<char>, size: nat, chunks: Seq<Seq<char>>, i: int) -> bool {
    let start = chunk_start(chunks, i);
    forall|p: int|
        start <= p < start + chunks[i].len() - 1 ==> !#[trigger] may_end_chunk(s, size, start, p)
}

/// Chunk `i` ends at a position that may end it.
pub open spec fn ends_at_boundary(s: Seq<char>, size: nat, chunks: Seq<Seq<char>>, i: int) -> bool {
    let start = chunk_start(chunks, i);
    chunks[i].len() > 0 && may_end_chunk(s, size, start, start + chunks[i].len() - 1)
}

/// `chunks` is how `s` is cut into chunks of at least `size` characters:
/// together they give back `s`; each chunk but the last ends at the first
/// comma (or final one-byte character) at which it holds at least `size`
/// characters; the last chunk is what remains.
pub open spec fn chunked(s: Seq<char>, size: nat, chunks: Seq<Seq<char>>) -> bool {
    &&& concat_spec(chunks) == s
    &&& forall|i: int| 0 <= i < chunks.len() ==> #[trigger] chunks[i].len() > 0
    &&& forall|i: int| 0 <= i < chunks.len() ==> #[trigger] no_early_end(s, size, chunks, i)
    &&& forall|i: int| 0 <= i < chunks.len() - 1 ==> #[trigger] ends_at_boundary(s, size, chunks, i)
}

proof fn lemma_concat_push(parts: Seq<Seq<char>>, x: Seq<char>)
    ensures
        concat_spec(parts.push(x)) == concat_spec(parts) + x,
{
    assert(parts.push(x).drop_last() =~= parts);
}

proof fn lemma_take_push(parts: Seq<Seq<char>>, x: Seq<char>, i: int)
    requires
        0 <= i <= parts.len(),
    ensures
        parts.push(x).take(i) == parts.take(i),
{
    assert(parts.push(x).take(i) =~= parts.take(i));
}

proof fn lemma_no_early_end_push(
    s: Seq<char>,
    size: nat,
    old: Seq<Seq<char>>,
    x: Seq<char>,
    i: int,
)
    requires
        0 <= i < old.len(),
        no_early_end(s, size, old, i),
    ensures
        no_early_end(s, size, old.push(x), i),
{
    lemma_take_push(old, x, i);
    assert(old.push(x)[i] == old[i]);
    let start = chunk_start(old, i);
    assert(chunk_start(old.push(x), i) == start);
    assert forall|p: int| start <= p < start + old.push(x)[i].len() - 1 implies !#[trigger] may_end_chunk(
        s,
        size,
        start,
        p,
    ) by {}
}

proof fn lemma_no_early_end_new(s: Seq<char>, size: nat, old: Seq<Seq<char>>, x: Seq<char>)
    requires
        forall|p: int|
            concat_spec(old).len() <= p < concat_spec(old).len() + x.len() - 1 ==> !#[trigger] may_end_chunk(
                s,
                size,
                concat_spec(old).len() as int,
                p,
            ),
    ensures
        no_early_end(s, size, old.push(x), old.len() as int),
{
    lemma_take_push(old, x, old.len() as int);
    assert(old.take(old.len() as int) =~= old);
    assert(old.push(x)[old.len() as int] == x);
    assert(chunk_start(old.push(x), old.len() as int) == concat_spec(old).len());
}

proof fn lemma_ends_at_boundary_push(
    s: Seq<char>,
    size: nat,
    old: Seq<Seq<char>>,
    x: Seq<char>,
    i: int,
)
    requires
        0 <= i < old.len(),
        ends_at_boundary(s, size, old, i),
    ensures
        ends_at_boundary(s, size, old.push(x), i),
{
    lemma_take_push(old, x, i);
    assert(old.push(x)[i] == old[i]);
}

/// The concatenation of two lists of strings is the concatenation of each.
proof fn lemma_concat_append(a: Seq<Seq<char>>, b: Seq<Seq<char>>)
    ensures
        concat_spec(a + b) == concat_spec(a) + concat_spec(b),
    decreases b.len(),
{
    if b.len() == 0 {
        assert(a + b =~= a);
        assert(concat_spec(a) + concat_spec(b) =~= concat_spec(a));
    } else {
        lemma_concat_append(a, b.drop_last());
        assert((a + b).drop_last() =~= a + b.drop_last());
        assert((a + b).last() == b.last());
        assert(concat_spec(a) + concat_spec(b.drop_last()) + b.last() =~= concat_spec(a) + (
        concat_spec(b.drop_last()) + b.last()));
    }
}

/// Chunk `i` is the text between its start and its end, and it ends
/// within the text (the last chunk at its very end).
proof fn lemma_chunk_in_text(c: Seq<Seq<char>>, i: int)
    requires
        0 <= i < c.len(),
    ensures
        chunk_start(c, i) + c[i].len() <= concat_spec(c).len(),
        concat_spec(c).subrange(chunk_start(c, i), chunk_start(c, i) + c[i].len()) == c[i],
        concat_spec(c.take(i + 1)).len() == chunk_start(c, i) + c[i].len(),
        i == c.len() - 1 ==> chunk_start(c, i) + c[i].len() == concat_spec(c).len(),
{
    let head = c.take(i);
    let tail = c.skip(i + 1);
    assert(c =~= head + seq![c[i]] + tail);
    lemma_concat_append(head + seq![c[i]], tail);
    lemma_concat_append(head, seq![c[i]]);
    let one = seq![c[i]];
    assert(one.drop_last() =~= Seq::<Seq<char>>::empty());
    assert(concat_spec(one.drop_last()) == Seq::<char>::empty());
    assert(one.last() == c[i]);
    assert(concat_spec(one) == concat_spec(one.drop_last()) + one.last());
    assert(Seq::<char>::empty() + c[i] =~= c[i]);
    let start = concat_spec(head).len() as int;
    let whole = concat_spec(head) + c[i] + concat_spec(tail);
    assert(concat_spec(c) == whole);
    assert(whole.subrange(start, start + c[i].len()) =~= c[i]);
    assert(c.take(i + 1) =~= head + seq![c[i]]);
    if i == c.len() - 1 {
        assert(tail =~= Seq::<Seq<char>>::empty());
    }
}

/// The chunk of index `i` is the same in two cuttings of `s` that agree on
/// the chunks before it.
proof fn lemma_same_next_chunk(s: Seq<char>, size: nat, c1: Seq<Seq<char>>, c2: Seq<Seq<char>>, i: int)
    requires
        chunked(s, size, c1),
        chunked(s, size, c2),
        0 <= i < c1.len(),
        0 <= i < c2.len(),
        c1.take(i) == c2.take(i),
    ensures
        c1[i] == c2[i],
{
    let start = chunk_start(c1, i);
    assert(chunk_start(c2, i) == start);
    lemma_chunk_in_text(c1, i);
    lemma_chunk_in_text(c2, i);
    let a = c1[i].len() as int;
    let b = c2[i].len() as int;
    assert(a > 0 && b > 0);
    assert(no_early_end(s, size, c1, i));
    assert(no_early_end(s, size, c2, i));
    if a < b {
        if i < c1.len() - 1 {
            assert(ends_at_boundary(s, size, c1, i));
            assert(may_end_chunk(s, size, start, start + a - 1));
            assert(!may_end_chunk(s, size, start, start + a - 1));
        } else {
            assert(start + a == s.len());
            assert(start + b <= s.len());
        }
    } else if b < a {
        if i < c2.len() - 1 {
            assert(ends_at_boundary(s, size, c2, i));
            assert(may_end_chunk(s, size, start, start + b - 1));
            assert(!may_end_chunk(s, size, start, start + b - 1));
        } else {
            assert(start + b == s.len());
            assert(start + a <= s.len());
        }
    }
    assert(a == b);
}

/// Two cuttings of `s` agree on their first `k` chunks.
proof fn lemma_same_prefix(s: Seq<char>, size: nat, c1: Seq<Seq<char>>, c2: Seq<Seq<char>>, k: int)
    requires
        chunked(s, size, c1),
        chunked(s, size, c2),
        0 <= k <= c1.len(),
        k <= c2.len(),
    ensures
        c1.take(k) == c2.take(k),
    decreases k,
{
    if k == 0 {
        assert(c1.take(0) =~= c2.take(0));
    } else {
        lemma_same_prefix(s, size, c1, c2, k - 1);
        lemma_same_next_chunk(s, size, c1, c2, k - 1);
        assert(c1.take(k) =~= c1.take(k - 1).push(c1[k - 1]));
        assert(c2.take(k) =~= c2.take(k - 1).push(c2[k - 1]));
    }
}

/// A message has one cutting into chunks: two lists of chunks that both
/// cut `s` by the rule are the same list, so `chunk_string`'s result is
/// fixed by the message and the chunk size.
pub proof fn chunking_is_unique(s: Seq<char>, size: nat, c1: Seq<Seq<char>>, c2: Seq<Seq<char>>)
    requires
        chunked(s, size, c1),
        chunked(s, size, c2),
    ensures
        c1 == c2,
{
    let m = if c1.len() < c2.len() {
        c1.len() as int
    } else {
        c2.len() as int
    };
    lemma_same_prefix(s, size, c1, c2, m);
    if c1.len() < c2.len() {
        assert(c1.take(m) =~= c1);
        lemma_chunk_in_text(c2, m);
        assert(chunk_start(c2, m) == concat_spec(c1).len());
        assert(c2[m].len() > 0);
    } else if c2.len() < c1.len() {
        assert(c2.take(m) =~= c2);
        lemma_chunk_in_text(c1, m);
        assert(chunk_start(c1, m) == concat_spec(c2).len());
        assert(c1[m].len() > 0);
    } else {
        assert(c1.take(m) =~= c1);
        assert(c2.take(m) =~= c2);
    }
}

/// Cuts `s` into chunks for chat messages of limited length: a chunk ends at
/// the first comma (or at the final character, when it is one byte long) at
/// which it holds at least `chunk_size` characters; what is left at the end
/// forms the last chunk.
pub fn chunk_string(s: &str, chunk_size: usize) -> (chunks: Vec<String>)
    ensures
        chunked(s@, chunk_size as nat, views(chunks@)),
{
    let v = chars_of(s);
    let n = v.len();
    let mut chunks: Vec<String> = Vec::new();
    let mut last_split: usize = 0;
    let mut current_count: usize = 0;
    let mut k: usize = 0;
    let ghost size = chunk_size as nat;
    assert(views(chunks@) =~= Seq::<Seq<char>>::empty());
    assert(v@.take(0) =~= Seq::<char>::empty());
    while k < n
        invariant
            v@ == s@,
            n == v@.len(),
            size == chunk_size as nat,
            last_split <= k <= n,
            current_count == k - last_split,
            concat_spec(views(chunks@)) == v@.take(last_split as int),
            forall|i: int| 0 <= i < chunks@.len() ==> #[trigger] views(chunks@)[i].len() > 0,
            forall|i: int|
                0 <= i < chunks@.len() ==> #[trigger] no_early_end(v@, size, views(chunks@), i),
            forall|i: int|
                0 <= i < chunks@.len() ==> #[trigger] ends_at_boundary(
                    v@,
                    size,
                    views(chunks@),
                    i,
                ),
            forall|p: int|
                last_split <= p < k ==> !#[trigger] may_end_chunk(v@, size, last_split as int, p),
        decreases n - k,
    {
        let ch = v[k];
        current_count = current_count + 1;
        let boundary = ch == ',' || (k + 1 == n && (ch as u32) < 0x80);
        assert(boundary == is_chunk_boundary(v@, k as int));
        if boundary && current_count >= chunk_size {
            assert(may_end_chunk(v@, size, last_split as int, k as int));
            let ghost old_chunks = views(chunks@);
            let piece = string_of_range(&v, last_split, k + 1);
            chunks.push(piece);
            proof {
                let nc = views(chunks@);
                assert(nc =~= old_chunks.push(piece@));
                lemma_concat_push(old_chunks, piece@);
                assert(v@.take(last_split as int) + v@.subrange(last_split as int, k + 1) =~= v@.take(
                    k + 1,
                ));
                assert forall|i: int| 0 <= i < nc.len() implies #[trigger] nc[i].len() > 0 by {
                    if i < old_chunks.len() {
                        assert(nc[i] == old_chunks[i]);
                    }
                }
                lemma_no_early_end_new(v@, size, old_chunks, piece@);
                assert forall|i: int| 0 <= i < nc.len() implies #[trigger] no_early_end(
                    v@,
                    size,
                    nc,
                    i,
                ) by {
                    if i < old_chunks.len() {
                        lemma_no_early_end_push(v@, size, old_chunks, piece@, i);
                    }
                }
                assert forall|i: int| 0 <= i < nc.len() implies #[trigger] ends_at_boundary(
                    v@,
                    size,
                    nc,
                    i,
                ) by {
                    lemma_take_push(old_chunks, piece@, i);
                    if i < old_chunks.len() {
                        assert(nc[i] == old_chunks[i]);
                        assert(ends_at_boundary(v@, size, old_chunks, i));
                    } else {
                        assert(nc.take(i) == old_chunks);
                        assert(may_end_chunk(v@, size, last_split as int, k as int));
                    }
                }
            }
            last_split = k + 1;
            current_count = 0;
        }
        k = k + 1;
    }
    if last_split < n {
        let ghost old_chunks = views(chunks@);
        let piece = string_of_range(&v, last_split, n);
        chunks.push(piece);
        proof {
            let nc = views(chunks@);
            assert(nc =~= old_chunks.push(piece@));
            lemma_concat_push(old_chunks, piece@);
            assert(v@.take(last_split as int) + v@.subrange(last_split as int, n as int) =~= v@);
            assert forall|i: int| 0 <= i < nc.len() implies #[trigger] nc[i].len() > 0 by {
                if i < old_chunks.len() {
                    assert(nc[i] == old_chunks[i]);
                }
            }
            lemma_no_early_end_new(v@, size, old_chunks, piece@);
            assert forall|i: int| 0 <= i < nc.len() implies #[trigger] no_early_end(
                v@,
                size,
                nc,
                i,
            ) by {
                if i < old_chunks.len() {
                    lemma_no_early_end_push(v@, size, old_chunks, piece@, i);
                }
            }
            assert forall|i: int| 0 <= i < nc.len() - 1 implies #[trigger] ends_at_boundary(
                v@,
                size,
                nc,
                i,
            ) by {
                lemma_take_push(old_chunks, piece@, i);
                assert(nc[i] == old_chunks[i]);
                assert(ends_at_boundary(v@, size, old_chunks, i));
            }
        }
    } else {
        assert(v@.take(n as int) =~= v@);
    }
    chunks
}


// ---------------------------------------------------------------------------
// Easing tables
// ---------------------------------------------------------------------------

/// A table of names and the numbers that OBS's move transition plugin uses
/// for them, seen as plain text.
pub open spec fn table_view(t: Seq<(&'static str, i32)>) -> Seq<(Seq<char>, i32)> {
    t.map_values(|p: (&'static str, i32)| (p.0@, p.1))
}

/// The number that `key` has in `table`, from its first entry with that name.
pub open spec fn table_lookup(table: Seq<(Seq<char>, i32)>, key: Seq<char>) -> Option<i32>
    decreases table.len(),
{
    if table.len() == 0 {
        None
    } else if table[0].0 == key {
        Some(table[0].1)
    } else {
        table_lookup(table.drop_first(), key)
    }
}

/// The easing types by name.
pub open spec fn easing_type_table() -> Seq<(Seq<char>, i32)> {
    seq![
        ("nothing"@, 0i32),
        ("ease-in"@, 1i32),
        ("ease-out"@, 2i32),
        ("ease-in-and-out"@, 3i32),
    ]
}

/// The easing functions by name.
pub open spec fn easing_function_table() -> Seq<(Seq<char>, i32)> {
    seq![
        ("quadratic"@, 1i32),
        ("cubic"@, 2i32),
        ("quartic"@, 3i32),
        ("quintic"@, 4i32),
        ("sine"@, 5i32),
        ("circular"@, 6i32),
        ("exponential"@, 7i32),
        ("elastic"@, 8i32),
        ("bounce"@, 9i32),
        ("back"@, 10i32),
    ]
}

/// The easing function names and their numbers.
pub fn easing_function_match() -> (table: Vec<(&'static str, i32)>)
    ensures
        table_view(table@) == easing_function_table(),
{
    let mut t: Vec<(&'static str, i32)> = Vec::new();
    t.push(("quadratic", 1));
    t.push(("cubic", 2));
    t.push(("quartic", 3));
    t.push(("quintic", 4));
    t.push(("sine", 5));
    t.push(("circular", 6));
    t.push(("exponential", 7));
    t.push(("elastic", 8));
    t.push(("bounce", 9));
    t.push(("back", 10));
    assert(table_view(t@) =~= easing_function_table());
    t
}

/// The easing type names and their numbers.
pub fn easing_match() -> (table: Vec<(&'static str, i32)>)
    ensures
        table_view(table@) == easing_type_table(),
{
    let mut t: Vec<(&'static str, i32)> = Vec::new();
    t.push(("nothing", 0));
    t.push(("ease-in", 1));
    t.push(("ease-out", 2));
    t.push(("ease-in-and-out", 3));
    assert(table_view(t@) =~= easing_type_table());
    t
}

/// The number of `key` in `table`, if the table names it.
pub fn lookup(table: &Vec<(&'static str, i32)>, key: &str) -> (r: Option<i32>)
    ensures
        r == table_lookup(table_view(table@), key@),
{
    let ghost tv = table_view(table@);
    let mut i: usize = 0;
    assert(tv.skip(0) =~= tv);
    while i < table.len()
        invariant
            i <= table@.len(),
            tv == table_view(table@),
            table_lookup(tv, key@) == table_lookup(tv.skip(i as int), key@),
        decreases table@.len() - i,
    {
        let ghost rest = tv.skip(i as int);
        assert(rest[0] == tv[i as int]);
        assert(rest.drop_first() =~= tv.skip(i + 1));
        if str_eq(table[i].0, key) {
            return Some(table[i].1);
        }
        i = i + 1;
    }
    assert(tv.skip(i as int) =~= Seq::<(Seq<char>, i32)>::empty());
    None
}

/// The (easing type, easing function) numbers that name the move
/// transition's easing: a name missing from its table counts as 1.
pub open spec fn easing_indices_spec(easing_type: Seq<char>, easing_function: Seq<char>) -> (
    i32,
    i32,
) {
    (
        match table_lookup(easing_type_table(), easing_type) {
            Some(v) => v,
            None => 1i32,
        },
        match table_lookup(easing_function_table(), easing_function) {
            Some(v) => v,
            None => 1i32,
        },
    )
}

/// The move transition's numbers for an easing type and an easing function
/// named in chat; unknown names count as 1 (ease-in, quadratic).
pub fn find_easing_indicies(easing_type: String, easing_function: String) -> (r: (i32, i32))
    ensures
        r == easing_indices_spec(easing_type@, easing_function@),
{
    let easing_types = easing_match();
    let easing_functions = easing_function_match();
    let t = match lookup(&easing_types, easing_type.as_str()) {
        Some(v) => v,
        None => 1,
    };
    let f = match lookup(&easing_functions, easing_function.as_str()) {
        Some(v) => v,
        None => 1,
    };
    (t, f)
}

// ---------------------------------------------------------------------------
// Move requests read from chat
// ---------------------------------------------------------------------------

/// What the word at one position of a chat command stands for, with the
/// value used when the message has no word there. Positions, rotations and
/// angles are kept as their decimal text; the program that moves the source
/// reads them as numbers.
pub enum ChatArgPosition {
    Source(String),
    X(String),
    Y(String),
    RotationZ(String),
    Duration(u64),
    EasingType(String),
    EasingFunction(String),
}

/// What the word at one position of a `!wide` command stands for.
pub enum WideArgPosition {
    Source(String),
    X(String),
    Duration(u64),
}

/// A number given in chat, before it is read: the chatter's word at its
/// position, if the message reaches that far, and the decimal text of the
/// position's own value. The program reads the word as a number and falls
/// back to `default` when there is no word or the word is no number.
pub struct NumberWord {
    pub word: Option<String>,
    pub default: String,
}

/// The plain-text contents of a number given in chat.
pub struct NumberWordView {
    pub word: Option<Seq<char>>,
    pub default: Seq<char>,
}

impl View for NumberWord {
    type V = NumberWordView;

    open spec fn view(&self) -> NumberWordView {
        NumberWordView {
            word: match &self.word {
                Some(w) => Some(w@),
                None => None,
            },
            default: self.default@,
        }
    }
}

/// The number at position `i` of a message, with `default` beside it.
pub open spec fn number_word(words: Seq<Seq<char>>, i: int, default: Seq<char>) -> NumberWordView {
    NumberWordView { word: word_at_spec(words, i), default }
}

/// A number that no argument position sets: no word, and zero.
pub open spec fn zero_number() -> NumberWordView {
    NumberWordView { word: None, default: seq!['0'] }
}

/// The number at position `i` of `words`, with `d` as its fallback.
pub(crate) fn number_word_at(words: &Vec<String>, i: usize, d: &String) -> (r: NumberWord)
    ensures
        r@ == number_word(views(words@), i as int, d@),
{
    let word = if i < words.len() {
        Some(clone_string(&words[i]))
    } else {
        None
    };
    NumberWord { word, default: clone_string(d) }
}

/// The number that no argument position sets.
pub(crate) fn zero_number_word() -> (r: NumberWord)
    ensures
        r@ == zero_number(),
{
    let r = NumberWord { word: None, default: owned("0") };
    proof {
        reveal_strlit("0");
        assert(r@.default =~= seq!['0']);
    }
    r
}

/// A request to move, scale or spin a source, read from chat.
pub struct ChatMoveSourceRequest {
    pub source: String,
    pub scene: String,
    /// The horizontal position.
    pub x: NumberWord,
    /// The vertical position.
    pub y: NumberWord,
    /// The rotation around the z axis.
    pub rotation_z: NumberWord,
    pub duration: u64,
    pub easing_type: String,
    pub easing_function: String,
    pub easing_type_index: i32,
    pub easing_function_index: i32,
}

/// The plain-text contents of a move request.
pub struct MoveRequestView {
    pub source: Seq<char>,
    pub scene: Seq<char>,
    pub x: NumberWordView,
    pub y: NumberWordView,
    pub rotation_z: NumberWordView,
    pub duration: u64,
    pub easing_type: Seq<char>,
    pub easing_function: Seq<char>,
    pub easing_type_index: i32,
    pub easing_function_index: i32,
}

impl View for ChatMoveSourceRequest {
    type V = MoveRequestView;

    open spec fn view(&self) -> MoveRequestView {
        MoveRequestView {
            source: self.source@,
            scene: self.scene@,
            x: self.x@,
            y: self.y@,
            rotation_z: self.rotation_z@,
            duration: self.duration,
            easing_type: self.easing_type@,
            easing_function: self.easing_function@,
            easing_type_index: self.easing_type_index,
            easing_function_index: self.easing_function_index,
        }
    }
}

/// The word at position `i`, or `default` when the message is shorter.
pub open spec fn word_or(words: Seq<Seq<char>>, i: int, default: Seq<char>) -> Seq<char> {
    if 0 <= i < words.len() {
        words[i]
    } else {
        default
    }
}

/// The duration at position `i`: the word's number when it reads as one,
/// else `default`.
pub open spec fn duration_or(words: Seq<Seq<char>>, i: int, default: u64) -> u64 {
    if 0 <= i < words.len() {
        match parse_u64_spec(words[i]) {
            Some(d) => d,
            None => default,
        }
    } else {
        default
    }
}

/// A request before any argument position is read.
pub open spec fn blank_request() -> MoveRequestView {
    MoveRequestView {
        source: Seq::empty(),
        scene: Seq::empty(),
        x: zero_number(),
        y: zero_number(),
        rotation_z: zero_number(),
        duration: 0,
        easing_type: Seq::empty(),
        easing_function: Seq::empty(),
        easing_type_index: 0,
        easing_function_index: 0,
    }
}

/// What an argument position stands for, as plain text.
pub enum ArgView {
    Source(Seq<char>),
    X(Seq<char>),
    Y(Seq<char>),
    RotationX(Seq<char>),
    RotationY(Seq<char>),
    RotationZ(Seq<char>),
    Duration(u64),
    EasingType(Seq<char>),
    EasingFunction(Seq<char>),
}

impl View for ChatArgPosition {
    type V = ArgView;

    open spec fn view(&self) -> ArgView {
        match self {
            ChatArgPosition::Source(d) => ArgView::Source(d@),
            ChatArgPosition::X(d) => ArgView::X(d@),
            ChatArgPosition::Y(d) => ArgView::Y(d@),
            ChatArgPosition::RotationZ(d) => ArgView::RotationZ(d@),
            ChatArgPosition::Duration(d) => ArgView::Duration(*d),
            ChatArgPosition::EasingType(d) => ArgView::EasingType(d@),
            ChatArgPosition::EasingFunction(d) => ArgView::EasingFunction(d@),
        }
    }
}

/// The views of a list of argument positions.
pub open spec fn arg_views(args: Seq<ChatArgPosition>) -> Seq<ArgView> {
    args.map_values(|a: ChatArgPosition| a@)
}

/// The request after reading argument position `i` (rotations around x and
/// y do not concern a move).
pub open spec fn read_position(
    req: MoveRequestView,
    words: Seq<Seq<char>>,
    i: int,
    arg: ArgView,
) -> MoveRequestView {
    match arg {
        ArgView::Source(d) => MoveRequestView { source: word_or(words, i, d), ..req },
        ArgView::X(d) => MoveRequestView { x: number_word(words, i, d), ..req },
        ArgView::Y(d) => MoveRequestView { y: number_word(words, i, d), ..req },
        ArgView::RotationZ(d) => MoveRequestView { rotation_z: number_word(words, i, d), ..req },
        ArgView::Duration(d) => MoveRequestView { duration: duration_or(words, i, d), ..req },
        ArgView::EasingType(d) => MoveRequestView { easing_type: word_or(words, i, d), ..req },
        ArgView::EasingFunction(d) => MoveRequestView {
            easing_function: word_or(words, i, d),
            ..req
        },
        _ => req,
    }
}

/// The request after reading the argument positions in order; a later
/// position of the same kind overrides an earlier one.
pub open spec fn read_positions(words: Seq<Seq<char>>, args: Seq<ArgView>) -> MoveRequestView
    decreases args.len(),
{
    if args.len() == 0 {
        blank_request()
    } else {
        read_position(
            read_positions(words, args.drop_last()),
            words,
            args.len() - 1,
            args.last(),
        )
    }
}

/// The scene a source lives in: the camera source "begin" is in "Begin",
/// everything else in "Memes".
pub open spec fn scene_of_source(source: Seq<char>) -> Seq<char> {
    if source == "begin"@ {
        "Begin"@
    } else {
        "Memes"@
    }
}

/// The move request that a chat message asks for.
pub open spec fn move_request_spec(words: Seq<Seq<char>>, args: Seq<ArgView>) -> MoveRequestView {
    let r = read_positions(words, args);
    let (t, f) = easing_indices_spec(r.easing_type, r.easing_function);
    MoveRequestView {
        scene: scene_of_source(r.source),
        easing_type_index: t,
        easing_function_index: f,
        ..r
    }
}

fn clone_string(s: &String) -> (r: String)
    ensures
        r@ == s@,
{
    owned(s.as_str())
}

/// Reads a move request from the words of a chat message: the word at each
/// position of `arg_positions` sets the field that the position names (the
/// position's own value when the message is shorter, and for a duration
/// also when the word is no number; a position or rotation keeps the word
/// beside the position's value, see `NumberWord`); then the easing names
/// are looked up and the scene is chosen from the source.
pub fn build_chat_move_source_request(
    splitmsg: Vec<String>,
    arg_positions: Vec<ChatArgPosition>,
) -> (req: ChatMoveSourceRequest)
    ensures
        req@ == move_request_spec(views(splitmsg@), arg_views(arg_positions@)),
{
    let ghost words = views(splitmsg@);
    let mut req = ChatMoveSourceRequest {
        source: String::new(),
        scene: String::new(),
        x: zero_number_word(),
        y: zero_number_word(),
        rotation_z: zero_number_word(),
        duration: 0,
        easing_type: String::new(),
        easing_function: String::new(),
        easing_type_index: 0,
        easing_function_index: 0,
    };
    assert(req@ == blank_request());
    let mut index: usize = 0;
    while index < arg_positions.len()
        invariant
            index <= arg_positions@.len(),
            words == views(splitmsg@),
            req@ == read_positions(words, arg_views(arg_positions@.take(index as int))),
        decreases arg_positions@.len() - index,
    {
        let ghost before = req@;
        let ghost pre = arg_views(arg_positions@.take(index + 1));
        assert(pre.drop_last() =~= arg_views(arg_positions@.take(index as int)));
        assert(pre.last() == arg_positions@[index as int]@);
        let has_word = index < splitmsg.len();
        match &arg_positions[index] {
            ChatArgPosition::Source(d) => {
                req.source = if has_word { clone_string(&splitmsg[index]) } else { clone_string(d) };
            },
            ChatArgPosition::X(d) => {
                req.x = number_word_at(&splitmsg, index, d);
            },
            ChatArgPosition::Y(d) => {
                req.y = number_word_at(&splitmsg, index, d);
            },
            ChatArgPosition::RotationZ(d) => {
                req.rotation_z = number_word_at(&splitmsg, index, d);
            },
            ChatArgPosition::Duration(d) => {
                req.duration = if has_word {
                    match parse_u64(splitmsg[index].as_str()) {
                        Some(v) => v,
                        None => *d,
                    }
                } else {
                    *d
                };
            },
            ChatArgPosition::EasingType(d) => {
                req.easing_type = if has_word {
                    clone_string(&splitmsg[index])
                } else {
                    clone_string(d)
                };
            },
            ChatArgPosition::EasingFunction(d) => {
                req.easing_function = if has_word {
                    clone_string(&splitmsg[index])
                } else {
                    clone_string(d)
                };
            },
        }
        assert(req@ == read_position(before, words, index as int, arg_positions@[index as int]@));
        index = index + 1;
    }
    assert(arg_positions@.take(arg_positions@.len() as int) =~= arg_positions@);
    let (t, f) = find_easing_indicies(
        clone_string(&req.easing_type),
        clone_string(&req.easing_function),
    );
    req.easing_type_index = t;
    req.easing_function_index = f;
    req.scene = if str_eq(req.source.as_str(), "begin") {
        owned("Begin")
    } else {
        owned("Memes")
    };
    req
}

/// What a `!wide` argument position stands for, as plain text.
pub enum WideArgView {
    Source(Seq<char>),
    X(Seq<char>),
    Duration(u64),
}

impl View for WideArgPosition {
    type V = WideArgView;

    open spec fn view(&self) -> WideArgView {
        match self {
            WideArgPosition::Source(d) => WideArgView::Source(d@),
            WideArgPosition::X(d) => WideArgView::X(d@),
            WideArgPosition::Duration(d) => WideArgView::Duration(*d),
        }
    }
}

/// The views of a list of `!wide` argument positions.
pub open spec fn wide_arg_views(args: Seq<WideArgPosition>) -> Seq<WideArgView> {
    args.map_values(|a: WideArgPosition| a@)
}

/// A `!wide` request read from chat.
pub struct WideRequest {
    pub source: String,
    pub scene: String,
    /// The word given for the width, if the message has one; the program
    /// reads it as a number (100 when it is no number), and a request
    /// without the word has width 0.
    pub x: Option<String>,
    pub duration: u64,
}

/// The plain-text contents of a `!wide` request.
pub struct WideRequestView {
    pub source: Seq<char>,
    pub scene: Seq<char>,
    pub x: Option<Seq<char>>,
    pub duration: u64,
}

impl View for WideRequest {
    type V = WideRequestView;

    open spec fn view(&self) -> WideRequestView {
        WideRequestView {
            source: self.source@,
            scene: self.scene@,
            x: match &self.x {
                Some(t) => Some(t@),
                None => None,
            },
            duration: self.duration,
        }
    }
}

/// The `!wide` request after reading argument position `i`: a width or a
/// duration is only set by a word that is there (a duration word that is no
/// number sets 3000).
pub open spec fn read_wide_position(
    req: WideRequestView,
    words: Seq<Seq<char>>,
    i: int,
    arg: WideArgView,
) -> WideRequestView {
    match arg {
        WideArgView::Source(d) => WideRequestView { source: word_or(words, i, d), ..req },
        WideArgView::X(_) => if 0 <= i < words.len() {
            WideRequestView { x: Some(words[i]), ..req }
        } else {
            req
        },
        WideArgView::Duration(_) => if 0 <= i < words.len() {
            WideRequestView { duration: duration_or(words, i, 3000), ..req }
        } else {
            req
        },
    }
}

/// The `!wide` request after reading the argument positions in order.
pub open spec fn read_wide_positions(words: Seq<Seq<char>>, args: Seq<WideArgView>) -> WideRequestView
    decreases args.len(),
{
    if args.len() == 0 {
        WideRequestView { source: Seq::empty(), scene: Seq::empty(), x: None, duration: 0 }
    } else {
        read_wide_position(
            read_wide_positions(words, args.drop_last()),
            words,
            args.len() - 1,
            args.last(),
        )
    }
}

/// Reads a `!wide` request from the words of a chat message.
pub fn build_wide_request(splitmsg: Vec<String>, arg_positions: Vec<WideArgPosition>) -> (r: Result<
    WideRequest,
    String,
>)
    ensures
        r matches Ok(req) && req@ == read_wide_positions(
            views(splitmsg@),
            wide_arg_views(arg_positions@),
        ),
{
    let ghost words = views(splitmsg@);
    let mut req = WideRequest { source: String::new(), scene: String::new(), x: None, duration: 0 };
    let mut index: usize = 0;
    while index < arg_positions.len()
        invariant
            index <= arg_positions@.len(),
            words == views(splitmsg@),
            req@ == read_wide_positions(words, wide_arg_views(arg_positions@.take(index as int))),
        decreases arg_positions@.len() - index,
    {
        let ghost before = req@;
        let ghost pre = wide_arg_views(arg_positions@.take(index + 1));
        assert(pre.drop_last() =~= wide_arg_views(arg_positions@.take(index as int)));
        assert(pre.last() == arg_positions@[index as int]@);
        let has_word = index < splitmsg.len();
        match &arg_positions[index] {
            WideArgPosition::Source(d) => {
                req.source = if has_word { clone_string(&splitmsg[index]) } else { clone_string(d) };
            },
            WideArgPosition::X(_) => {
                if has_word {
                    req.x = Some(clone_string(&splitmsg[index]));
                }
            },
            WideArgPosition::Duration(_) => {
                if has_word {
                    req.duration = match parse_u64(splitmsg[index].as_str()) {
                        Some(v) => v,
                        None => 3000,
                    };
                }
            },
        }
        assert(req@ == read_wide_position(
            before,
            words,
            index as int,
            arg_positions@[index as int]@,
        ));
        index = index + 1;
    }
    assert(arg_positions@.take(arg_positions@.len() as int) =~= arg_positions@);
    Ok(req)
}


// ---------------------------------------------------------------------------
// Reward commands
// ---------------------------------------------------------------------------

/// What a chat message asks of the reward commands.
pub enum RewardCommand {
    /// Put one AI scene's reward, chosen at random, on sale.
    FlashSale,
    /// Create the channel rewards for the AI scenes.
    BootstrapRewards,
    /// Nothing to do.
    Nothing,
}

/// The reward command that `command`, sent by `user_name`, asks for: only
/// the streamer's accounts may run `!flash_sale` and `!bootstrap_rewards`.
pub open spec fn reward_command_spec(command: Seq<char>, user_name: Seq<char>) -> RewardCommand {
    if command == "!flash_sale"@ && is_streamer(user_name) {
        RewardCommand::FlashSale
    } else if command == "!bootstrap_rewards"@ && is_streamer(user_name) {
        RewardCommand::BootstrapRewards
    } else {
        RewardCommand::Nothing
    }
}

/// Decides what the first word of a chat message asks of the reward commands.
pub fn handle_obs_commands(splitmsg: &Vec<String>, user_name: &str) -> (r: RewardCommand)
    requires
        splitmsg@.len() > 0,
    ensures
        r == reward_command_spec(splitmsg@[0]@, user_name@),
{
    let command = splitmsg[0].as_str();
    let streamer = is_streamer_name(user_name);
    if str_eq(command, "!flash_sale") && streamer {
        RewardCommand::FlashSale
    } else if str_eq(command, "!bootstrap_rewards") && streamer {
        RewardCommand::BootstrapRewards
    } else {
        RewardCommand::Nothing
    }
}

/// The cost a reward has during a flash sale.
pub open spec fn flash_cost() -> u64 {
    100
}

/// The chat announcement of a flash sale on the reward `title`.
pub open spec fn flash_sale_message_spec(title: Seq<char>, cost: u64) -> Seq<char> {
    "Flash Sale! "@ + title + " - New Low Price! "@ + decimal_spec(cost as nat)
}

/// Announces a flash sale on the reward `title` at `cost`.
pub fn flash_sale_message(title: &str, cost: u64) -> (m: String)
    ensures
        m@ == flash_sale_message_spec(title@, cost),
{
    let price = decimal(cost);
    let head = concat3("Flash Sale! ", title, " - New Low Price! ");
    concat(head.as_str(), price.as_str())
}

/// Picks one of the AI scenes' reward titles at random for a flash sale.
/// The scene list must not be empty (choosing from none fails).
pub fn pick_flash_sale_title(titles: &Vec<String>) -> (t: String)
    requires
        titles@.len() > 0,
    ensures
        exists|i: int| 0 <= i < titles@.len() && t@ == #[trigger] titles@[i]@,
{
    let i = random_below(titles.len());
    owned(titles[i].as_str())
}

/// The one AI scene whose reward the bootstrap creates.
pub open spec fn bootstrapped_title() -> Seq<char> {
    "Ask Melkey a Question"@
}

/// The rewards that `!bootstrap_rewards` creates, from the AI scenes' reward
/// titles and costs: the bootstrapped scene, at ten times its cost.
pub open spec fn bootstrap_rewards_spec(scenes: Seq<(Seq<char>, i32)>) -> Seq<(Seq<char>, int)>
    decreases scenes.len(),
{
    if scenes.len() == 0 {
        Seq::empty()
    } else {
        let rest = bootstrap_rewards_spec(scenes.drop_last());
        let (title, cost) = scenes.last();
        if title == bootstrapped_title() {
            rest.push((title, cost * 10))
        } else {
            rest
        }
    }
}

/// The plain-text view of a list of (title, cost) pairs.
pub open spec fn scenes_view(scenes: Seq<(String, i32)>) -> Seq<(Seq<char>, i32)> {
    scenes.map_values(|p: (String, i32)| (p.0@, p.1))
}

/// The plain-text view of a list of rewards to create.
pub open spec fn rewards_view(rewards: Seq<(String, i32)>) -> Seq<(Seq<char>, int)> {
    rewards.map_values(|p: (String, i32)| (p.0@, p.1 as int))
}

/// The rewards to create for `!bootstrap_rewards`: the bootstrapped scene's
/// reward at ten times the scene's cost. Its tenfold cost must fit in an
/// `i32` (the multiplication overflows otherwise).
pub fn bootstrap_rewards(scenes: &Vec<(String, i32)>) -> (rewards: Vec<(String, i32)>)
    requires
        forall|i: int|
            0 <= i < scenes@.len() && scenes@[i].0@ == bootstrapped_title() ==> i32::MIN <= 
                #[trigger] scenes@[i].1 * 10 <= i32::MAX,
    ensures
        rewards_view(rewards@) == bootstrap_rewards_spec(scenes_view(scenes@)),
{
    let mut rewards: Vec<(String, i32)> = Vec::new();
    let mut i: usize = 0;
    assert(scenes_view(scenes@.take(0)) =~= Seq::<(Seq<char>, i32)>::empty());
    assert(rewards_view(rewards@) =~= Seq::<(Seq<char>, int)>::empty());
    while i < scenes.len()
        invariant
            i <= scenes@.len(),
            forall|j: int|
                0 <= j < scenes@.len() && scenes@[j].0@ == bootstrapped_title() ==> i32::MIN
                    <= #[trigger] scenes@[j].1 * 10 <= i32::MAX,
            rewards_view(rewards@) == bootstrap_rewards_spec(scenes_view(scenes@.take(i as int))),
        decreases scenes@.len() - i,
    {
        let ghost pre = scenes_view(scenes@.take(i + 1));
        assert(pre.drop_last() =~= scenes_view(scenes@.take(i as int)));
        assert(pre.last() == (scenes@[i as int].0@, scenes@[i as int].1));
        let ghost old_rewards = rewards@;
        if str_eq(scenes[i].0.as_str(), "Ask Melkey a Question") {
            let cost = scenes[i].1 * 10;
            rewards.push((owned(scenes[i].0.as_str()), cost));
            assert(rewards_view(rewards@) =~= rewards_view(old_rewards).push(
                (scenes@[i as int].0@, cost as int),
            ));
        }
        i = i + 1;
    }
    assert(scenes@.take(scenes@.len() as int) =~= scenes@);
    rewards
}

/// Every number of a table within `lo..=hi` makes every lookup in it land
/// there too.
proof fn lemma_lookup_in_range(table: Seq<(Seq<char>, i32)>, key: Seq<char>, lo: int, hi: int)
    requires
        forall|i: int| 0 <= i < table.len() ==> lo <= #[trigger] table[i].1 <= hi,
    ensures
        table_lookup(table, key) matches Some(v) ==> lo <= v <= hi,
    decreases table.len(),
{
    if table.len() > 0 {
        let r = table.drop_first();
        assert forall|i: int| 0 <= i < r.len() implies lo <= #[trigger] r[i].1 <= hi by {
            assert(r[i] == table[i + 1]);
        }
        lemma_lookup_in_range(r, key, lo, hi);
        assert(lo <= table[0].1 <= hi);
    }
}

/// The easing numbers sent to the plugin are always ones it knows: an
/// easing type in 0..=3 and an easing function in 1..=10, whatever names
/// the chatter wrote.
pub proof fn easing_indices_are_plugin_codes(easing_type: Seq<char>, easing_function: Seq<char>)
    ensures
        0 <= easing_indices_spec(easing_type, easing_function).0 <= 3,
        1 <= easing_indices_spec(easing_type, easing_function).1 <= 10,
{
    lemma_lookup_in_range(easing_type_table(), easing_type, 0, 3);
    lemma_lookup_in_range(easing_function_table(), easing_function, 1, 10);
}


/// The entry `i` of a table is found by its name when no earlier entry has
/// that name.
proof fn lemma_lookup_distinct(t: Seq<(Seq<char>, i32)>, i: int)
    requires
        0 <= i < t.len(),
        forall|j: int| 0 <= j < i ==> #[trigger] t[j].0 != t[i].0,
    ensures
        table_lookup(t, t[i].0) == Some(t[i].1),
    decreases t.len(),
{
    if i > 0 {
        assert(t[0].0 != t[i].0);
        let r = t.drop_first();
        assert(r[i - 1] == t[i]);
        assert forall|j: int| 0 <= j < i - 1 implies #[trigger] r[j].0 != r[i - 1].0 by {
            assert(r[j] == t[j + 1]);
        }
        lemma_lookup_distinct(r, i - 1);
    }
}

/// A name that no entry of a table has is not found.
proof fn lemma_lookup_absent(t: Seq<(Seq<char>, i32)>, key: Seq<char>)
    requires
        forall|j: int| 0 <= j < t.len() ==> #[trigger] t[j].0 != key,
    ensures
        table_lookup(t, key) is None,
    decreases t.len(),
{
    if t.len() > 0 {
        let r = t.drop_first();
        assert forall|j: int| 0 <= j < r.len() implies #[trigger] r[j].0 != key by {
            assert(r[j] == t[j + 1]);
        }
        lemma_lookup_absent(r, key);
    }
}

/// The move transition plugin's codes for easing names: the easing types
/// `nothing`, `ease-in`, `ease-out` and `ease-in-and-out` are 0 to 3, and
/// any other type name is 1; the easing functions `quadratic`, `cubic`,
/// `quartic`, `quintic`, `sine`, `circular`, `exponential`, `elastic`,
/// `bounce` and `back` are 1 to 10, and any other function name is 1.
pub proof fn easing_names_have_their_codes(easing_type: Seq<char>, easing_function: Seq<char>)
    ensures
        easing_type == "nothing"@ ==> easing_indices_spec(easing_type, easing_function).0 == 0,
        easing_type == "ease-in"@ ==> easing_indices_spec(easing_type, easing_function).0 == 1,
        easing_type == "ease-out"@ ==> easing_indices_spec(easing_type, easing_function).0 == 2,
        easing_type == "ease-in-and-out"@ ==> easing_indices_spec(easing_type, easing_function).0
            == 3,
        easing_type != "nothing"@ && easing_type != "ease-in"@ && easing_type != "ease-out"@
            && easing_type != "ease-in-and-out"@ ==> easing_indices_spec(
            easing_type,
            easing_function,
        ).0 == 1,
        easing_function == "quadratic"@ ==> easing_indices_spec(easing_type, easing_function).1
            == 1,
        easing_function == "cubic"@ ==> easing_indices_spec(easing_type, easing_function).1 == 2,
        easing_function == "quartic"@ ==> easing_indices_spec(easing_type, easing_function).1 == 3,
        easing_function == "quintic"@ ==> easing_indices_spec(easing_type, easing_function).1 == 4,
        easing_function == "sine"@ ==> easing_indices_spec(easing_type, easing_function).1 == 5,
        easing_function == "circular"@ ==> easing_indices_spec(easing_type, easing_function).1
            == 6,
        easing_function == "exponential"@ ==> easing_indices_spec(easing_type, easing_function).1
            == 7,
        easing_function == "elastic"@ ==> easing_indices_spec(easing_type, easing_function).1 == 8,
        easing_function == "bounce"@ ==> easing_indices_spec(easing_type, easing_function).1 == 9,
        easing_function == "back"@ ==> easing_indices_spec(easing_type, easing_function).1 == 10,
        easing_function != "quadratic"@ && easing_function != "cubic"@ && easing_function
            != "quartic"@ && easing_function != "quintic"@ && easing_function != "sine"@
            && easing_function != "circular"@ && easing_function != "exponential"@
            && easing_function != "elastic"@ && easing_function != "bounce"@ && easing_function
            != "back"@ ==> easing_indices_spec(easing_type, easing_function).1 == 1,
{
    reveal_strlit("nothing");
    reveal_strlit("ease-in");
    reveal_strlit("ease-out");
    reveal_strlit("ease-in-and-out");
    reveal_strlit("quadratic");
    reveal_strlit("cubic");
    reveal_strlit("quartic");
    reveal_strlit("quintic");
    reveal_strlit("sine");
    reveal_strlit("circular");
    reveal_strlit("exponential");
    reveal_strlit("elastic");
    reveal_strlit("bounce");
    reveal_strlit("back");
    let tt = easing_type_table();
    let ft = easing_function_table();
    assert forall|i: int, j: int| #![trigger tt[i], tt[j]] 0 <= j < i < tt.len() implies tt[j].0 != tt[i].0 by {
        assert(tt[j].0.len() != tt[i].0.len() || tt[j].0[0] != tt[i].0[0] || tt[j].0[5]
            != tt[i].0[5]);
    }
    assert forall|i: int, j: int| #![trigger ft[i], ft[j]] 0 <= j < i < ft.len() implies ft[j].0 != ft[i].0 by {
        assert(ft[j].0.len() != ft[i].0.len() || ft[j].0[0] != ft[i].0[0] || ft[j].0[1]
            != ft[i].0[1] || ft[j].0[3] != ft[i].0[3] || ft[j].0[4] != ft[i].0[4]);
    }
    if easing_type == "nothing"@ {
        lemma_lookup_distinct(tt, 0);
    } else if easing_type == "ease-in"@ {
        lemma_lookup_distinct(tt, 1);
    } else if easing_type == "ease-out"@ {
        lemma_lookup_distinct(tt, 2);
    } else if easing_type == "ease-in-and-out"@ {
        lemma_lookup_distinct(tt, 3);
    } else {
        lemma_lookup_absent(tt, easing_type);
    }
    if easing_function == "quadratic"@ {
        lemma_lookup_distinct(ft, 0);
    } else if easing_function == "cubic"@ {
        lemma_lookup_distinct(ft, 1);
    } else if easing_function == "quartic"@ {
        lemma_lookup_distinct(ft, 2);
    } else if easing_function == "quintic"@ {
        lemma_lookup_distinct(ft, 3);
    } else if easing_function == "sine"@ {
        lemma_lookup_distinct(ft, 4);
    } else if easing_function == "circular"@ {
        lemma_lookup_distinct(ft, 5);
    } else if easing_function == "exponential"@ {
        lemma_lookup_distinct(ft, 6);
    } else if easing_function == "elastic"@ {
        lemma_lookup_distinct(ft, 7);
    } else if easing_function == "bounce"@ {
        lemma_lookup_distinct(ft, 8);
    } else if easing_function == "back"@ {
        lemma_lookup_distinct(ft, 9);
    } else {
        lemma_lookup_absent(ft, easing_function);
    }
}


/// Only the streamer runs the reward commands: `!flash_sale` starts a
/// flash sale and `!bootstrap_rewards` creates the rewards; a flash sale
/// sets the price to 100 and announces it with the reward's title.
pub proof fn reward_commands_do_their_action(command: Seq<char>, user_name: Seq<char>, title: Seq<char>)
    ensures
        command == "!flash_sale"@ && is_streamer(user_name) ==> reward_command_spec(command, user_name)
            == RewardCommand::FlashSale,
        command == "!bootstrap_rewards"@ && is_streamer(user_name) ==> reward_command_spec(
            command,
            user_name,
        ) == RewardCommand::BootstrapRewards,
        !is_streamer(user_name) || (command != "!flash_sale"@ && command != "!bootstrap_rewards"@)
            ==> reward_command_spec(command, user_name) == RewardCommand::Nothing,
        flash_cost() == 100,
        flash_sale_message_spec(title, flash_cost()) == "Flash Sale! "@ + title
            + " - New Low Price! "@ + seq!['1', '0', '0'],
{
    reveal_strlit("!flash_sale");
    reveal_strlit("!bootstrap_rewards");
    assert("!flash_sale"@.len() == 11);
    assert("!bootstrap_rewards"@.len() == 18);
    reveal_with_fuel(decimal_spec, 3);
    assert(decimal_spec(1) =~= seq!['1']);
    assert(decimal_spec(10) =~= seq!['1', '0']);
    assert(decimal_spec(100) =~= seq!['1', '0', '0']);
}

/// `!bootstrap_rewards` creates a reward only for the scene "Ask Melkey a
/// Question", at ten times that scene's cost, and one for each time the
/// scene is listed: every reward it creates is such a scene's, and with no
/// such scene it creates none.
pub proof fn bootstrap_creates_melkey_rewards(scenes: Seq<(Seq<char>, i32)>)
    ensures
        forall|k: int|
            0 <= k < bootstrap_rewards_spec(scenes).len() ==> (#[trigger] bootstrap_rewards_spec(
                scenes,
            )[k]).0 == "Ask Melkey a Question"@ && exists|i: int|
                0 <= i < scenes.len() && scenes[i].0 == "Ask Melkey a Question"@
                    && bootstrap_rewards_spec(scenes)[k].1 == #[trigger] scenes[i].1 * 10,
        (forall|i: int| 0 <= i < scenes.len() ==> (#[trigger] scenes[i]).0 != "Ask Melkey a Question"@)
            ==> bootstrap_rewards_spec(scenes).len() == 0,
        bootstrap_rewards_spec(scenes).len() <= scenes.len(),
    decreases scenes.len(),
{
    if scenes.len() > 0 {
        let init = scenes.drop_last();
        bootstrap_creates_melkey_rewards(init);
        let rest = bootstrap_rewards_spec(init);
        let out = bootstrap_rewards_spec(scenes);
        let n = scenes.len() - 1;
        assert(scenes.last() == scenes[n]);
        assert forall|k: int| 0 <= k < out.len() implies (#[trigger] out[k]).0
            == "Ask Melkey a Question"@ && exists|i: int|
            0 <= i < scenes.len() && scenes[i].0 == "Ask Melkey a Question"@ && out[k].1
                == #[trigger] scenes[i].1 * 10 by {
            if k < rest.len() {
                assert(out[k] == rest[k]);
                let i = choose|i: int|
                    0 <= i < init.len() && init[i].0 == "Ask Melkey a Question"@ && rest[k].1
                        == #[trigger] init[i].1 * 10;
                assert(init[i] == scenes[i]);
            } else {
                assert(out[k].1 == scenes[n].1 * 10);
            }
        }
        if forall|i: int| 0 <= i < scenes.len() ==> (#[trigger] scenes[i]).0 != "Ask Melkey a Question"@ {
            assert forall|i: int| 0 <= i < init.len() implies (#[trigger] init[i]).0
                != "Ask Melkey a Question"@ by {
                assert(init[i] == scenes[i]);
            }
            assert(scenes[n].0 != "Ask Melkey a Question"@);
        }
    }
}


/// The chunks of a message give back the message, and every chunk but the
/// last holds at least `size` characters and ends with a comma.
pub proof fn chunks_end_at_commas(s: Seq<char>, size: nat, c: Seq<Seq<char>>)
    requires
        chunked(s, size, c),
    ensures
        concat_spec(c) == s,
        forall|i: int| 0 <= i < c.len() - 1 ==> (#[trigger] c[i]).len() >= size && c[i].last() == ',',
{
    assert forall|i: int| 0 <= i < c.len() - 1 implies (#[trigger] c[i]).len() >= size && c[i].last()
        == ',' by {
        assert(ends_at_boundary(s, size, c, i));
        lemma_chunk_in_text(c, i);
        lemma_chunk_in_text(c, i + 1);
        assert(c[i + 1].len() > 0);
        let start = chunk_start(c, i);
        let p = start + c[i].len() - 1;
        assert(s.subrange(start, start + c[i].len())[c[i].len() - 1] == s[p]);
        assert(c[i].last() == s[p]);
        assert(chunk_start(c, i + 1) == start + c[i].len());
    }
}

} // verus!
