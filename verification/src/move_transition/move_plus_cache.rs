//! Moves that remember where a source was: a source's perspective cache
//! keeps the settings its move filter had before each of the last moves.
use crate::text::owned;
use vstd::prelude::*;

verus! {

/// The filters that a move with cache touches, in cache order: the move
/// filter itself, then the cache slots from newest to oldest.
pub open spec fn cache_slots_spec(filter_name: Seq<char>) -> Seq<Seq<char>> {
    seq![
        filter_name,
        "Perspective-Cache-j"@,
        "Perspective-Cache-k"@,
        "Perspective-Cache-l"@,
        "Perspective-Cache-;"@,
    ]
}

/// The filters that a move of `filter_name` with cache touches, in cache
/// order.
pub fn cache_slots(filter_name: &str) -> (r: Vec<String>)
    ensures
        crate::text::views(r@) == cache_slots_spec(filter_name@),
{
    let r = vec![
        owned(filter_name),
        owned("Perspective-Cache-j"),
        owned("Perspective-Cache-k"),
        owned("Perspective-Cache-l"),
        owned("Perspective-Cache-;"),
    ];
    assert(crate::text::views(r@) =~= cache_slots_spec(filter_name@));
    r
}

/// The settings given to a move-values filter: the filter it drives, how
/// it moves (`move_value_type`), what kind of value it sets
/// (`value_type`), and the values themselves, of the caller's own type.
pub struct MoveValuesSettings<V> {
    pub filter: Option<String>,
    pub move_value_type: Option<u32>,
    pub value_type: Option<u32>,
    pub values: V,
}

/// What a move with cache writes: the settings for the move filter, then
/// each cache slot's new settings (slot name and settings) in the order
/// they are written.
pub struct CacheUpdate<V, C> {
    pub new_settings: MoveValuesSettings<V>,
    pub cache_writes: Vec<(String, C)>,
}

/// The cache writes of a move, in the order they are written: the oldest
/// slot first. Slot `k` (counted in cache order, see `cache_slots_spec`)
/// gets what slot `k - 1` held before the move; `current` holds the move
/// filter's and the first three cache slots' settings before the move.
pub open spec fn cache_writes_spec<C>(filter_name: Seq<char>, current: Seq<C>) -> Seq<(Seq<char>, C)> {
    Seq::new(4, |i: int| (cache_slots_spec(filter_name)[4 - i], current[3 - i]))
}

/// The view of a list of cache writes.
pub open spec fn writes_view<C>(writes: Seq<(String, C)>) -> Seq<(Seq<char>, C)> {
    writes.map_values(|w: (String, C)| (w.0@, w.1))
}

/// Plans a move of `filter_name` that keeps a cache of the settings it had:
/// the move filter gets `new_settings` as a move of type 1 of values of
/// type 1, and each earlier setting moves one cache slot further down (the
/// oldest falls out). `current` holds the settings read from the move
/// filter and the first three cache slots, in cache order.
pub fn update_and_trigger_move_values_filter_plus_cache<V, C>(
    filter_name: &str,
    new_settings: MoveValuesSettings<V>,
    current: Vec<C>,
) -> (r: CacheUpdate<V, C>)
    requires
        current@.len() == 4,
    ensures
        r.new_settings.move_value_type == Some(1u32),
        r.new_settings.value_type == Some(1u32),
        crate::text::opt_view(r.new_settings.filter) == crate::text::opt_view(new_settings.filter),
        r.new_settings.values == new_settings.values,
        writes_view(r.cache_writes@) == cache_writes_spec(filter_name@, current@),
{
    let slots = cache_slots(filter_name);
    let ghost names = crate::text::views(slots@);
    assert(names.len() == 5 && slots@.len() == names.len());
    let ghost old_cur = current@;
    let mut cur = current;
    let mut writes: Vec<(String, C)> = Vec::new();
    let mut slot: usize = 4;
    while slot > 0
        invariant
            0 <= slot <= 4,
            names == cache_slots_spec(filter_name@),
            names == crate::text::views(slots@),
            slots@.len() == 5,
            old_cur.len() == 4,
            cur@ == old_cur.take(slot as int),
            writes_view(writes@) == cache_writes_spec(filter_name@, old_cur).take(4 - slot),
        decreases slot,
    {
        let settings = cur.pop().unwrap();
        let name = owned(slots[slot].as_str());
        let ghost before = writes@;
        writes.push((name, settings));
        proof {
            assert(names[slot as int] == slots@[slot as int]@);
            assert(writes_view(writes@) =~= writes_view(before).push((name@, settings)));
            assert(cache_writes_spec(filter_name@, old_cur).take(4 - slot + 1) =~= cache_writes_spec(
                filter_name@,
                old_cur,
            ).take(4 - slot).push(cache_writes_spec(filter_name@, old_cur)[4 - slot]));
            assert(cur@ =~= old_cur.take(slot - 1));
        }
        slot = slot - 1;
    }
    assert(cache_writes_spec(filter_name@, old_cur).take(4) =~= cache_writes_spec(
        filter_name@,
        old_cur,
    ));
    let MoveValuesSettings { filter, values, .. } = new_settings;
    CacheUpdate {
        new_settings: MoveValuesSettings {
            filter,
            move_value_type: Some(1),
            value_type: Some(1),
            values,
        },
        cache_writes: writes,
    }
}

} // verus!
