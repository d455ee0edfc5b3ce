//! Combined OBS effects: showing or hiding a stream character, and moving
//! every source after a leader.
use crate::text::{concat, concat3, str_eq, views};
use vstd::prelude::*;

verus! {

/// The filters that show (or hide) a character: one for the character, one
/// for its text and one for its speech bubble.
pub open spec fn character_filter_names_spec(base_source: Seq<char>, enabled: bool) -> Seq<Seq<char>> {
    let modifier = if enabled {
        "Show"@
    } else {
        "Hide"@
    };
    seq![
        modifier + base_source,
        modifier + base_source + "-text"@,
        modifier + base_source + "-speech_bubble"@,
    ]
}

/// The filters of the Characters scene that show the character
/// `base_source` (or hide it, when `enabled` is false).
pub fn trigger_character_filters(base_source: &str, enabled: bool) -> (r: Vec<String>)
    ensures
        views(r@) == character_filter_names_spec(base_source@, enabled),
{
    let modifier = if enabled {
        "Show"
    } else {
        "Hide"
    };
    let r = vec![
        concat(modifier, base_source),
        concat3(modifier, base_source, "-text"),
        concat3(modifier, base_source, "-speech_bubble"),
    ];
    assert(views(r@) =~= character_filter_names_spec(base_source@, enabled));
    r
}

/// The sources that follow a leader: every source of the scene but the
/// leader, in the scene's order. (The list of sources meant to be left
/// alone is only compared against, and spares none of them.)
pub open spec fn followers_spec(sources: Seq<Seq<char>>, leader: Seq<char>) -> Seq<Seq<char>>
    decreases sources.len(),
{
    if sources.len() == 0 {
        Seq::empty()
    } else {
        let rest = followers_spec(sources.drop_last(), leader);
        if sources.last() != leader {
            rest.push(sources.last())
        } else {
            rest
        }
    }
}

/// The move-source filter that moves a follower.
pub open spec fn follow_filter_spec(source: Seq<char>) -> Seq<char> {
    "Move_Source_"@ + source
}

/// The followers of `leader` among the scene's sources, each with the
/// filter that moves it.
pub fn follow(sources: &Vec<String>, leader: &str) -> (r: Vec<(String, String)>)
    ensures
        r@.map_values(|p: (String, String)| p.0@) == followers_spec(views(sources@), leader@),
        forall|i: int| 0 <= i < r@.len() ==> (#[trigger] r@[i]).1@ == follow_filter_spec(r@[i].0@),
{
    let ghost ss = views(sources@);
    let mut r: Vec<(String, String)> = Vec::new();
    let mut i: usize = 0;
    assert(ss.take(0) =~= Seq::<Seq<char>>::empty());
    while i < sources.len()
        invariant
            i <= sources@.len(),
            ss == views(sources@),
            ss.len() == sources@.len(),
            r@.map_values(|p: (String, String)| p.0@) =~= followers_spec(ss.take(i as int), leader@),
            forall|k: int| 0 <= k < r@.len() ==> (#[trigger] r@[k]).1@ == follow_filter_spec(r@[k].0@),
        decreases sources@.len() - i,
    {
        let ghost pre = ss.take(i + 1);
        assert(pre.drop_last() =~= ss.take(i as int));
        assert(pre.last() == sources@[i as int]@);
        let ghost old_r = r@;
        if !str_eq(sources[i].as_str(), leader) {
            let name = crate::text::owned(sources[i].as_str());
            let filter = concat("Move_Source_", sources[i].as_str());
            r.push((name, filter));
            assert(r@.map_values(|p: (String, String)| p.0@) =~= old_r.map_values(
                |p: (String, String)| p.0@,
            ).push(sources@[i as int]@));
        }
        i = i + 1;
    }
    assert(ss.take(i as int) =~= ss);
    r
}

/// The leader never follows itself, and every other source of the scene
/// follows it.
pub proof fn followers_are_everyone_but_the_leader(sources: Seq<Seq<char>>, leader: Seq<char>)
    ensures
        !followers_spec(sources, leader).contains(leader),
        forall|i: int|
            0 <= i < sources.len() && sources[i] != leader ==> followers_spec(
                sources,
                leader,
            ).contains(#[trigger] sources[i]),
    decreases sources.len(),
{
    if sources.len() > 0 {
        let init = sources.drop_last();
        followers_are_everyone_but_the_leader(init, leader);
        let rest = followers_spec(init, leader);
        let f = followers_spec(sources, leader);
        if sources.last() != leader {
            assert(f == rest.push(sources.last()));
            assert(f[f.len() - 1] == sources.last());
            assert forall|k: int| 0 <= k < f.len() implies f[k] != leader by {
                if k < rest.len() {
                    assert(f[k] == rest[k]);
                    if rest[k] == leader {
                        assert(rest.contains(leader));
                    }
                }
            }
        }
        assert forall|i: int| 0 <= i < sources.len() && sources[i] != leader implies f.contains(
            #[trigger] sources[i],
        ) by {
            if i < sources.len() - 1 {
                assert(init[i] == sources[i]);
                assert(rest.contains(init[i]));
                let k = choose|k: int| 0 <= k < rest.len() && rest[k] == init[i];
                if sources.last() != leader {
                    assert(f[k] == rest[k]);
                }
            } else {
                assert(f[f.len() - 1] == sources[i]);
            }
        }
    }
}


/// Showing a character turns on its three `Show` filters (the character,
/// its text and its speech bubble) and hiding turns on the three `Hide`
/// ones; each filter belongs to the character named.
pub proof fn character_filters_name_the_character(base_source: Seq<char>, enabled: bool)
    ensures
        ({
            let f = character_filter_names_spec(base_source, enabled);
            let m = if enabled {
                "Show"@
            } else {
                "Hide"@
            };
            &&& f.len() == 3
            &&& f[0] == m + base_source
            &&& f[1] == m + base_source + "-text"@
            &&& f[2] == m + base_source + "-speech_bubble"@
        }),
        character_filter_names_spec(base_source, true)[0] != character_filter_names_spec(base_source, false)[0],
{
    reveal_strlit("Show");
    reveal_strlit("Hide");
    assert("Show"@.len() == 4 && "Show"@[0] == 'S');
    assert("Hide"@.len() == 4 && "Hide"@[0] == 'H');
    assert(("Show"@ + base_source)[0] == 'S');
    assert(("Hide"@ + base_source)[0] == 'H');
}

} // verus!
