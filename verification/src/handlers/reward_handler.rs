//! The streamer's reward commands: sales on the AI scenes' channel rewards,
//! creating them, and raising all their prices.
use crate::handlers::channel_rewards::{rewards_view, scenes_view};
use crate::handlers::{is_streamer, is_streamer_name};
use crate::text::{owned, str_eq};
use vstd::prelude::*;

pub use crate::handlers::channel_rewards::{
    flash_sale_message, flash_sale_message_spec, pick_flash_sale_title as find_random_ai_scene_title,
};
use crate::handlers::channel_rewards::flash_cost;

verus! {

/// What a chat message asks of the reward commands.
#[derive(PartialEq, Eq, Structural, Clone, Copy, Debug)]
pub enum RewardRoute {
    /// Put one AI scene's reward, chosen at random, on sale.
    FlashSale,
    /// Put every AI scene's reward on sale.
    BlowoutSale,
    /// Create a channel reward for every AI scene.
    BootstrapRewards,
    /// Raise every AI scene's reward to the inflation price.
    Inflation,
    /// Nothing to do.
    Nothing,
}

/// The reward command that the first word `command` of a message from
/// `user_name` asks for: only the streamer's accounts may run them.
pub open spec fn reward_route_spec(command: Seq<char>, user_name: Seq<char>) -> RewardRoute {
    if !is_streamer(user_name) {
        RewardRoute::Nothing
    } else if command == "!flash_sale"@ {
        RewardRoute::FlashSale
    } else if command == "!blowout_sale"@ {
        RewardRoute::BlowoutSale
    } else if command == "!bootstrap_rewards"@ {
        RewardRoute::BootstrapRewards
    } else if command == "!inflation"@ {
        RewardRoute::Inflation
    } else {
        RewardRoute::Nothing
    }
}

/// Decides which reward command the first word of a chat message runs.
pub fn route_messages(command: &str, user_name: &str) -> (r: RewardRoute)
    ensures
        r == reward_route_spec(command@, user_name@),
{
    if !is_streamer_name(user_name) {
        RewardRoute::Nothing
    } else if str_eq(command, "!flash_sale") {
        RewardRoute::FlashSale
    } else if str_eq(command, "!blowout_sale") {
        RewardRoute::BlowoutSale
    } else if str_eq(command, "!bootstrap_rewards") {
        RewardRoute::BootstrapRewards
    } else if str_eq(command, "!inflation") {
        RewardRoute::Inflation
    } else {
        RewardRoute::Nothing
    }
}

/// The price every AI scene's reward gets when inflation hits.
pub open spec fn inflation_cost() -> i32 {
    10000
}

/// The chat announcement that closes a reward command, if it has one.
pub open spec fn announcement_spec(route: RewardRoute) -> Option<Seq<char>> {
    match route {
        RewardRoute::BlowoutSale => Some("BLOWOUT SALE!!! ALL SOUNDS ARE GOING FOR CHEAP. CHEAP. CHEAP! "@),
        RewardRoute::Inflation => Some("INFLATION HIT! ALL PRICES RAISED TO 10000!"@),
        _ => None,
    }
}

/// The chat announcement that closes the reward command `route`, if any.
pub fn announcement(route: RewardRoute) -> (r: Option<String>)
    ensures
        crate::text::opt_view(r) == announcement_spec(route),
{
    match route {
        RewardRoute::BlowoutSale => Some(
            owned("BLOWOUT SALE!!! ALL SOUNDS ARE GOING FOR CHEAP. CHEAP. CHEAP! "),
        ),
        RewardRoute::Inflation => Some(owned("INFLATION HIT! ALL PRICES RAISED TO 10000!")),
        _ => None,
    }
}

/// The rewards `!bootstrap_rewards` creates: one per AI scene, in order,
/// at ten times the scene's cost.
pub open spec fn all_bootstrap_rewards_spec(scenes: Seq<(Seq<char>, i32)>) -> Seq<(Seq<char>, int)> {
    scenes.map_values(|p: (Seq<char>, i32)| (p.0, p.1 * 10))
}

/// The rewards to create for every AI scene, each at ten times the scene's
/// cost, which must fit in an `i32` (the multiplication overflows
/// otherwise).
pub fn all_bootstrap_rewards(scenes: &Vec<(String, i32)>) -> (rewards: Vec<(String, i32)>)
    requires
        forall|i: int| 0 <= i < scenes@.len() ==> i32::MIN <= #[trigger] scenes@[i].1 * 10 <= i32::MAX,
    ensures
        rewards_view(rewards@) == all_bootstrap_rewards_spec(scenes_view(scenes@)),
{
    let mut rewards: Vec<(String, i32)> = Vec::new();
    let mut i: usize = 0;
    while i < scenes.len()
        invariant
            i <= scenes@.len(),
            forall|j: int| 0 <= j < scenes@.len() ==> i32::MIN <= #[trigger] scenes@[j].1 * 10 <= i32::MAX,
            rewards_view(rewards@) =~= all_bootstrap_rewards_spec(scenes_view(scenes@)).take(i as int),
        decreases scenes@.len() - i,
    {
        let ghost old_rewards = rewards@;
        let cost = scenes[i].1 * 10;
        rewards.push((owned(scenes[i].0.as_str()), cost));
        assert(rewards_view(rewards@) =~= rewards_view(old_rewards).push(
            (scenes@[i as int].0@, cost as int),
        ));
        assert(all_bootstrap_rewards_spec(scenes_view(scenes@)).take(i + 1) =~= all_bootstrap_rewards_spec(
            scenes_view(scenes@),
        ).take(i as int).push((scenes@[i as int].0@, cost as int)));
        i = i + 1;
    }
    assert(all_bootstrap_rewards_spec(scenes_view(scenes@)).take(i as int) =~= all_bootstrap_rewards_spec(
        scenes_view(scenes@),
    ));
    rewards
}

/// Only the streamer's accounts run reward commands: anyone else's message
/// asks for nothing.
pub proof fn only_streamer_runs_rewards(command: Seq<char>, user_name: Seq<char>)
    requires
        !is_streamer(user_name),
    ensures
        reward_route_spec(command, user_name) == RewardRoute::Nothing,
{
}

/// A flash sale on the reward `title`: the reward's new cost, and the chat
/// announcement of the sale.
pub fn flash_sale(title: &str) -> (r: (u64, String))
    ensures
        r.0 == crate::handlers::channel_rewards::flash_cost(),
        r.1@ == flash_sale_message_spec(title@, r.0),
{
    let cost: u64 = 100;
    (cost, flash_sale_message(title, cost))
}


/// For the streamer each reward command runs its own action: `!flash_sale`
/// a flash sale, `!blowout_sale` a blowout sale, `!bootstrap_rewards` the
/// creation of the rewards, `!inflation` the price rise; any other word
/// runs nothing. Only the blowout sale and inflation are announced, and
/// inflation names its price.
pub proof fn reward_commands_run_their_action(command: Seq<char>, user_name: Seq<char>)
    ensures
        is_streamer(user_name) && command == "!flash_sale"@ ==> reward_route_spec(command, user_name)
            == RewardRoute::FlashSale,
        is_streamer(user_name) && command == "!blowout_sale"@ ==> reward_route_spec(
            command,
            user_name,
        ) == RewardRoute::BlowoutSale,
        is_streamer(user_name) && command == "!bootstrap_rewards"@ ==> reward_route_spec(
            command,
            user_name,
        ) == RewardRoute::BootstrapRewards,
        is_streamer(user_name) && command == "!inflation"@ ==> reward_route_spec(command, user_name)
            == RewardRoute::Inflation,
        command != "!flash_sale"@ && command != "!blowout_sale"@ && command != "!bootstrap_rewards"@
            && command != "!inflation"@ ==> reward_route_spec(command, user_name)
            == RewardRoute::Nothing,
        announcement_spec(RewardRoute::FlashSale) is None,
        announcement_spec(RewardRoute::BootstrapRewards) is None,
        announcement_spec(RewardRoute::Nothing) is None,
        announcement_spec(RewardRoute::BlowoutSale) is Some,
        announcement_spec(RewardRoute::Inflation) == Some(
            "INFLATION HIT! ALL PRICES RAISED TO 10000!"@,
        ),
        inflation_cost() == 10000,
{
    reveal_strlit("!flash_sale");
    reveal_strlit("!blowout_sale");
    reveal_strlit("!bootstrap_rewards");
    reveal_strlit("!inflation");
    assert("!flash_sale"@.len() == 11);
    assert("!blowout_sale"@.len() == 13);
    assert("!bootstrap_rewards"@.len() == 18);
    assert("!inflation"@.len() == 10);
}

} // verus!
