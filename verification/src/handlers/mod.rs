//! The chat command handlers: each reads the words of a chat message and
//! decides what the bot does.
use vstd::prelude::*;
use crate::text::{concat, split_on, split_spec, str_eq, views, word_at_spec, word_copy};

pub mod ai_music_video_creator_handler;
pub mod ai_screenshots;
pub mod ai_screenshots_timer;
pub mod ai_screenshots_timer_handler;
pub mod ai_songs;
pub mod ai_songs_downloader;
pub mod ai_songs_downloader_handler;
pub mod ai_songs_handler;
pub mod ai_songs_vote_handler;
pub mod ai_telephone;
pub mod ai_telephone_handler;
pub mod channel_rewards;
pub mod elevenlabs_handler;
pub mod explicit_sound_handler;
pub mod fal_handler;
pub mod gen_art_handler;
pub mod implicit_sound_handler;
pub mod music_scenes_handler;
pub mod obs_messages;
pub mod obs_messages_handler;
pub mod reward_handler;
pub mod skybox;
pub mod skybox_handler;
pub mod skybox_status_handler;
pub mod sound_handler;
pub mod stream_background_handler;
pub mod twitch_eventsub_handler;
pub mod voices_handler;

verus! {

/// The streamer's own accounts, which may run the privileged commands.
pub open spec fn is_streamer(user_name: Seq<char>) -> bool {
    user_name == "beginbot"@ || user_name == "beginbotbot"@
}

/// Whether `user_name` is one of the streamer's own accounts.
pub fn is_streamer_name(user_name: &str) -> (r: bool)
    ensures
        r == is_streamer(user_name@),
{
    str_eq(user_name, "beginbot") || str_eq(user_name, "beginbotbot")
}

/// What uploading a chatter's image takes from the message: the image url
/// (the second space-separated word, if any) and the file the cut-out image
/// is saved to, named after the chatter.
pub fn upload_image(contents: &str, user_name: &str) -> (r: (Option<String>, String))
    ensures
        crate::text::opt_view(r.0) == word_at_spec(split_spec(contents@, ' '), 1),
        r.1@ == user_name@ + ".png"@,
{
    let fields = split_on(contents, ' ');
    let url = word_copy(&fields, 1);
    if fields.len() > 1 {
        assert(views(fields@)[1] == fields@[1]@);
    }
    (url, concat(user_name, ".png"))
}


/// The streamer's accounts are exactly `beginbot` and `beginbotbot`.
pub proof fn streamer_accounts(user_name: Seq<char>)
    ensures
        user_name == "beginbot"@ ==> is_streamer(user_name),
        user_name == "beginbotbot"@ ==> is_streamer(user_name),
        user_name != "beginbot"@ && user_name != "beginbotbot"@ ==> !is_streamer(user_name),
{
}

} // verus!
