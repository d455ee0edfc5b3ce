use subd::handlers::ai_songs_handler::{added_to_queue_message, now_playing_message, queue_command};
use subd::handlers::ai_songs;
use subd::handlers::ai_songs_downloader;
use subd::handlers::ai_songs_downloader_handler::{
    ffmpeg_args, is_failed_frame, lyric_chunks, music_video_paths, music_video_prompts, parse_command,
    play_song_message, song_cdn_url, DownloaderCommand,
};
use subd::handlers::ai_songs_handler::{
    handle_requests, is_admin, PlaybackControl, SongCommand, SpeedControl, VolumeControl,
};
use subd::handlers::ai_songs_vote_handler::{handle_telephone_requests, VoteCommand};

fn fields(s: &str) -> Vec<String> {
    s.split(' ').map(|w| w.to_string()).collect()
}

const SONG: &str = "ba11ad0f-dad5-c001-c001-700bac001e57";

#[test]
fn info_is_for_everyone() {
    assert!(matches!(handle_requests("!info abc", "viewer"), Ok(SongCommand::Info { id: Some(i) }) if i == "abc"));
    assert!(matches!(handle_requests("!info", "viewer"), Ok(SongCommand::Info { id: None })));
}

#[test]
fn others_cannot_control_the_player() {
    assert!(matches!(handle_requests("!skip", "viewer"), Ok(SongCommand::Nothing)));
    assert!(matches!(handle_requests("!queue not-a-uuid", "viewer"), Ok(SongCommand::Nothing)));
    assert!(!is_admin("viewer"));
    assert!(is_admin("beginbotbot"));
}

#[test]
fn streamer_song_commands() {
    assert!(matches!(
        handle_requests(&format!("!queue {}", SONG), "beginbot"),
        Ok(SongCommand::Queue { song_id }) if song_id == 0xba11ad0fdad5c001c001700bac001e57
    ));
    assert!(matches!(handle_requests("!random_song 4", "beginbot"), Ok(SongCommand::RandomSong { count: 4 })));
    assert!(matches!(handle_requests("!random_song", "beginbot"), Ok(SongCommand::RandomSong { count: 1 })));
    assert!(matches!(handle_requests("!random_song x", "beginbot"), Ok(SongCommand::RandomSong { count: 1 })));
    assert!(matches!(handle_requests("!last_song", "beginbot"), Ok(SongCommand::LastSong)));
    assert!(matches!(handle_requests("!banger", "beginbot"), Ok(SongCommand::Banger)));
    assert!(matches!(handle_requests("!instrumental_jam", "beginbot"), Ok(SongCommand::RandomInstrumental)));
    assert!(matches!(handle_requests("!play abc", "beginbot"), Ok(SongCommand::Play { id }) if id == "abc"));
    assert!(matches!(handle_requests("!play", "beginbot"), Ok(SongCommand::Nothing)));
    assert!(matches!(handle_requests("!reverb abc", "beginbot"), Ok(SongCommand::Reverb { id }) if id == "abc"));
    assert!(matches!(handle_requests("!delete_song abc", "beginbot"), Ok(SongCommand::Nothing)));
    match handle_requests(&format!("!play_fake_song {} My   Song", SONG), "beginbot") {
        Ok(SongCommand::PlayFakeSong { id, title, .. }) => {
            assert_eq!(id, SONG);
            assert_eq!(title, "My Song");
        }
        _ => panic!("expected a fake song"),
    }
}

#[test]
fn bad_song_ids_are_errors() {
    assert_eq!(
        handle_requests("!queue nope", "beginbot").err(),
        Some("Invalid song id: nope".to_string())
    );
    assert!(handle_requests("!play_fake_song nope title", "beginbot").is_err());
}

#[test]
fn player_controls() {
    assert!(matches!(handle_requests("!pause", "beginbot"), Ok(SongCommand::Playback(PlaybackControl::Pause))));
    assert!(matches!(handle_requests("!skip", "beginbot"), Ok(SongCommand::Playback(PlaybackControl::Skip))));
    assert!(matches!(handle_requests("!nightcore", "beginbot"), Ok(SongCommand::Speed(SpeedControl::Nightcore))));
    assert!(matches!(handle_requests("!slowdown", "beginbot"), Ok(SongCommand::Speed(SpeedControl::Slowdown))));
    assert!(matches!(handle_requests("!quiet", "beginbot"), Ok(SongCommand::Volume(VolumeControl::Quiet))));
    assert!(matches!(handle_requests("!coding_volume", "beginbot"), Ok(SongCommand::Volume(VolumeControl::Quiet))));
    assert!(matches!(handle_requests("!party_volume", "beginbot"), Ok(SongCommand::Volume(VolumeControl::Party))));
}

#[test]
fn first_song_player_commands() {
    assert!(matches!(ai_songs::handle_requests(&fields("!info"), "viewer"), SongCommand::Info { id: None }));
    assert!(matches!(ai_songs::handle_requests(&fields("!reverb x"), "beginbot"), SongCommand::Reverb { id } if id == "x"));
    assert!(matches!(ai_songs::handle_requests(&fields("!play x"), "viewer"), SongCommand::Nothing));
    assert!(matches!(ai_songs::handle_requests(&fields("!down"), "beginbot"), SongCommand::Volume(VolumeControl::Down)));
    assert!(matches!(ai_songs::handle_requests(&fields("!banger"), "beginbot"), SongCommand::Nothing));
    assert_eq!(ai_songs::song_file("x"), "ai_songs/x.mp3");
    assert_eq!(ai_songs::queued_message("bob", "x"), "@bob added x to Queue");
}

#[test]
fn downloader_commands() {
    assert!(matches!(parse_command("viewer", "!download abc"), DownloaderCommand::Download { id } if id == "abc"));
    assert!(matches!(parse_command("viewer", "!download"), DownloaderCommand::Unknown));
    assert!(matches!(parse_command("viewer", "!create_music_video abc"), DownloaderCommand::CreateMusicVideo { id } if id == "abc"));
    assert!(matches!(parse_command("viewer", "!song a  jazzy   tune"), DownloaderCommand::CreateSong { prompt } if prompt == "a jazzy tune"));
    assert!(matches!(parse_command("nightbot", "!song x"), DownloaderCommand::Unknown));
    assert!(matches!(
        ai_songs_downloader::handle_requests(&fields("!create_song a  jazzy tune"), "viewer"),
        DownloaderCommand::CreateSong { prompt } if prompt == "a  jazzy tune"
    ));
    assert!(matches!(ai_songs_downloader::handle_requests(&fields("!download x"), "viewer"), DownloaderCommand::Unknown));
    assert!(matches!(
        ai_songs_downloader::handle_requests(&fields("!download x"), "beginbot"),
        DownloaderCommand::Download { id } if id == "x"
    ));
}

#[test]
fn lyric_chunks_of_twenty_words() {
    let lyric: Vec<String> = (1..=45).map(|i| format!("w{}", i)).collect();
    let text = lyric.join("\n");
    let chunks = lyric_chunks(&text);
    assert_eq!(chunks.len(), 3);
    assert_eq!(chunks[0], lyric[0..20].join(" "));
    assert_eq!(chunks[2], "w41 w42 w43 w44 w45");
    assert_eq!(chunks.join(" "), lyric.join(" "));
    assert!(lyric_chunks("  ").is_empty());
}

#[test]
fn music_video_prompt_and_paths() {
    assert_eq!(music_video_prompts("Song", Some("la la".to_string())), Ok(vec!["Song la la".to_string()]));
    assert_eq!(music_video_prompts("Song", None), Err("No Lyrics to parse".to_string()));
    assert_eq!(
        music_video_paths("id"),
        ("./tmp/music_videos/id/video.mp4".to_string(), "./tmp/music_videos/id/*.jpg".to_string())
    );
    assert!(is_failed_frame("1.jpg", 10000));
    assert!(!is_failed_frame("1.jpg", 10001));
    assert!(!is_failed_frame("1.png", 10));
    let args = ffmpeg_args("in/*.jpg", "out.mp4");
    assert_eq!(args.len(), 14);
    assert_eq!(args[6], "in/*.jpg");
    assert_eq!(args[13], "out.mp4");
    assert_eq!(song_cdn_url("x"), "https://cdn1.suno.ai/x.mp3");
    assert_eq!(play_song_message("x"), "!play x");
}

#[test]
fn votes() {
    assert!(matches!(handle_telephone_requests(&fields("!top_songs")), Ok(VoteCommand::TopSongs { count: 5 })));
    assert!(matches!(handle_telephone_requests(&fields("!vote 7.5")), Ok(VoteCommand::Vote { score }) if score == "7.5"));
    assert_eq!(handle_telephone_requests(&fields("!vote")).err(), Some("No score provided".to_string()));
    assert!(matches!(handle_telephone_requests(&fields("hi")), Ok(VoteCommand::Nothing)));
}

#[test]
fn song_messages() {
    assert_eq!(queue_command("abc"), "!queue abc");
    assert_eq!(added_to_queue_message("bob", "Tune", "jazz"), "@bob Added Song to Queue - Tune | jazz");
    assert_eq!(
        now_playing_message("bob", "Tune", "jazz", "id1", "7.5"),
        "@bob's Song is Currently playing - Tune | jazz | id1 | AVG Score: 7.5"
    );
    assert_eq!(
        subd::handlers::ai_songs_downloader_handler::downloaded_message("bob", "id1"),
        "@bob's song id1 added to the Queue. Begin needs to !skip to get to your position faster"
    );
}
