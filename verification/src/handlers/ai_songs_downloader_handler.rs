//! Song generation and music videos: `!create_song` asks for a new song,
//! `!download` fetches one, and `!create_music_video` draws one image per
//! twenty words of a song's lyrics and films them.
use crate::files::{extension_spec, file_extension};
use crate::text::{concat, concat3, join, join_spec, owned, split_words, str_eq, views, words_spec};
use vstd::prelude::*;

verus! {

/// What a chat message asks of the song downloader.
pub enum DownloaderCommand {
    /// Make the music video of song `id`.
    CreateMusicVideo { id: String },
    /// Download song `id` and play it.
    Download { id: String },
    /// Generate songs from `prompt`.
    CreateSong { prompt: String },
    /// Not a downloader command.
    Unknown,
}

/// A downloader command, as plain text.
pub enum DownloaderCommandView {
    CreateMusicVideo { id: Seq<char> },
    Download { id: Seq<char> },
    CreateSong { prompt: Seq<char> },
    Unknown,
}

impl View for DownloaderCommand {
    type V = DownloaderCommandView;

    open spec fn view(&self) -> DownloaderCommandView {
        match self {
            DownloaderCommand::CreateMusicVideo { id } => DownloaderCommandView::CreateMusicVideo {
                id: id@,
            },
            DownloaderCommand::Download { id } => DownloaderCommandView::Download { id: id@ },
            DownloaderCommand::CreateSong { prompt } => DownloaderCommandView::CreateSong {
                prompt: prompt@,
            },
            DownloaderCommand::Unknown => DownloaderCommandView::Unknown,
        }
    }
}

/// What a chat message from `user_name` asks of the song downloader, by its
/// words: the bot's own messages ask nothing, and the id commands need an
/// id.
pub open spec fn downloader_command_spec(user_name: Seq<char>, contents: Seq<char>) -> DownloaderCommandView {
    let words = words_spec(contents);
    if user_name == "nightbot"@ || words.len() == 0 {
        DownloaderCommandView::Unknown
    } else if words[0] == "!create_music_video"@ {
        if words.len() > 1 {
            DownloaderCommandView::CreateMusicVideo { id: words[1] }
        } else {
            DownloaderCommandView::Unknown
        }
    } else if words[0] == "!download"@ {
        if words.len() > 1 {
            DownloaderCommandView::Download { id: words[1] }
        } else {
            DownloaderCommandView::Unknown
        }
    } else if words[0] == "!create_song"@ || words[0] == "!song"@ {
        DownloaderCommandView::CreateSong { prompt: join_spec(words.skip(1), " "@) }
    } else {
        DownloaderCommandView::Unknown
    }
}

/// Reads the chat message `contents` from `user_name` as a downloader
/// command.
pub fn parse_command(user_name: &str, contents: &str) -> (r: DownloaderCommand)
    ensures
        r@ == downloader_command_spec(user_name@, contents@),
{
    let words = split_words(contents);
    let ghost ws = views(words@);
    if str_eq(user_name, "nightbot") || words.len() == 0 {
        return DownloaderCommand::Unknown;
    }
    assert(ws[0] == words@[0]@);
    if words.len() > 1 {
        assert(ws[1] == words@[1]@);
    }
    let first = words[0].as_str();
    if str_eq(first, "!create_music_video") {
        if words.len() > 1 {
            DownloaderCommand::CreateMusicVideo { id: owned(words[1].as_str()) }
        } else {
            DownloaderCommand::Unknown
        }
    } else if str_eq(first, "!download") {
        if words.len() > 1 {
            DownloaderCommand::Download { id: owned(words[1].as_str()) }
        } else {
            DownloaderCommand::Unknown
        }
    } else if str_eq(first, "!create_song") || str_eq(first, "!song") {
        let prompt = crate::text::join_from(&words, 1, " ");
        if words.len() > 1 {
            assert(views(words@.skip(1)) =~= ws.skip(1));
        } else {
            assert(ws.skip(1) =~= Seq::<Seq<char>>::empty());
        }
        DownloaderCommand::CreateSong { prompt }
    } else {
        DownloaderCommand::Unknown
    }
}

/// The words of a song's lyrics in chunks of twenty (the last may be
/// shorter), each chunk joined with spaces.
pub open spec fn lyric_chunks_spec(words: Seq<Seq<char>>) -> Seq<Seq<char>>
    decreases words.len(),
{
    if words.len() == 0 {
        Seq::empty()
    } else if words.len() <= 20 {
        seq![join_spec(words, " "@)]
    } else {
        seq![join_spec(words.take(20), " "@)] + lyric_chunks_spec(words.skip(20))
    }
}

/// A copy of `words[lo..hi]`.
fn sub_vec(words: &Vec<String>, lo: usize, hi: usize) -> (r: Vec<String>)
    requires
        lo <= hi <= words@.len(),
    ensures
        r@ == words@.subrange(lo as int, hi as int),
{
    let mut r: Vec<String> = Vec::new();
    let mut i = lo;
    while i < hi
        invariant
            lo <= i <= hi <= words@.len(),
            r@ == words@.subrange(lo as int, i as int),
        decreases hi - i,
    {
        r.push(words[i].clone());
        assert(words@.subrange(lo as int, i + 1) =~= words@.subrange(lo as int, i as int).push(
            words@[i as int],
        ));
        i = i + 1;
    }
    r
}

/// The lyric chunks that a music video draws one image for: the words of
/// the lyrics, twenty at a time.
pub fn lyric_chunks(lyric: &str) -> (r: Vec<String>)
    ensures
        views(r@) == lyric_chunks_spec(words_spec(lyric@)),
{
    let words = split_words(lyric);
    let ghost ws = views(words@);
    let mut r: Vec<String> = Vec::new();
    let mut i: usize = 0;
    assert(ws.skip(0) =~= ws);
    assert(views(r@) =~= Seq::<Seq<char>>::empty());
    while i < words.len()
        invariant
            i <= words@.len(),
            ws == views(words@),
            ws.len() == words@.len(),
            views(r@) + lyric_chunks_spec(ws.skip(i as int)) == lyric_chunks_spec(ws),
        decreases words@.len() - i,
    {
        let end = if words.len() - i <= 20 {
            words.len()
        } else {
            i + 20
        };
        let part = sub_vec(&words, i, end);
        let chunk = join(part.as_slice(), " ");
        let ghost rest = ws.skip(i as int);
        assert(views(part@) =~= ws.subrange(i as int, end as int));
        let ghost old_r = r@;
        r.push(chunk);
        assert(views(r@) =~= views(old_r).push(chunk@));
        if words.len() - i <= 20 {
            assert(ws.subrange(i as int, end as int) =~= rest);
            assert(ws.skip(end as int) =~= Seq::<Seq<char>>::empty());
        } else {
            assert(ws.subrange(i as int, end as int) =~= rest.take(20));
            assert(rest.skip(20) =~= ws.skip(end as int));
        }
        assert(lyric_chunks_spec(rest) =~= seq![chunk@] + lyric_chunks_spec(ws.skip(end as int)));
        assert(views(r@) + lyric_chunks_spec(ws.skip(end as int)) =~= views(old_r)
            + lyric_chunks_spec(rest));
        i = end;
    }
    assert(ws.skip(i as int) =~= Seq::<Seq<char>>::empty());
    assert(views(r@) + Seq::<Seq<char>>::empty() =~= views(r@));
    r
}

/// The image prompts of a music video: the song's title before each chunk of
/// its lyrics; `None` for a song without lyrics.
pub open spec fn music_video_prompts_spec(title: Seq<char>, lyric: Option<Seq<char>>) -> Option<
    Seq<Seq<char>>,
> {
    match lyric {
        Some(l) => Some(
            lyric_chunks_spec(words_spec(l)).map_values(|c: Seq<char>| title + " "@ + c),
        ),
        None => None,
    }
}

/// The image prompts of the music video of a song with title `title` and
/// lyrics `lyric` (image `i` is numbered `i + 1`), or the error for a song
/// without lyrics.
pub fn music_video_prompts(title: &str, lyric: Option<String>) -> (r: Result<Vec<String>, String>)
    ensures
        match r {
            Ok(ps) => music_video_prompts_spec(title@, crate::text::opt_view(lyric)) == Some(
                views(ps@),
            ),
            Err(e) => music_video_prompts_spec(title@, crate::text::opt_view(lyric)) is None
                && e@ == "No Lyrics to parse"@,
        },
{
    let l = match lyric {
        Some(l) => l,
        None => {
            return Err(owned("No Lyrics to parse"));
        },
    };
    let chunks = lyric_chunks(l.as_str());
    let ghost cs = views(chunks@);
    let mut ps: Vec<String> = Vec::new();
    let mut i: usize = 0;
    while i < chunks.len()
        invariant
            i <= chunks@.len(),
            cs == views(chunks@),
            cs.len() == chunks@.len(),
            views(ps@) =~= cs.take(i as int).map_values(|c: Seq<char>| title@ + " "@ + c),
        decreases chunks@.len() - i,
    {
        let p = concat3(title, " ", chunks[i].as_str());
        let ghost old_ps = ps@;
        ps.push(p);
        assert(views(ps@) =~= views(old_ps).push(p@));
        assert(cs.take(i + 1) =~= cs.take(i as int).push(cs[i as int]));
        i = i + 1;
    }
    assert(cs.take(i as int) =~= cs);
    Ok(ps)
}

/// The video file of song `id`'s music video.
pub open spec fn music_video_file_spec(id: Seq<char>) -> Seq<char> {
    "./tmp/music_videos/"@ + id + "/video.mp4"@
}

/// The pattern of the images that song `id`'s music video is made from.
pub open spec fn music_video_images_spec(id: Seq<char>) -> Seq<char> {
    "./tmp/music_videos/"@ + id + "/*.jpg"@
}

/// The video file and the image pattern of song `id`'s music video.
pub fn music_video_paths(id: &str) -> (r: (String, String))
    ensures
        r.0@ == music_video_file_spec(id@),
        r.1@ == music_video_images_spec(id@),
{
    (concat3("./tmp/music_videos/", id, "/video.mp4"), concat3("./tmp/music_videos/", id, "/*.jpg"))
}

/// Whether an image of a music video is too small to keep (a failed
/// drawing): a jpg file of at most 10000 bytes.
pub open spec fn is_failed_frame_spec(file_name: Seq<char>, size: u64) -> bool {
    extension_spec(file_name) == Some("jpg"@) && size <= 10000
}

/// Whether the image `file_name` of `size` bytes is a failed drawing.
pub fn is_failed_frame(file_name: &str, size: u64) -> (r: bool)
    ensures
        r == is_failed_frame_spec(file_name@, size),
{
    match file_extension(file_name) {
        Some(e) => str_eq(e.as_str(), "jpg") && size <= 10000,
        None => false,
    }
}

/// The arguments ffmpeg films a music video with: one image every two
/// seconds, H.264 at 30 frames per second.
pub open spec fn ffmpeg_args_spec(input_pattern: Seq<char>, output_file: Seq<char>) -> Seq<Seq<char>> {
    seq![
        "-y"@,
        "-framerate"@,
        "1/2"@,
        "-pattern_type"@,
        "glob"@,
        "-i"@,
        input_pattern,
        "-c:v"@,
        "libx264"@,
        "-r"@,
        "30"@,
        "-pix_fmt"@,
        "yuv420p"@,
        output_file,
    ]
}

/// The arguments ffmpeg films the images `input_pattern` into
/// `output_file` with.
pub fn ffmpeg_args(input_pattern: &str, output_file: &str) -> (r: Vec<String>)
    ensures
        views(r@) == ffmpeg_args_spec(input_pattern@, output_file@),
{
    let r = vec![
        owned("-y"),
        owned("-framerate"),
        owned("1/2"),
        owned("-pattern_type"),
        owned("glob"),
        owned("-i"),
        owned(input_pattern),
        owned("-c:v"),
        owned("libx264"),
        owned("-r"),
        owned("30"),
        owned("-pix_fmt"),
        owned("yuv420p"),
        owned(output_file),
    ];
    assert(views(r@) =~= ffmpeg_args_spec(input_pattern@, output_file@));
    r
}

/// Where a song is downloaded from.
pub open spec fn song_cdn_url_spec(id: Seq<char>) -> Seq<char> {
    "https://cdn1.suno.ai/"@ + id + ".mp3"@
}

/// Where the song `id` is downloaded from.
pub fn song_cdn_url(id: &str) -> (r: String)
    ensures
        r@ == song_cdn_url_spec(id@),
{
    concat3("https://cdn1.suno.ai/", id, ".mp3")
}

/// The chat message that plays a downloaded song.
pub fn play_song_message(id: &str) -> (r: String)
    ensures
        r@ == "!play "@ + id@,
{
    concat("!play ", id)
}

/// A music video loses no word of the lyrics: its chunks joined with
/// spaces are the words of the lyrics joined with spaces.
pub proof fn lyric_chunks_keep_every_word(words: Seq<Seq<char>>)
    ensures
        join_spec(lyric_chunks_spec(words), " "@) == join_spec(words, " "@),
    decreases words.len(),
{
    if words.len() == 0 {
    } else if words.len() <= 20 {
        assert(seq![join_spec(words, " "@)].len() == 1);
    } else {
        let head = words.take(20);
        let tail = words.skip(20);
        lyric_chunks_keep_every_word(tail);
        let rest = lyric_chunks_spec(tail);
        assert(rest.len() > 0) by {
            if tail.len() <= 20 {
            } else {
            }
        }
        crate::text::join_concat(seq![join_spec(head, " "@)], rest, " "@);
        assert(join_spec(seq![join_spec(head, " "@)], " "@) == join_spec(head, " "@));
        crate::text::join_concat(head, tail, " "@);
        assert(head + tail =~= words);
    }
}

/// The chat message that announces a downloaded song.
pub open spec fn downloaded_message_spec(user_name: Seq<char>, id: Seq<char>) -> Seq<char> {
    "@"@ + user_name + "'s song "@ + id
        + " added to the Queue. Begin needs to !skip to get to your position faster"@
}

/// The chat message that announces that `user_name`'s song `id` was
/// downloaded.
pub fn downloaded_message(user_name: &str, id: &str) -> (r: String)
    ensures
        r@ == downloaded_message_spec(user_name@, id@),
{
    let a = concat3("@", user_name, "'s song ");
    concat3(a.as_str(), id, " added to the Queue. Begin needs to !skip to get to your position faster")
}


/// The downloader reads the words of a message: `!create_music_video ID`
/// and `!download ID` act on the song named by the second word,
/// `!create_song TEXT...` and `!song TEXT...` make a song from all the
/// words after the command, and the bot's own messages ask nothing. Each
/// image prompt of a music video is the title, a space and one chunk of
/// the lyrics, in the lyrics' order.
pub proof fn downloader_reads_its_words(user_name: Seq<char>, contents: Seq<char>, title: Seq<char>, lyric: Seq<char>)
    ensures
        ({
            let words = words_spec(contents);
            let r = downloader_command_spec(user_name, contents);
            &&& user_name == "nightbot"@ ==> r == DownloaderCommandView::Unknown
            &&& user_name != "nightbot"@ && words.len() > 1 && words[0] == "!create_music_video"@ ==> r
                == (DownloaderCommandView::CreateMusicVideo { id: words[1] })
            &&& user_name != "nightbot"@ && words.len() > 1 && words[0] == "!download"@ ==> r == (
            DownloaderCommandView::Download { id: words[1] })
            &&& user_name != "nightbot"@ && words.len() > 0 && (words[0] == "!create_song"@ || words[0]
                == "!song"@) ==> r == (DownloaderCommandView::CreateSong {
                prompt: join_spec(words.skip(1), " "@),
            })
        }),
        ({
            let chunks = lyric_chunks_spec(words_spec(lyric));
            music_video_prompts_spec(title, Some(lyric)) matches Some(ps) && ps.len() == chunks.len()
                && forall|i: int| 0 <= i < ps.len() ==> #[trigger] ps[i] == title + " "@ + chunks[i]
        }),
        music_video_prompts_spec(title, None) is None,
{
    reveal_strlit("!create_music_video");
    reveal_strlit("!download");
    reveal_strlit("!create_song");
    reveal_strlit("!song");
    assert("!create_music_video"@.len() == 19);
    assert("!download"@.len() == 9);
    assert("!create_song"@.len() == 12);
    assert("!song"@.len() == 5);
}

} // verus!
