//! Music video commands: generating images for the current song, a video
//! from one of those images, or the whole music video.
use crate::files::{extension_spec, file_extension, file_stem, stem_spec};
use crate::text::{
    join_from, join_spec, owned, parse_i64, parse_i64_spec, split_on, split_spec, split_words,
    str_eq, views, word_copy, words_spec,
};
use vstd::prelude::*;

verus! {

/// What a music video command asks for.
pub enum MusicVideoCommand {
    /// Make a video from the image `image_name` of song `id`.
    CreateMusicVideoVideo { id: String, image_name: String },
    /// Make one image for song `id`, from `prompt` when one is given.
    CreateMusicVideoImage { id: String, prompt: Option<String> },
    /// Make `count` images for song `id`.
    CreateMusicVideoImages { id: String, count: i64 },
    /// Make the whole music video of song `id`.
    CreateMusicVideo { id: String },
    /// Not a music video command.
    Unknown,
}

/// A music video command, as plain text.
pub enum MusicVideoCommandView {
    CreateMusicVideoVideo { id: Seq<char>, image_name: Seq<char> },
    CreateMusicVideoImage { id: Seq<char>, prompt: Option<Seq<char>> },
    CreateMusicVideoImages { id: Seq<char>, count: i64 },
    CreateMusicVideo { id: Seq<char> },
    Unknown,
}

impl View for MusicVideoCommand {
    type V = MusicVideoCommandView;

    open spec fn view(&self) -> MusicVideoCommandView {
        match self {
            MusicVideoCommand::CreateMusicVideoVideo { id, image_name } =>
                MusicVideoCommandView::CreateMusicVideoVideo { id: id@, image_name: image_name@ },
            MusicVideoCommand::CreateMusicVideoImage { id, prompt } =>
                MusicVideoCommandView::CreateMusicVideoImage {
                id: id@,
                prompt: match prompt {
                    Some(p) => Some(p@),
                    None => None,
                },
            },
            MusicVideoCommand::CreateMusicVideoImages { id, count } =>
                MusicVideoCommandView::CreateMusicVideoImages { id: id@, count: *count },
            MusicVideoCommand::CreateMusicVideo { id } => MusicVideoCommandView::CreateMusicVideo {
                id: id@,
            },
            MusicVideoCommand::Unknown => MusicVideoCommandView::Unknown,
        }
    }
}

/// The number of images that `!generate_images` asks for: its second word
/// read as an `i64`, or one.
pub open spec fn image_count_spec(words: Seq<Seq<char>>) -> i64 {
    if words.len() > 1 {
        match parse_i64_spec(words[1]) {
            Some(c) => c,
            None => 1,
        }
    } else {
        1
    }
}

/// What a chat message asks of the music video generator, for the song that
/// is playing (`song_id`): the bot's own messages ask nothing, and
/// `!generate_video` without an image name is an error.
pub open spec fn music_video_command_spec(
    user_name: Seq<char>,
    contents: Seq<char>,
    song_id: Seq<char>,
) -> Result<MusicVideoCommandView, Seq<char>> {
    let words = words_spec(contents);
    if user_name == "nightbot"@ || words.len() == 0 {
        Ok(MusicVideoCommandView::Unknown)
    } else if words[0] == "!create_music_video_images"@ || words[0] == "!generate_images"@ {
        Ok(MusicVideoCommandView::CreateMusicVideoImages { id: song_id, count: image_count_spec(words) })
    } else if words[0] == "!generate_video"@ {
        if words.len() > 1 {
            Ok(MusicVideoCommandView::CreateMusicVideoVideo { id: song_id, image_name: words[1] })
        } else {
            Err("No image name provided for video generation"@)
        }
    } else if words[0] == "!generate_image"@ {
        let fields = split_spec(contents, ' ');
        Ok(
            MusicVideoCommandView::CreateMusicVideoImage {
                id: song_id,
                prompt: if fields.len() > 1 {
                    Some(join_spec(fields.skip(1), " "@))
                } else {
                    None
                },
            },
        )
    } else if words[0] == "!create_music_video"@ {
        Ok(
            MusicVideoCommandView::CreateMusicVideo {
                id: if words.len() > 1 {
                    words[1]
                } else {
                    song_id
                },
            },
        )
    } else {
        Ok(MusicVideoCommandView::Unknown)
    }
}

/// Reads a chat message as a music video command for the song that is
/// playing.
pub fn handle_requests(user_name: &str, contents: &str, song_id: &str) -> (r: Result<
    MusicVideoCommand,
    String,
>)
    ensures
        match r {
            Ok(c) => music_video_command_spec(user_name@, contents@, song_id@) == Ok::<
                MusicVideoCommandView,
                Seq<char>,
            >(c@),
            Err(e) => music_video_command_spec(user_name@, contents@, song_id@) == Err::<
                MusicVideoCommandView,
                Seq<char>,
            >(e@),
        },
{
    let words = split_words(contents);
    if str_eq(user_name, "nightbot") || words.len() == 0 {
        return Ok(MusicVideoCommand::Unknown);
    }
    assert(views(words@)[0] == words@[0]@);
    let first = words[0].as_str();
    if str_eq(first, "!create_music_video_images") || str_eq(first, "!generate_images") {
        let count = if words.len() > 1 {
            assert(views(words@)[1] == words@[1]@);
            match parse_i64(words[1].as_str()) {
                Some(c) => c,
                None => 1,
            }
        } else {
            1
        };
        Ok(MusicVideoCommand::CreateMusicVideoImages { id: owned(song_id), count })
    } else if str_eq(first, "!generate_video") {
        match word_copy(&words, 1) {
            Some(image_name) => Ok(
                MusicVideoCommand::CreateMusicVideoVideo { id: owned(song_id), image_name },
            ),
            None => Err(owned("No image name provided for video generation")),
        }
    } else if str_eq(first, "!generate_image") {
        let fields = split_on(contents, ' ');
        let prompt = if fields.len() > 1 {
            let p = join_from(&fields, 1, " ");
            assert(views(fields@.skip(1)) =~= views(fields@).skip(1));
            Some(p)
        } else {
            None
        };
        Ok(MusicVideoCommand::CreateMusicVideoImage { id: owned(song_id), prompt })
    } else if str_eq(first, "!create_music_video") {
        let id = match word_copy(&words, 1) {
            Some(w) => w,
            None => owned(song_id),
        };
        Ok(MusicVideoCommand::CreateMusicVideo { id })
    } else {
        Ok(MusicVideoCommand::Unknown)
    }
}

/// The image extensions a music video frame may have.
pub open spec fn is_image_extension(extension: Seq<char>) -> bool {
    extension == "png"@ || extension == "jpeg"@ || extension == "jpg"@
}

/// The folder that holds the images of song `song_id`.
pub open spec fn music_video_dir_spec(song_id: Seq<char>) -> Seq<char> {
    "./tmp/music_videos/"@ + song_id + "/"@
}

/// The folder that holds the images of song `song_id`.
pub fn music_video_dir(song_id: &str) -> (r: String)
    ensures
        r@ == music_video_dir_spec(song_id@),
{
    crate::text::concat3("./tmp/music_videos/", song_id, "/")
}

/// Looks for the image called `name` among the file names of a song's
/// image folder, from index `from` on, in the order the folder lists them:
/// a file without an extension stops the search with an error, files of
/// other kinds are passed over.
pub open spec fn find_image_spec(names: Seq<Seq<char>>, name: Seq<char>, from: int) -> Result<
    int,
    Seq<char>,
>
    decreases names.len() - from,
{
    if from < 0 || from >= names.len() {
        Err("No matching image found for: "@ + name)
    } else {
        match extension_spec(names[from]) {
            None => Err("Failed to get file extension"@),
            Some(e) => if is_image_extension(e) && stem_spec(names[from]) == name {
                Ok(from)
            } else {
                find_image_spec(names, name, from + 1)
            },
        }
    }
}

/// The index of the image called `name` among the file names of a song's
/// image folder, or why there is none.
pub fn find_image(file_names: &Vec<String>, name: &str) -> (r: Result<usize, String>)
    ensures
        match r {
            Ok(i) => find_image_spec(views(file_names@), name@, 0) == Ok::<int, Seq<char>>(i as int),
            Err(e) => find_image_spec(views(file_names@), name@, 0) == Err::<int, Seq<char>>(e@),
        },
{
    let ghost names = views(file_names@);
    let mut i: usize = 0;
    while i < file_names.len()
        invariant
            i <= file_names@.len(),
            names == views(file_names@),
            names.len() == file_names@.len(),
            find_image_spec(names, name@, 0) == find_image_spec(names, name@, i as int),
        decreases file_names@.len() - i,
    {
        assert(names[i as int] == file_names@[i as int]@);
        match file_extension(file_names[i].as_str()) {
            None => {
                return Err(owned("Failed to get file extension"));
            },
            Some(e) => {
                let ext = e.as_str();
                if str_eq(ext, "png") || str_eq(ext, "jpeg") || str_eq(ext, "jpg") {
                    let stem = file_stem(file_names[i].as_str());
                    if str_eq(stem.as_str(), name) {
                        return Ok(i);
                    }
                }
            },
        }
        i = i + 1;
    }
    Err(crate::text::concat("No matching image found for: ", name))
}


/// The music video commands read their words, for the song playing:
/// `!generate_images N` (and `!create_music_video_images N`) makes the
/// number of images given (one when it is no number), `!generate_video
/// IMAGE` makes a video from that image (an error without it),
/// `!create_music_video ID` makes the music video of the song named (else of
/// the song playing), and the bot's own messages ask for nothing.
pub proof fn music_video_commands_read_their_words(
    user_name: Seq<char>,
    contents: Seq<char>,
    song_id: Seq<char>,
)
    ensures
        ({
            let words = words_spec(contents);
            let r = music_video_command_spec(user_name, contents, song_id);
            &&& user_name == "nightbot"@ ==> r == Ok::<MusicVideoCommandView, Seq<char>>(
                MusicVideoCommandView::Unknown,
            )
            &&& user_name != "nightbot"@ && words.len() > 0 && (words[0] == "!generate_images"@
                || words[0] == "!create_music_video_images"@) ==> r == Ok::<
                MusicVideoCommandView,
                Seq<char>,
            >(
                MusicVideoCommandView::CreateMusicVideoImages {
                    id: song_id,
                    count: if words.len() > 1 && parse_i64_spec(words[1]) is Some {
                        parse_i64_spec(words[1])->0
                    } else {
                        1
                    },
                },
            )
            &&& user_name != "nightbot"@ && words.len() > 1 && words[0] == "!generate_video"@ ==> r
                == Ok::<MusicVideoCommandView, Seq<char>>(
                MusicVideoCommandView::CreateMusicVideoVideo { id: song_id, image_name: words[1] },
            )
            &&& user_name != "nightbot"@ && words.len() == 1 && words[0] == "!generate_video"@ ==> r is Err
            &&& user_name != "nightbot"@ && words.len() > 0 && words[0] == "!create_music_video"@
                ==> r == Ok::<MusicVideoCommandView, Seq<char>>(
                MusicVideoCommandView::CreateMusicVideo {
                    id: if words.len() > 1 {
                        words[1]
                    } else {
                        song_id
                    },
                },
            )
        }),
{
    reveal_strlit("!create_music_video_images");
    reveal_strlit("!generate_images");
    reveal_strlit("!generate_video");
    reveal_strlit("!generate_image");
    reveal_strlit("!create_music_video");
    assert("!create_music_video_images"@.len() == 26 && "!create_music_video_images"@[10] == 's');
    assert("!generate_images"@.len() == 16 && "!generate_images"@[10] == 'i');
    assert("!generate_video"@.len() == 15 && "!generate_video"@[10] == 'v');
    assert("!generate_image"@.len() == 15 && "!generate_image"@[10] == 'i');
    assert("!create_music_video"@.len() == 19 && "!create_music_video"@[10] == 's');
}

} // verus!
