//! Stream background commands: Art Blocks pieces and AI generated images.
use crate::handlers::skybox::{join_after, words_after};
use crate::handlers::{is_streamer, is_streamer_name};
use crate::text::{concat, join_spec, owned, str_eq, views};
use vstd::prelude::*;

verus! {

/// An Art Blocks project: its contract and the range of its token numbers.
pub struct ArtBlocksCollection {
    pub contract: String,
    pub lower_bound: u64,
    pub upper_bound: u64,
}

/// What a stream background chat command asks for.
pub enum BackgroundCommand {
    /// Show one Art Blocks token in the browser source.
    ShowArtBlocksToken { url: String },
    /// Show a random token of a collection.
    RandomArtBlocks(ArtBlocksCollection),
    /// Make a "bogan" image from the message.
    Bogan,
    /// Generate a background with Stable Diffusion.
    StableDiffusion { prompt: String },
    /// Generate a background with DALL·E.
    Dalle { prompt: String },
    Nothing,
}

/// A background command, as plain text.
pub enum BackgroundCommandView {
    ShowArtBlocksToken { url: Seq<char> },
    RandomArtBlocks { contract: Seq<char>, lower_bound: u64, upper_bound: u64 },
    Bogan,
    StableDiffusion { prompt: Seq<char> },
    Dalle { prompt: Seq<char> },
    Nothing,
}

impl View for BackgroundCommand {
    type V = BackgroundCommandView;

    open spec fn view(&self) -> BackgroundCommandView {
        match self {
            BackgroundCommand::ShowArtBlocksToken { url } => BackgroundCommandView::ShowArtBlocksToken {
                url: url@,
            },
            BackgroundCommand::RandomArtBlocks(c) => BackgroundCommandView::RandomArtBlocks {
                contract: c.contract@,
                lower_bound: c.lower_bound,
                upper_bound: c.upper_bound,
            },
            BackgroundCommand::Bogan => BackgroundCommandView::Bogan,
            BackgroundCommand::StableDiffusion { prompt } => BackgroundCommandView::StableDiffusion {
                prompt: prompt@,
            },
            BackgroundCommand::Dalle { prompt } => BackgroundCommandView::Dalle { prompt: prompt@ },
            BackgroundCommand::Nothing => BackgroundCommandView::Nothing,
        }
    }
}

/// The collection a command shows a random token of.
pub open spec fn collection_of(command: Seq<char>) -> Option<(Seq<char>, u64, u64)> {
    let ab = "0x99a9b7c1116f9ceeb1652de04d5969cce509b069"@;
    let curated = "0xa7d8d9ef8d8ce8992df33d8b8cf4aebabd5bd270"@;
    if command == "!dca"@ || command == "!heart"@ {
        Some(("0x77d4b54e91822e9799ab0900876d6b1cda752706"@, 1u64, 1000u64))
    } else if command == "!axo"@ || command == "!jiwa"@ {
        Some((ab, 480000000u64, 480000399u64))
    } else if command == "!chimera"@ {
        Some((curated, 233000000u64, 233000986u64))
    } else if command == "!watercolor"@ {
        Some((curated, 59000000u64, 59000599u64))
    } else if command == "!pig"@ {
        Some((curated, 129000000u64, 129001023u64))
    } else if command == "!run"@ {
        Some((curated, 138000000u64, 138000999u64))
    } else if command == "!vortex"@ || command == "!v"@ {
        Some((curated, 225000000u64, 225000999u64))
    } else if command == "!memories"@ || command == "!m"@ {
        Some((ab, 428000000u64, 428000449u64))
    } else if command == "!steviep"@ || command == "!dopamine"@ || command == "!d"@ {
        Some((ab, 457000000u64, 457000776u64))
    } else {
        None
    }
}

fn collection(contract: &str, lower_bound: u64, upper_bound: u64) -> (c: ArtBlocksCollection)
    ensures
        c.contract@ == contract@,
        c.lower_bound == lower_bound,
        c.upper_bound == upper_bound,
{
    ArtBlocksCollection { contract: owned(contract), lower_bound, upper_bound }
}

/// The collection a command shows a random token of, if it names one.
pub fn find_collection(command: &str) -> (r: Option<ArtBlocksCollection>)
    ensures
        match r {
            Some(c) => collection_of(command@) == Some(
                (c.contract@, c.lower_bound, c.upper_bound),
            ),
            None => collection_of(command@) is None,
        },
{
    let ab = "0x99a9b7c1116f9ceeb1652de04d5969cce509b069";
    let curated = "0xa7d8d9ef8d8ce8992df33d8b8cf4aebabd5bd270";
    if str_eq(command, "!dca") || str_eq(command, "!heart") {
        Some(collection("0x77d4b54e91822e9799ab0900876d6b1cda752706", 1, 1000))
    } else if str_eq(command, "!axo") || str_eq(command, "!jiwa") {
        Some(collection(ab, 480000000, 480000399))
    } else if str_eq(command, "!chimera") {
        Some(collection(curated, 233000000, 233000986))
    } else if str_eq(command, "!watercolor") {
        Some(collection(curated, 59000000, 59000599))
    } else if str_eq(command, "!pig") {
        Some(collection(curated, 129000000, 129001023))
    } else if str_eq(command, "!run") {
        Some(collection(curated, 138000000, 138000999))
    } else if str_eq(command, "!vortex") || str_eq(command, "!v") {
        Some(collection(curated, 225000000, 225000999))
    } else if str_eq(command, "!memories") || str_eq(command, "!m") {
        Some(collection(ab, 428000000, 428000449))
    } else if str_eq(command, "!steviep") || str_eq(command, "!dopamine") || str_eq(command, "!d") {
        Some(collection(ab, 457000000, 457000776))
    } else {
        None
    }
}

/// The generator page of an Art Blocks token.
pub open spec fn art_blocks_url_spec(token_id: Seq<char>) -> Seq<char> {
    "https://generator.artblocks.io/0x99a9b7c1116f9ceeb1652de04d5969cce509b069/"@ + token_id
}

/// Whether a message is `!ab` without the token it needs (which the
/// command cannot run on).
pub open spec fn art_blocks_without_token(words: Seq<Seq<char>>) -> bool {
    words[0] == "!ab"@ && words.len() < 2
}

/// What the words of a background chat command ask for.
pub open spec fn background_command_spec(
    words: Seq<Seq<char>>,
    user_name: Seq<char>,
    is_sub: bool,
) -> BackgroundCommandView {
    let command = words[0];
    if command == "!ab"@ {
        BackgroundCommandView::ShowArtBlocksToken { url: art_blocks_url_spec(words[1]) }
    } else if collection_of(command) is Some {
        let (contract, lower_bound, upper_bound) = collection_of(command)->0;
        BackgroundCommandView::RandomArtBlocks { contract, lower_bound, upper_bound }
    } else if command == "!bogan"@ {
        if is_sub {
            BackgroundCommandView::Bogan
        } else {
            BackgroundCommandView::Nothing
        }
    } else if command == "!picasso"@ || command == "!sd"@ {
        BackgroundCommandView::StableDiffusion { prompt: words_after(words, 1) }
    } else if command == "!dalle"@ {
        if is_streamer(user_name) {
            BackgroundCommandView::Dalle { prompt: words_after(words, 1) }
        } else {
            BackgroundCommandView::Nothing
        }
    } else {
        BackgroundCommandView::Nothing
    }
}

/// Decides what the words of a background chat command ask for.
pub fn handle_stream_background_commands(splitmsg: &Vec<String>, user_name: &str, is_sub: bool) -> (r:
    BackgroundCommand)
    requires
        splitmsg@.len() > 0,
        !art_blocks_without_token(views(splitmsg@)),
    ensures
        r@ == background_command_spec(views(splitmsg@), user_name@, is_sub),
{
    let ghost words = views(splitmsg@);
    assert(words[0] == splitmsg@[0]@);
    assert(splitmsg@.len() > 1 ==> words[1] == splitmsg@[1]@);
    let command = splitmsg[0].as_str();
    if str_eq(command, "!ab") {
        let url = concat(
            "https://generator.artblocks.io/0x99a9b7c1116f9ceeb1652de04d5969cce509b069/",
            splitmsg[1].as_str(),
        );
        BackgroundCommand::ShowArtBlocksToken { url }
    } else if let Some(c) = find_collection(command) {
        BackgroundCommand::RandomArtBlocks(c)
    } else if str_eq(command, "!bogan") {
        if is_sub {
            BackgroundCommand::Bogan
        } else {
            BackgroundCommand::Nothing
        }
    } else if str_eq(command, "!picasso") || str_eq(command, "!sd") {
        BackgroundCommand::StableDiffusion { prompt: join_after(splitmsg, 1) }
    } else if str_eq(command, "!dalle") {
        if is_streamer_name(user_name) {
            BackgroundCommand::Dalle { prompt: join_after(splitmsg, 1) }
        } else {
            BackgroundCommand::Nothing
        }
    } else {
        BackgroundCommand::Nothing
    }
}

/// Only subscribers make bogan images and only the streamer draws
/// backgrounds with DALL·E.
pub proof fn background_privileges(words: Seq<Seq<char>>, user_name: Seq<char>, is_sub: bool)
    requires
        words.len() > 0,
    ensures
        background_command_spec(words, user_name, is_sub) is Bogan ==> is_sub,
        background_command_spec(words, user_name, is_sub) is Dalle ==> is_streamer(user_name),
{
}


/// The background commands read their words: `!ab TOKEN` shows that Art
/// Blocks token's generator page; `!picasso TEXT` and `!sd TEXT` draw the
/// words after the command with Stable Diffusion, and `!dalle TEXT` with
/// DALL·E for the streamer; `!bogan` is for subscribers.
pub proof fn background_commands_read_their_words(
    words: Seq<Seq<char>>,
    user_name: Seq<char>,
    is_sub: bool,
)
    requires
        words.len() > 0,
    ensures
        ({
            let r = background_command_spec(words, user_name, is_sub);
            &&& words[0] == "!ab"@ && words.len() > 1 ==> r == BackgroundCommandView::ShowArtBlocksToken {
                url: "https://generator.artblocks.io/0x99a9b7c1116f9ceeb1652de04d5969cce509b069/"@
                    + words[1],
            }
            &&& (words[0] == "!picasso"@ || words[0] == "!sd"@) ==> r
                == BackgroundCommandView::StableDiffusion { prompt: join_spec(words.skip(1), " "@) }
            &&& words[0] == "!dalle"@ ==> r == (if is_streamer(user_name) {
                BackgroundCommandView::Dalle { prompt: join_spec(words.skip(1), " "@) }
            } else {
                BackgroundCommandView::Nothing
            })
            &&& words[0] == "!bogan"@ ==> r == (if is_sub {
                BackgroundCommandView::Bogan
            } else {
                BackgroundCommandView::Nothing
            })
        }),
{
    reveal_strlit("!ab");
    reveal_strlit("!dca");
    reveal_strlit("!heart");
    reveal_strlit("!axo");
    reveal_strlit("!jiwa");
    reveal_strlit("!chimera");
    reveal_strlit("!watercolor");
    reveal_strlit("!pig");
    reveal_strlit("!run");
    reveal_strlit("!vortex");
    reveal_strlit("!v");
    reveal_strlit("!memories");
    reveal_strlit("!m");
    reveal_strlit("!steviep");
    reveal_strlit("!dopamine");
    reveal_strlit("!d");
    reveal_strlit("!bogan");
    reveal_strlit("!picasso");
    reveal_strlit("!sd");
    reveal_strlit("!dalle");
    assert("!ab"@.len() == 3 && "!ab"@[1] == 'a');
    assert("!dca"@.len() == 4 && "!dca"@[1] == 'd');
    assert("!heart"@.len() == 6 && "!heart"@[1] == 'h');
    assert("!axo"@.len() == 4 && "!axo"@[1] == 'a');
    assert("!jiwa"@.len() == 5 && "!jiwa"@[1] == 'j');
    assert("!chimera"@.len() == 8 && "!chimera"@[1] == 'c');
    assert("!watercolor"@.len() == 11 && "!watercolor"@[1] == 'w');
    assert("!pig"@.len() == 4 && "!pig"@[1] == 'p');
    assert("!run"@.len() == 4 && "!run"@[1] == 'r');
    assert("!vortex"@.len() == 7 && "!vortex"@[1] == 'v');
    assert("!v"@.len() == 2 && "!v"@[1] == 'v');
    assert("!memories"@.len() == 9 && "!memories"@[1] == 'm');
    assert("!m"@.len() == 2 && "!m"@[1] == 'm');
    assert("!steviep"@.len() == 8 && "!steviep"@[1] == 's');
    assert("!dopamine"@.len() == 9 && "!dopamine"@[1] == 'd');
    assert("!d"@.len() == 2 && "!d"@[1] == 'd');
    assert("!bogan"@.len() == 6 && "!bogan"@[1] == 'b');
    assert("!picasso"@.len() == 8 && "!picasso"@[1] == 'p');
    assert("!sd"@.len() == 3 && "!sd"@[1] == 's');
    assert("!dalle"@.len() == 6 && "!dalle"@[1] == 'd');
    assert(words.len() == 1 ==> words.skip(1) =~= Seq::<Seq<char>>::empty());
}

/// Each collection command shows a token of its own project, drawn from
/// that project's range of token numbers, which is never empty.
pub proof fn collections_have_their_ranges(command: Seq<char>)
    ensures
        collection_of(command) matches Some((contract, lower, upper)) ==> lower <= upper,
        (command == "!dca"@ || command == "!heart"@) ==> collection_of(command) == Some(
            ("0x77d4b54e91822e9799ab0900876d6b1cda752706"@, 1u64, 1000u64),
        ),
        (command == "!axo"@ || command == "!jiwa"@) ==> collection_of(command) == Some(
            ("0x99a9b7c1116f9ceeb1652de04d5969cce509b069"@, 480000000u64, 480000399u64),
        ),
        command == "!chimera"@ ==> collection_of(command) == Some(
            ("0xa7d8d9ef8d8ce8992df33d8b8cf4aebabd5bd270"@, 233000000u64, 233000986u64),
        ),
        command == "!watercolor"@ ==> collection_of(command) == Some(
            ("0xa7d8d9ef8d8ce8992df33d8b8cf4aebabd5bd270"@, 59000000u64, 59000599u64),
        ),
        command == "!pig"@ ==> collection_of(command) == Some(
            ("0xa7d8d9ef8d8ce8992df33d8b8cf4aebabd5bd270"@, 129000000u64, 129001023u64),
        ),
        command == "!run"@ ==> collection_of(command) == Some(
            ("0xa7d8d9ef8d8ce8992df33d8b8cf4aebabd5bd270"@, 138000000u64, 138000999u64),
        ),
        (command == "!vortex"@ || command == "!v"@) ==> collection_of(command) == Some(
            ("0xa7d8d9ef8d8ce8992df33d8b8cf4aebabd5bd270"@, 225000000u64, 225000999u64),
        ),
        (command == "!memories"@ || command == "!m"@) ==> collection_of(command) == Some(
            ("0x99a9b7c1116f9ceeb1652de04d5969cce509b069"@, 428000000u64, 428000449u64),
        ),
        (command == "!steviep"@ || command == "!dopamine"@ || command == "!d"@)
            ==> collection_of(command) == Some(
            ("0x99a9b7c1116f9ceeb1652de04d5969cce509b069"@, 457000000u64, 457000776u64),
        ),
{
    reveal_strlit("!dca");
    reveal_strlit("!heart");
    reveal_strlit("!axo");
    reveal_strlit("!jiwa");
    reveal_strlit("!chimera");
    reveal_strlit("!watercolor");
    reveal_strlit("!pig");
    reveal_strlit("!run");
    reveal_strlit("!vortex");
    reveal_strlit("!v");
    reveal_strlit("!memories");
    reveal_strlit("!m");
    reveal_strlit("!steviep");
    reveal_strlit("!dopamine");
    reveal_strlit("!d");
    assert("!dca"@.len() == 4 && "!dca"@[1] == 'd');
    assert("!heart"@.len() == 6 && "!heart"@[1] == 'h');
    assert("!axo"@.len() == 4 && "!axo"@[1] == 'a');
    assert("!jiwa"@.len() == 5 && "!jiwa"@[1] == 'j');
    assert("!chimera"@.len() == 8 && "!chimera"@[1] == 'c');
    assert("!watercolor"@.len() == 11 && "!watercolor"@[1] == 'w');
    assert("!pig"@.len() == 4 && "!pig"@[1] == 'p');
    assert("!run"@.len() == 4 && "!run"@[1] == 'r');
    assert("!vortex"@.len() == 7 && "!vortex"@[1] == 'v');
    assert("!v"@.len() == 2 && "!v"@[1] == 'v');
    assert("!memories"@.len() == 9 && "!memories"@[1] == 'm');
    assert("!m"@.len() == 2 && "!m"@[1] == 'm');
    assert("!steviep"@.len() == 8 && "!steviep"@[1] == 's');
    assert("!dopamine"@.len() == 9 && "!dopamine"@[1] == 'd');
    assert("!d"@.len() == 2 && "!d"@[1] == 'd');
}

} // verus!
