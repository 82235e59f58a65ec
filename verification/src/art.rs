//! Fetching album art: from the cache where it is there, by download otherwise.
use std::path::PathBuf;
use vstd::prelude::*;
use vstd::string::*;

use crate::command::{download_command, download_of, Command, CommandView};
use crate::paths::{art_cache_names, art_cache_path, is_cache_dir, path_names};

verus! {

/// What fetching art needs done next.
pub enum FetchStep {
    /// Find out whether the cache file exists.
    LookUp { url: String, cache: PathBuf },
    /// Run the download and collect what it prints.
    Download { command: Command, cache: PathBuf },
    /// Create the directory of the cache file and write the bytes to the file.
    Store { cache: PathBuf, bytes: Vec<u8> },
    /// Fetching is over: the file with the art, if it could be had.
    Done(Option<PathBuf>),
}

/// A step of fetching as plain mathematical values.
pub enum FetchStepView {
    LookUp { url: Seq<char>, cache: PathBuf },
    Download { command: CommandView, cache: PathBuf },
    Store { cache: PathBuf, bytes: Seq<u8> },
    Done(Option<PathBuf>),
}

impl View for FetchStep {
    type V = FetchStepView;

    open spec fn view(&self) -> FetchStepView {
        match self {
            FetchStep::LookUp { url, cache } => FetchStepView::LookUp { url: url@, cache: *cache },
            FetchStep::Download { command, cache } => FetchStepView::Download {
                command: command@,
                cache: *cache,
            },
            FetchStep::Store { cache, bytes } => FetchStepView::Store {
                cache: *cache,
                bytes: bytes@,
            },
            FetchStep::Done(path) => FetchStepView::Done(*path),
        }
    }
}

/// How a step went.
pub enum FetchReply {
    /// Whether the cache file exists.
    Exists(bool),
    /// The download ran: whether it succeeded, and what it printed.
    Output { success: bool, stdout: Vec<u8> },
    /// Whether the bytes were written.
    Written(bool),
    /// The download could not be run.
    Failed,
}

/// A reply as plain mathematical values.
pub enum FetchReplyView {
    Exists(bool),
    Output { success: bool, stdout: Seq<u8> },
    Written(bool),
    Failed,
}

impl View for FetchReply {
    type V = FetchReplyView;

    open spec fn view(&self) -> FetchReplyView {
        match self {
            FetchReply::Exists(b) => FetchReplyView::Exists(*b),
            FetchReply::Output { success, stdout } => FetchReplyView::Output {
                success: *success,
                stdout: stdout@,
            },
            FetchReply::Written(b) => FetchReplyView::Written(*b),
            FetchReply::Failed => FetchReplyView::Failed,
        }
    }
}

/// The step that follows a reply. A cached file is used as it is. Otherwise what a
/// successful download printed is stored, unless it printed nothing. Whatever else
/// comes back, there is no art.
pub open spec fn next_fetch(step: FetchStepView, reply: FetchReplyView) -> FetchStepView {
    match (step, reply) {
        (FetchStepView::LookUp { url, cache }, FetchReplyView::Exists(exists)) => if exists {
            FetchStepView::Done(Some(cache))
        } else {
            FetchStepView::Download { command: download_of(url), cache }
        },
        (FetchStepView::Download { cache, .. }, FetchReplyView::Output { success, stdout }) => if success
            && stdout.len() > 0 {
            FetchStepView::Store { cache, bytes: stdout }
        } else {
            FetchStepView::Done(None)
        },
        (FetchStepView::Store { cache, .. }, FetchReplyView::Written(true)) => FetchStepView::Done(
            Some(cache),
        ),
        (FetchStepView::Done(path), _) => FetchStepView::Done(path),
        _ => FetchStepView::Done(None),
    }
}

/// Begins to fetch the art at `url` into the file `cache`.
pub fn fetch_art_into(url: String, cache: PathBuf) -> (step: FetchStep)
    ensures
        step@ == (FetchStepView::LookUp { url: url@, cache }),
{
    FetchStep::LookUp { url, cache }
}

/// Begins to fetch the art at `url` into its file in the cache of the user.
pub fn fetch_art(url: String) -> (step: FetchStep)
    ensures
        exists|cache: PathBuf, dir: Option<PathBuf>|
            step@ == (FetchStepView::LookUp { url: url@, cache }) && is_cache_dir(dir)
                && #[trigger] path_names(cache) == #[trigger] art_cache_names(dir, url@),
{
    let cache = art_cache_path(url.as_str());
    let ghost dir = choose|dir: Option<PathBuf>|
        is_cache_dir(dir) && path_names(cache) == #[trigger] art_cache_names(dir, url@);
    let ghost c = cache;
    assert(is_cache_dir(dir) && path_names(c) == art_cache_names(dir, url@));
    fetch_art_into(url, cache)
}

/// Takes the outcome of a step and decides on the next.
pub fn fetch_next(step: FetchStep, reply: FetchReply) -> (next: FetchStep)
    ensures
        next@ == next_fetch(step@, reply@),
{
    match step {
        FetchStep::LookUp { url, cache } => match reply {
            FetchReply::Exists(exists) => if exists {
                FetchStep::Done(Some(cache))
            } else {
                FetchStep::Download { command: download_command(url.as_str()), cache }
            },
            _ => FetchStep::Done(None),
        },
        FetchStep::Download { command: _, cache } => match reply {
            FetchReply::Output { success, stdout } => if success && stdout.len() > 0 {
                FetchStep::Store { cache, bytes: stdout }
            } else {
                FetchStep::Done(None)
            },
            _ => FetchStep::Done(None),
        },
        FetchStep::Store { cache, bytes: _ } => match reply {
            FetchReply::Written(ok) => if ok {
                FetchStep::Done(Some(cache))
            } else {
                FetchStep::Done(None)
            },
            _ => FetchStep::Done(None),
        },
        FetchStep::Done(path) => FetchStep::Done(path),
    }
}

/// The step reached after the replies, when the art at `url` is fetched into `cache`.
pub open spec fn after_fetch_replies(
    url: Seq<char>,
    cache: PathBuf,
    replies: Seq<FetchReplyView>,
) -> FetchStepView
    decreases replies.len(),
{
    if replies.len() == 0 {
        FetchStepView::LookUp { url, cache }
    } else {
        next_fetch(after_fetch_replies(url, cache, replies.drop_last()), replies.last())
    }
}

/// Fetching is over after three replies, whatever they are.
pub proof fn law_fetch_ends(url: Seq<char>, cache: PathBuf, replies: Seq<FetchReplyView>)
    requires
        replies.len() >= 3,
    ensures
        after_fetch_replies(url, cache, replies) is Done,
    decreases replies.len(),
{
    reveal_with_fuel(after_fetch_replies, 4);
    if replies.len() > 3 {
        law_fetch_ends(url, cache, replies.drop_last());
    }
}

/// The file that fetching hands out is the cache file of the address, and it is handed
/// out only where that file was found or has just been written.
pub proof fn law_fetched_file_is_cache_file(
    url: Seq<char>,
    cache: PathBuf,
    replies: Seq<FetchReplyView>,
)
    ensures
        after_fetch_replies(url, cache, replies) matches FetchStepView::Done(Some(path)) ==> path
            == cache && (replies.contains(FetchReplyView::Exists(true)) || replies.contains(
            FetchReplyView::Written(true),
        )),
    decreases replies.len(),
{
    if replies.len() > 0 {
        let before = replies.drop_last();
        law_fetched_file_is_cache_file(url, cache, before);
        lemma_fetch_keeps_cache(url, cache, before);
        let r = FetchReplyView::Exists(true);
        let w = FetchReplyView::Written(true);
        if before.contains(r) {
            let i = choose|i: int| 0 <= i < before.len() && before[i] == r;
            assert(replies[i] == r);
        }
        if before.contains(w) {
            let i = choose|i: int| 0 <= i < before.len() && before[i] == w;
            assert(replies[i] == w);
        }
        assert(replies[replies.len() - 1] == replies.last());
    }
}

/// Every step of a fetch is about the cache file that it began with.
proof fn lemma_fetch_keeps_cache(url: Seq<char>, cache: PathBuf, replies: Seq<FetchReplyView>)
    ensures
        (match after_fetch_replies(url, cache, replies) {
            FetchStepView::LookUp { url: u, cache: c } => u == url && c == cache,
            FetchStepView::Download { command, cache: c } => command == download_of(url) && c
                == cache,
            FetchStepView::Store { cache: c, bytes } => c == cache && bytes.len() > 0,
            FetchStepView::Done(_) => true,
        }),
    decreases replies.len(),
{
    if replies.len() > 0 {
        lemma_fetch_keeps_cache(url, cache, replies.drop_last());
    }
}

/// Art that is in the cache is not downloaded again: whatever else comes back, once
/// the file was found no step of the fetch is a download.
pub proof fn law_cached_art_is_not_downloaded(
    url: Seq<char>,
    cache: PathBuf,
    replies: Seq<FetchReplyView>,
)
    requires
        replies.len() > 0,
        replies[0] == FetchReplyView::Exists(true),
    ensures
        after_fetch_replies(url, cache, replies) == FetchStepView::Done(Some(cache)),
    decreases replies.len(),
{
    reveal_with_fuel(after_fetch_replies, 2);
    if replies.len() > 1 {
        law_cached_art_is_not_downloaded(url, cache, replies.drop_last());
    }
}

/// What is stored is what the download of this address printed, and never nothing.
pub proof fn law_stored_bytes_were_downloaded(
    url: Seq<char>,
    cache: PathBuf,
    replies: Seq<FetchReplyView>,
)
    ensures
        after_fetch_replies(url, cache, replies) matches FetchStepView::Store { cache: c, bytes }
            ==> c == cache && bytes.len() > 0 && replies.len() > 0 && replies.last() == (
        FetchReplyView::Output { success: true, stdout: bytes }) && after_fetch_replies(
            url,
            cache,
            replies.drop_last(),
        ) == (FetchStepView::Download { command: download_of(url), cache }),
{
    if replies.len() > 0 {
        lemma_fetch_keeps_cache(url, cache, replies.drop_last());
    }
}

/// A download that succeeded and printed at least one byte is followed by storing
/// exactly those bytes in the cache file, and once they are written the file is handed
/// out.
pub proof fn law_downloaded_art_is_stored(url: Seq<char>, cache: PathBuf, bytes: Seq<u8>)
    requires
        bytes.len() > 0,
    ensures
        after_fetch_replies(
            url,
            cache,
            seq![
                FetchReplyView::Exists(false),
                FetchReplyView::Output { success: true, stdout: bytes },
            ],
        ) == (FetchStepView::Store { cache, bytes }),
        after_fetch_replies(
            url,
            cache,
            seq![
                FetchReplyView::Exists(false),
                FetchReplyView::Output { success: true, stdout: bytes },
                FetchReplyView::Written(true),
            ],
        ) == FetchStepView::Done(Some(cache)),
        after_fetch_replies(
            url,
            cache,
            seq![
                FetchReplyView::Exists(false),
                FetchReplyView::Output { success: true, stdout: bytes },
                FetchReplyView::Written(false),
            ],
        ) == FetchStepView::Done(None),
{
    reveal_with_fuel(after_fetch_replies, 4);
    let e = FetchReplyView::Exists(false);
    let o = FetchReplyView::Output { success: true, stdout: bytes };
    let w = FetchReplyView::Written(true);
    let n = FetchReplyView::Written(false);
    assert(seq![e].drop_last() =~= seq![]);
    assert(seq![e, o].drop_last() =~= seq![e]);
    assert(seq![e, o, w].drop_last() =~= seq![e, o]);
    assert(seq![e, o, n].drop_last() =~= seq![e, o]);
}

/// A fetch first looks for the cache file. A file that is there is handed out; for one
/// that is not, `curl` is asked for the address.
pub proof fn law_missing_art_is_downloaded(url: Seq<char>, cache: PathBuf)
    ensures
        after_fetch_replies(url, cache, seq![]) == (FetchStepView::LookUp { url, cache }),
        after_fetch_replies(url, cache, seq![FetchReplyView::Exists(true)]) == FetchStepView::Done(
            Some(cache),
        ),
        ({
            let step = after_fetch_replies(url, cache, seq![FetchReplyView::Exists(false)]);
            &&& step is Download
            &&& step->Download_cache == cache
            &&& step->Download_command.program == "curl"@
            &&& step->Download_command.args == seq!["-s"@, "--max-time"@, "10"@, "-L"@, url]
            &&& step->Download_command.env.len() == 0
        }),
{
    reveal_with_fuel(after_fetch_replies, 3);
    assert(seq![FetchReplyView::Exists(true)].drop_last() =~= seq![]);
    assert(seq![FetchReplyView::Exists(false)].drop_last() =~= seq![]);
}

/// A download that could not be run, failed, or printed nothing gives no art.
pub proof fn law_failed_download_gives_no_art(url: Seq<char>, cache: PathBuf, reply: FetchReplyView)
    requires
        !(reply matches FetchReplyView::Output { success, stdout } && success && stdout.len() > 0),
    ensures
        after_fetch_replies(url, cache, seq![FetchReplyView::Exists(false), reply])
            == FetchStepView::Done(None),
{
    reveal_with_fuel(after_fetch_replies, 4);
    assert(seq![FetchReplyView::Exists(false)].drop_last() =~= seq![]);
    assert(seq![FetchReplyView::Exists(false), reply].drop_last() =~= seq![
        FetchReplyView::Exists(false),
    ]);
}

/// Once a fetch is over, no later reply changes its result.
pub proof fn law_fetch_result_is_final(path: Option<PathBuf>, reply: FetchReplyView)
    ensures
        next_fetch(FetchStepView::Done(path), reply) == FetchStepView::Done(path),
{
}

/// What the next step is about does not depend on the command that was run, nor on the
/// bytes that were stored: each step hands its cache file on.
pub proof fn law_fetch_hands_cache_on(
    command: CommandView,
    cache: PathBuf,
    bytes: Seq<u8>,
    stored: Seq<u8>,
)
    requires
        bytes.len() > 0,
    ensures
        next_fetch(
            FetchStepView::Download { command, cache },
            FetchReplyView::Output { success: true, stdout: bytes },
        ) == (FetchStepView::Store { cache, bytes }),
        next_fetch(
            FetchStepView::Store { cache, bytes: stored },
            FetchReplyView::Written(true),
        ) == FetchStepView::Done(Some(cache)),
{
}

/// After a download that succeeded and printed something, what it printed is stored in
/// the cache file; any other outcome of a download ends the fetch without art.
pub proof fn law_download_outcome_decides(step: FetchStep, reply: FetchReply, next: FetchStep)
    requires
        call_ensures(fetch_next, (step, reply), next),
        step is Download,
    ensures
        reply matches FetchReply::Output { success, stdout } ==> success && stdout@.len() > 0
            ==> next is Store && next->Store_cache == step->Download_cache && next->bytes@
            == stdout@,
        !(reply matches FetchReply::Output { success, stdout } && success && stdout@.len() > 0)
            ==> next is Done && next->Done_0 is None,
{
    assert(next@ is Store || next@ is Done);
}

/// A fetch begins by looking for the cache file that it is given, for the address that
/// it is given.
pub proof fn law_fetch_begins_with_look_up(url: String, cache: PathBuf, step: FetchStep)
    requires
        call_ensures(fetch_art_into, (url, cache), step),
    ensures
        step matches FetchStep::LookUp { url: u, cache: c } && u@ == url@ && c == cache,
{
}

} // verus!
