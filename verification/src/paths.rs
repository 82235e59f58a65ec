//! Where the applet keeps its files.
//!
//! A path is seen here as the sequence of its component names. The directories that
//! the system offers come from the `dirs` crate, and everything below them is decided
//! by the functions of this module.
use std::collections::hash_map::DefaultHasher;
use std::hash::Hash;
use std::path::PathBuf;
use vstd::prelude::*;
use vstd::std_specs::hash::DefaultHasherAdditionalSpecFns;
use vstd::string::*;

use crate::text::{
    digit_value, joined, law_numeral_injective, law_numeral_reads_back, numeral, numeral_text,
    read_back,
};

verus! {

/// `std::path::PathBuf`, carried as an opaque value.
#[verifier::external_type_specification]
#[verifier::external_body]
pub struct ExPathBuf(PathBuf);

/// The names of the components of a path, in order, as `Path::components` lists them
/// and `OsStr::to_string_lossy` spells them.
pub uninterp spec fn path_names(path: PathBuf) -> Seq<Seq<char>>;

/// The byte strings that `str::hash` feeds to a hasher for `text`.
pub uninterp spec fn hash_writes(text: Seq<char>) -> Seq<Seq<u8>>;

/// `dirs::config_dir`: the configuration directory of the user. It is read from the
/// environment, so nothing is claimed of it.
pub assume_specification[ dirs::config_dir ]() -> (dir: Option<PathBuf>);

/// `dirs::cache_dir`: the cache directory of the user. It is read from the
/// environment, so nothing is claimed of it.
pub assume_specification[ dirs::cache_dir ]() -> (dir: Option<PathBuf>);

/// The pieces of a text between its slashes.
pub open spec fn pieces(text: Seq<char>) -> Seq<Seq<char>>
    decreases text.len(),
{
    if text.len() == 0 {
        seq![Seq::empty()]
    } else {
        let before = pieces(text.drop_last());
        if text.last() == '/' {
            before.push(Seq::empty())
        } else {
            before.drop_last().push(before.last().push(text.last()))
        }
    }
}

/// Picks the pieces that name a component: repeated and trailing slashes name none, nor
/// does a dot.
pub open spec fn names_component() -> spec_fn(Seq<char>) -> bool {
    |piece: Seq<char>| piece.len() > 0 && piece != "."@
}

/// The component names of a path written as `text`: the root where the text begins with
/// a slash, then the pieces between the slashes.
pub open spec fn names_of_text(text: Seq<char>) -> Seq<Seq<char>> {
    let root = if text.len() > 0 && text[0] == '/' {
        seq!["/"@]
    } else {
        seq![]
    };
    root + pieces(text).filter(names_component())
}

/// `PathBuf::from` for a string, on Unix: the path has the component names that the text
/// spells. A text that begins with the component `.` is left out: there the dot is a
/// component too.
#[verifier::external_body]
fn path_from(text: &str) -> (path: PathBuf)
    requires
        pieces(text@)[0] != "."@,
    ensures
        path_names(path) == names_of_text(text@),
{
    PathBuf::from(text)
}

/// A name that stands for one component of a path: not empty, without a separator,
/// and neither of the names that point back to a directory.
pub open spec fn is_plain_name(name: Seq<char>) -> bool {
    &&& name.len() > 0
    &&& !name.contains('/')
    &&& name != "."@
    &&& name != ".."@
}

/// `PathBuf::push` on Unix: a plain name becomes one more component at the end.
#[verifier::external_body]
fn push_name(path: &mut PathBuf, name: &str)
    requires
        is_plain_name(name@),
    ensures
        path_names(*final(path)) == path_names(*old(path)).push(name@),
{
    path.push(name);
}

/// `str::hash`: the hasher takes the byte strings that stand for the text.
#[verifier::external_body]
fn hash_text(text: &str, hasher: &mut DefaultHasher)
    ensures
        final(hasher)@ == old(hasher)@ + hash_writes(text@),
{
    text.hash(hasher);
}

/// The directory of the applet below the configuration and the cache directory.
pub const APP_DIR: &'static str = "cosmic-ext-applet-spotify";

/// The file that holds the settings.
pub const CONFIG_FILE: &'static str = "config.json";

/// The name of the file in which the art at `url` is cached: the hash of the address
/// in hexadecimal, with the ending of an image.
pub open spec fn art_file_name(url: Seq<char>) -> Seq<char> {
    numeral(DefaultHasher::spec_finish(hash_writes(url)) as nat, 16) + ".jpg"@
}

/// The component names of the settings file, with `dir` as configuration directory.
pub open spec fn config_names(dir: Option<PathBuf>) -> Seq<Seq<char>> {
    let base = match dir {
        Some(d) => path_names(d),
        None => seq!["~"@, ".config"@],
    };
    base.push(APP_DIR@).push(CONFIG_FILE@)
}

/// The component names of the cache file for the art at `url`, with `dir` as cache
/// directory.
pub open spec fn art_cache_names(dir: Option<PathBuf>, url: Seq<char>) -> Seq<Seq<char>> {
    let base = match dir {
        Some(d) => path_names(d),
        None => seq!["/"@, "tmp"@],
    };
    base.push(APP_DIR@).push(art_file_name(url))
}

/// The settings file below `dir`, or below `~/.config` where there is none.
pub fn config_path_in(dir: Option<PathBuf>) -> (path: PathBuf)
    ensures
        path_names(path) == config_names(dir),
{
    let mut path = match dir {
        Some(d) => d,
        None => {
            proof {
                lemma_fallback_names();
            }
            path_from("~/.config")
        },
    };
    proof {
        lemma_fixed_names_plain();
    }
    push_name(&mut path, APP_DIR);
    push_name(&mut path, CONFIG_FILE);
    path
}

/// Whether `dir` is an answer of `dirs::config_dir`.
pub open spec fn is_config_dir(dir: Option<PathBuf>) -> bool {
    call_ensures(dirs::config_dir, (), dir)
}

/// Whether `dir` is an answer of `dirs::cache_dir`.
pub open spec fn is_cache_dir(dir: Option<PathBuf>) -> bool {
    call_ensures(dirs::cache_dir, (), dir)
}

/// Asks for a directory.
fn answer_of<F: Fn() -> Option<PathBuf>>(ask: F) -> (dir: Option<PathBuf>)
    requires
        call_requires(ask, ()),
    ensures
        call_ensures(ask, (), dir),
{
    ask()
}

/// The settings file of the user: the one below the directory that `dirs::config_dir`
/// answers.
pub fn config_path() -> (path: PathBuf)
    ensures
        exists|dir: Option<PathBuf>|
            is_config_dir(dir) && path_names(path) == #[trigger] config_names(dir),
{
    let dir = answer_of(dirs::config_dir);
    let ghost d = dir;
    let path = config_path_in(dir);
    assert(is_config_dir(d) && path_names(path) == config_names(d));
    path
}

/// The cache file for the art at `url` below `dir`, or below `/tmp` where there is
/// none.
pub fn art_cache_path_in(dir: Option<PathBuf>, url: &str) -> (path: PathBuf)
    ensures
        path_names(path) == art_cache_names(dir, url@),
{
    let mut hasher = DefaultHasher::new();
    hash_text(url, &mut hasher);
    let code: u64 = std::hash::Hasher::finish(&hasher);
    let name = joined(numeral_text(code, 16).as_str(), ".jpg");
    let mut path = match dir {
        Some(d) => d,
        None => {
            proof {
                lemma_fallback_names();
            }
            path_from("/tmp")
        },
    };
    proof {
        lemma_fixed_names_plain();
        law_art_file_name_is_plain(url@);
    }
    push_name(&mut path, APP_DIR);
    push_name(&mut path, name.as_str());
    path
}

/// The cache file for the art at `url`: the one below the directory that
/// `dirs::cache_dir` answers.
pub fn art_cache_path(url: &str) -> (path: PathBuf)
    ensures
        exists|dir: Option<PathBuf>|
            is_cache_dir(dir) && path_names(path) == #[trigger] art_cache_names(dir, url@),
{
    let dir = answer_of(dirs::cache_dir);
    let ghost d = dir;
    let path = art_cache_path_in(dir, url);
    assert(is_cache_dir(d) && path_names(path) == art_cache_names(d, url@));
    path
}

/// The components of the directories that stand in where the system offers none.
proof fn lemma_fallback_names()
    ensures
        pieces("~/.config"@)[0] != "."@,
        pieces("/tmp"@)[0] != "."@,
        names_of_text("~/.config"@) == seq!["~"@, ".config"@],
        names_of_text("/tmp"@) == seq!["/"@, "tmp"@],
{
    lemma_config_fallback_names();
    lemma_cache_fallback_names();
}

/// The components of the directory that stands in for the configuration directory.
proof fn lemma_config_fallback_names()
    ensures
        pieces("~/.config"@)[0] != "."@,
        names_of_text("~/.config"@) == seq!["~"@, ".config"@],
{
    reveal_strlit("~/.config");
    reveal_strlit("~");
    reveal_strlit(".config");
    reveal_strlit(".");
    let none = Seq::<char>::empty();
    assert("~/.config"@ =~= (none + "~"@).push('/') + ".config"@);
    assert(pieces(none) =~= seq![none]);
    lemma_pieces_extend(none, "~"@);
    lemma_pieces_push(none + "~"@, '/');
    lemma_pieces_extend((none + "~"@).push('/'), ".config"@);
    assert(none + "~"@ =~= "~"@);
    assert(none + ".config"@ =~= ".config"@);
    assert(pieces("~/.config"@) =~= seq!["~"@, ".config"@]);
    assert("~"@[0] != "."@[0]);
    assert(".config"@.len() == 7 && "."@.len() == 1);
    lemma_filter_pair("~"@, ".config"@, names_component());
    assert(names_of_text("~/.config"@) =~= seq!["~"@, ".config"@]);
}

/// The components of the directory that stands in for the cache directory.
proof fn lemma_cache_fallback_names()
    ensures
        pieces("/tmp"@)[0] != "."@,
        names_of_text("/tmp"@) == seq!["/"@, "tmp"@],
{
    reveal_strlit("/tmp");
    reveal_strlit("tmp");
    reveal_strlit(".");
    let none = Seq::<char>::empty();
    assert("/tmp"@ =~= none.push('/') + "tmp"@);
    assert(pieces(none) =~= seq![none]);
    lemma_pieces_push(none, '/');
    lemma_pieces_extend(none.push('/'), "tmp"@);
    assert(none + "tmp"@ =~= "tmp"@);
    assert(pieces("/tmp"@) =~= seq![none, "tmp"@]);
    assert("tmp"@.len() == 3 && "."@.len() == 1);
    lemma_filter_pair(none, "tmp"@, names_component());
    assert(names_of_text("/tmp"@) =~= seq!["/"@, "tmp"@]);
}

/// One more character extends the last piece, or begins a new one.
proof fn lemma_pieces_push(text: Seq<char>, c: char)
    ensures
        pieces(text.push(c)) == (if c == '/' {
            pieces(text).push(Seq::empty())
        } else {
            pieces(text).drop_last().push(pieces(text).last().push(c))
        }),
{
    assert(text.push(c).drop_last() =~= text);
}

/// A text has at least one piece.
proof fn lemma_pieces_nonempty(text: Seq<char>)
    ensures
        pieces(text).len() > 0,
    decreases text.len(),
{
    if text.len() > 0 {
        lemma_pieces_nonempty(text.drop_last());
    }
}

/// Characters other than slashes extend the last piece.
proof fn lemma_pieces_extend(text: Seq<char>, more: Seq<char>)
    requires
        forall|i: int| 0 <= i < more.len() ==> #[trigger] more[i] != '/',
    ensures
        pieces(text + more) == pieces(text).drop_last().push(pieces(text).last() + more),
    decreases more.len(),
{
    lemma_pieces_nonempty(text);
    let before = pieces(text);
    if more.len() == 0 {
        assert(text + more =~= text);
        assert(before.last() + more =~= before.last());
        assert(before.drop_last().push(before.last()) =~= before);
    } else {
        let rest = more.drop_last();
        lemma_pieces_extend(text, rest);
        assert((text + more).drop_last() =~= text + rest);
        assert(more.last() == more[more.len() - 1]);
        assert((text + more).last() == more.last());
        assert((before.last() + rest).push(more.last()) =~= before.last() + more);
        assert(pieces(text + rest).drop_last() =~= before.drop_last());
    }
}

/// What a filter keeps of two pieces.
proof fn lemma_filter_pair(a: Seq<char>, b: Seq<char>, p: spec_fn(Seq<char>) -> bool)
    requires
        p(b),
    ensures
        seq![a, b].filter(p) == (if p(a) {
            seq![a, b]
        } else {
            seq![b]
        }),
{
    reveal(Seq::filter);
    let none = Seq::<Seq<char>>::empty();
    assert(seq![a, b].drop_last() =~= seq![a]);
    assert(seq![a].drop_last() =~= none);
    assert(none.filter(p) =~= none);
    assert(seq![a].filter(p) =~= (if p(a) {
        seq![a]
    } else {
        none
    }));
    assert(seq![a, b].filter(p) =~= seq![a].filter(p).push(b));
}

/// The fixed names of the applet's directory and settings file are plain.
proof fn lemma_fixed_names_plain()
    ensures
        is_plain_name(APP_DIR@),
        is_plain_name(CONFIG_FILE@),
{
    reveal_strlit("cosmic-ext-applet-spotify");
    reveal_strlit("config.json");
    reveal_strlit(".");
    reveal_strlit("..");
    assert(APP_DIR@.len() == 25 && CONFIG_FILE@.len() == 11);
    assert("."@.len() == 1 && ".."@.len() == 2);
}

/// A hexadecimal numeral holds no path separator.
proof fn lemma_numeral_without_separator(n: nat)
    ensures
        !numeral(n, 16).contains('/'),
        numeral(n, 16).len() > 0,
    decreases n,
{
    reveal_strlit("0123456789abcdef");
    if n >= 16 {
        lemma_numeral_without_separator(n / 16);
        let rest = numeral(n / 16, 16);
        assert forall|i: int| 0 <= i < numeral(n, 16).len() implies numeral(n, 16)[i] != '/' by {
            if i < rest.len() {
                assert(rest.contains(rest[i]));
            }
        }
    }
}

/// Whatever the address, its cache file is named by one plain component: no address
/// leads out of the applet's cache directory.
pub proof fn law_art_file_name_is_plain(url: Seq<char>)
    ensures
        is_plain_name(art_file_name(url)),
{
    let code = DefaultHasher::spec_finish(hash_writes(url)) as nat;
    let stem = numeral(code, 16);
    let name = art_file_name(url);
    lemma_numeral_without_separator(code);
    reveal_strlit(".jpg");
    reveal_strlit(".");
    reveal_strlit("..");
    assert forall|i: int| 0 <= i < name.len() implies name[i] != '/' by {
        if i < stem.len() {
            assert(stem.contains(stem[i]));
        }
    }
    assert(name.len() >= 5);
    assert(name != "."@);
    assert(name != ".."@);
}

/// Below one cache directory two addresses share a cache file exactly when their
/// hashes agree.
pub proof fn law_art_cache_shared_iff_hash_equal(dir: Option<PathBuf>, a: Seq<char>, b: Seq<char>)
    ensures
        art_cache_names(dir, a) == art_cache_names(dir, b) <==> DefaultHasher::spec_finish(
            hash_writes(a),
        ) == DefaultHasher::spec_finish(hash_writes(b)),
{
    let x = DefaultHasher::spec_finish(hash_writes(a)) as nat;
    let y = DefaultHasher::spec_finish(hash_writes(b)) as nat;
    if art_cache_names(dir, a) == art_cache_names(dir, b) {
        assert(art_cache_names(dir, a).last() == art_file_name(a));
        assert(art_cache_names(dir, b).last() == art_file_name(b));
        reveal_strlit(".jpg");
        let n = art_file_name(a).len();
        assert(art_file_name(a).take(n - 4) =~= numeral(x, 16));
        assert(art_file_name(b).take(n - 4) =~= numeral(y, 16));
        law_numeral_injective(x, y, 16);
    }
}

/// Below one directory the settings file and a cache file are never the same file.
pub proof fn law_config_is_no_cache_file(dir: PathBuf, url: Seq<char>)
    ensures
        config_names(Some(dir)) != art_cache_names(Some(dir), url),
{
    if config_names(Some(dir)) == art_cache_names(Some(dir), url) {
        assert(config_names(Some(dir)).last() == CONFIG_FILE@);
        assert(art_cache_names(Some(dir), url).last() == art_file_name(url));
        reveal_strlit("config.json");
        reveal_strlit(".jpg");
        assert(CONFIG_FILE@.last() == 'n');
        assert(art_file_name(url).last() == 'g');
    }
}

/// The settings file is `config.json` in the applet's directory, below the
/// configuration directory, or below `~/.config` where there is none.
pub proof fn law_config_file_place(dir: Option<PathBuf>)
    ensures
        dir matches Some(d) ==> config_names(dir) == path_names(d) + seq![
            "cosmic-ext-applet-spotify"@,
            "config.json"@,
        ],
        dir is None ==> config_names(dir) == seq![
            "~"@,
            ".config"@,
            "cosmic-ext-applet-spotify"@,
            "config.json"@,
        ],
{
    match dir {
        Some(d) => {
            assert(config_names(dir) =~= path_names(d) + seq![
                "cosmic-ext-applet-spotify"@,
                "config.json"@,
            ]);
        },
        None => {
            assert(config_names(dir) =~= seq![
                "~"@,
                ".config"@,
                "cosmic-ext-applet-spotify"@,
                "config.json"@,
            ]);
        },
    }
}

/// The cache file stands in the applet's directory, below the cache directory, or below
/// `/tmp` where there is none. Its name is the hash of the address in hexadecimal, with
/// nothing before it and `.jpg` behind it.
pub proof fn law_art_cache_file_place(dir: Option<PathBuf>, url: Seq<char>)
    ensures
        ({
            let names = art_cache_names(dir, url);
            let n = names.len() as int;
            let name = names[n - 1];
            let stem = name.take(name.len() - 4);
            &&& n >= 2
            &&& dir matches Some(d) ==> names.take(n - 2) == path_names(d)
            &&& dir is None ==> names.take(n - 2) == seq!["/"@, "tmp"@]
            &&& names[n - 2] == "cosmic-ext-applet-spotify"@
            &&& name.len() > 4
            &&& name.skip(name.len() - 4) == seq!['.', 'j', 'p', 'g']
            &&& read_back(stem, 16) == DefaultHasher::spec_finish(hash_writes(url))
            &&& forall|i: int| 0 <= i < stem.len() ==> 0 <= digit_value(#[trigger] stem[i]) < 16
            &&& stem[0] == '0' ==> stem.len() == 1
        }),
{
    let names = art_cache_names(dir, url);
    let n = names.len() as int;
    let name = names[n - 1];
    let code = DefaultHasher::spec_finish(hash_writes(url)) as nat;
    law_numeral_reads_back(code, 16);
    reveal_strlit(".jpg");
    assert(name == art_file_name(url));
    assert(name.take(name.len() - 4) =~= numeral(code, 16));
    assert(name.skip(name.len() - 4) =~= seq!['.', 'j', 'p', 'g']);
    match dir {
        Some(d) => {
            assert(names.take(n - 2) =~= path_names(d));
        },
        None => {
            assert(names.take(n - 2) =~= seq!["/"@, "tmp"@]);
        },
    }
}

} // verus!
