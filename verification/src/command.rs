//! The programs that the applet runs.
use vstd::prelude::*;
use vstd::string::*;

verus! {

/// The Flatpak of Spotify.
pub const SPOTIFY_FLATPAK: &'static str = "com.spotify.Client";

/// The shell line that starts Spotify. Spotify runs once only: a second start tells
/// the running one to raise its window.
pub const RAISE_EXEC: &'static str = "flatpak run com.spotify.Client";

/// The environment variable that hands an activation token to a program.
pub const TOKEN_VARIABLE: &'static str = "XDG_ACTIVATION_TOKEN";

/// A program to run, its arguments, and what is added to its environment.
#[derive(Debug)]
pub struct Command {
    pub program: String,
    pub args: Vec<String>,
    pub env: Vec<(String, String)>,
}

/// A command as plain mathematical values.
#[verifier::ext_equal]
pub struct CommandView {
    pub program: Seq<char>,
    pub args: Seq<Seq<char>>,
    pub env: Seq<(Seq<char>, Seq<char>)>,
}

/// The characters of each text.
pub open spec fn texts(v: Seq<String>) -> Seq<Seq<char>> {
    v.map_values(|s: String| s@)
}

/// The characters of each pair of texts.
pub open spec fn text_pairs(v: Seq<(String, String)>) -> Seq<(Seq<char>, Seq<char>)> {
    v.map_values(|p: (String, String)| (p.0@, p.1@))
}

impl View for Command {
    type V = CommandView;

    open spec fn view(&self) -> CommandView {
        CommandView {
            program: self.program@,
            args: texts(self.args@),
            env: text_pairs(self.env@),
        }
    }
}

/// The command that downloads `url` and prints what it got.
pub open spec fn download_of(url: Seq<char>) -> CommandView {
    CommandView {
        program: "curl"@,
        args: seq!["-s"@, "--max-time"@, "10"@, "-L"@, url],
        env: seq![],
    }
}

/// The command that starts Spotify.
pub open spec fn launch() -> CommandView {
    CommandView { program: "flatpak"@, args: seq!["run"@, SPOTIFY_FLATPAK@], env: seq![] }
}

/// The command that runs a shell line, with an activation token where there is one.
pub open spec fn shell_line(line: Seq<char>, token: Option<Seq<char>>) -> CommandView {
    CommandView {
        program: "sh"@,
        args: seq!["-c"@, line],
        env: match token {
            Some(t) => seq![(TOKEN_VARIABLE@, t)],
            None => seq![],
        },
    }
}

/// Builds the download of `url`.
pub fn download_command(url: &str) -> (c: Command)
    ensures
        c@ == download_of(url@),
{
    let c = Command {
        program: "curl".to_string(),
        args: vec![
            "-s".to_string(),
            "--max-time".to_string(),
            "10".to_string(),
            "-L".to_string(),
            url.to_string(),
        ],
        env: Vec::new(),
    };
    assert(c@ =~= download_of(url@));
    c
}

/// Builds the start of Spotify.
pub fn launch_command() -> (c: Command)
    ensures
        c@ == launch(),
{
    let c = Command {
        program: "flatpak".to_string(),
        args: vec!["run".to_string(), SPOTIFY_FLATPAK.to_string()],
        env: Vec::new(),
    };
    assert(c@ =~= launch());
    c
}

/// Builds the run of a shell line with the activation token that was granted.
pub fn shell_command(line: String, token: Option<String>) -> (c: Command)
    ensures
        c@ == shell_line(line@, crate::player::opt_text(token)),
{
    let ghost text = line@;
    let ghost granted = crate::player::opt_text(token);
    let env: Vec<(String, String)> = match token {
        Some(t) => vec![(TOKEN_VARIABLE.to_string(), t)],
        None => Vec::new(),
    };
    let c = Command { program: "sh".to_string(), args: vec!["-c".to_string(), line], env };
    assert(c@ =~= shell_line(text, granted));
    c
}

/// A download runs `curl` quietly, for ten seconds at most, follows redirections, and
/// asks for the address and for nothing else.
pub proof fn law_download_asks_for_address(url: Seq<char>)
    ensures
        download_of(url).program == "curl"@,
        download_of(url).args.len() == 5,
        download_of(url).args[0] == "-s"@,
        download_of(url).args[1] == "--max-time"@,
        download_of(url).args[2] == "10"@,
        download_of(url).args[3] == "-L"@,
        download_of(url).args[4] == url,
        download_of(url).env.len() == 0,
{
}

/// Spotify is started as its Flatpak.
pub proof fn law_launch_starts_flatpak()
    ensures
        launch().program == "flatpak"@,
        launch().args.len() == 2,
        launch().args[0] == "run"@,
        launch().args[1] == "com.spotify.Client"@,
        launch().env.len() == 0,
{
}

/// A shell line is handed to the shell as it is. The token stands in the environment
/// where there is one, under the name that programs look for; nothing else does.
pub proof fn law_shell_line_hands_token_on(line: Seq<char>, token: Option<Seq<char>>)
    ensures
        shell_line(line, token).program == "sh"@,
        shell_line(line, token).args.len() == 2,
        shell_line(line, token).args[0] == "-c"@,
        shell_line(line, token).args[1] == line,
        token is None ==> shell_line(line, token).env.len() == 0,
        token matches Some(t) ==> shell_line(line, token).env.len() == 1 && shell_line(
            line,
            token,
        ).env[0] == ("XDG_ACTIVATION_TOKEN"@, t),
{
}

} // verus!
