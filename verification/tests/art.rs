use std::path::PathBuf;

use cosmic_ext_applet_spotify::art::{
    fetch_art, fetch_art_into, fetch_next, FetchReply, FetchStep,
};
use cosmic_ext_applet_spotify::command::{download_command, launch_command, shell_command};
use cosmic_ext_applet_spotify::paths::art_cache_path;

const URL: &str = "https://example.org/a";

fn begin() -> FetchStep {
    fetch_art_into(URL.to_string(), PathBuf::from("/c/a.jpg"))
}

fn output(success: bool, stdout: Vec<u8>) -> FetchReply {
    FetchReply::Output { success, stdout }
}

fn result(step: FetchStep) -> Option<PathBuf> {
    match step {
        FetchStep::Done(path) => path,
        _ => panic!("not over"),
    }
}

#[test]
fn fetch_begins_at_the_cache_file() {
    match fetch_art(URL.to_string()) {
        FetchStep::LookUp { url, cache } => {
            assert_eq!(url, URL);
            assert_eq!(cache, art_cache_path(URL));
        }
        _ => panic!("no look-up"),
    }
}

#[test]
fn cached_art_is_used() {
    let step = fetch_next(begin(), FetchReply::Exists(true));
    let step = fetch_next(step, output(true, vec![1]));
    assert_eq!(result(step), Some(PathBuf::from("/c/a.jpg")));
}

#[test]
fn missing_art_is_downloaded_and_stored() {
    let step = fetch_next(begin(), FetchReply::Exists(false));
    match &step {
        FetchStep::Download { command, cache } => {
            assert_eq!(command.program, "curl");
            assert_eq!(command.args, ["-s", "--max-time", "10", "-L", URL]);
            assert_eq!(*cache, PathBuf::from("/c/a.jpg"));
        }
        _ => panic!("no download"),
    }
    let step = fetch_next(step, output(true, vec![1, 2, 3]));
    match &step {
        FetchStep::Store { cache, bytes } => {
            assert_eq!(*cache, PathBuf::from("/c/a.jpg"));
            assert_eq!(*bytes, vec![1, 2, 3]);
        }
        _ => panic!("nothing stored"),
    }
    let step = fetch_next(step, FetchReply::Written(true));
    assert_eq!(result(step), Some(PathBuf::from("/c/a.jpg")));
}

#[test]
fn failed_download_gives_no_art() {
    let step = fetch_next(begin(), FetchReply::Exists(false));
    assert_eq!(result(fetch_next(step, FetchReply::Failed)), None);
    let step = fetch_next(begin(), FetchReply::Exists(false));
    assert_eq!(result(fetch_next(step, output(false, vec![1]))), None);
    let step = fetch_next(begin(), FetchReply::Exists(false));
    assert_eq!(result(fetch_next(step, output(true, Vec::new()))), None);
}

#[test]
fn failed_write_gives_no_art() {
    let step = fetch_next(begin(), FetchReply::Exists(false));
    let step = fetch_next(step, output(true, vec![1]));
    assert_eq!(result(fetch_next(step, FetchReply::Written(false))), None);
}

#[test]
fn reply_to_another_step_gives_no_art() {
    assert_eq!(result(fetch_next(begin(), FetchReply::Written(true))), None);
}

#[test]
fn commands_are_spelled_out() {
    let c = launch_command();
    assert_eq!(c.program, "flatpak");
    assert_eq!(c.args, ["run", "com.spotify.Client"]);
    assert!(c.env.is_empty());
    assert!(download_command(URL).env.is_empty());
    let line = "flatpak run com.spotify.Client".to_string();
    let c = shell_command(line.clone(), Some("tok".to_string()));
    assert_eq!(c.program, "sh");
    assert_eq!(c.args, ["-c", "flatpak run com.spotify.Client"]);
    assert_eq!(c.env, [("XDG_ACTIVATION_TOKEN".to_string(), "tok".to_string())]);
    assert!(shell_command(line, None).env.is_empty());
}
