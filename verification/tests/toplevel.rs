use cosmic_ext_applet_spotify::toplevel::{
    has_state, wayland_handler, AppData, Bind, CosmicEvent, ForeignEvent, Global, HandlerStep,
    TopCmd, TopUpdate,
};

const ACTIVATED: [u8; 4] = [2, 0, 0, 0];

fn tracker() -> AppData {
    let mut d = AppData::new("spotify".to_string());
    d.registry_global(1, "ext_foreign_toplevel_list_v1", 1);
    d.registry_global(2, "zcosmic_toplevel_info_v1", 2);
    d.registry_global(3, "zcosmic_toplevel_manager_v1", 1);
    d
}

fn open(d: &mut AppData, n: u64, app_id: &str) {
    assert_eq!(d.toplevel_opened(n), Some(n));
    d.request_cosmic_for_foreign(n, 100 + n);
    assert!(d.foreign_event(n, ForeignEvent::AppId(app_id.to_string())).is_none());
}

fn states(d: &mut AppData, n: u64, words: &[u8]) {
    let event = CosmicEvent::State(words.to_vec());
    assert!(d.cosmic_event(100 + n, event, ACTIVATED).is_none());
}

fn told(update: Option<TopUpdate>) -> Option<(String, bool)> {
    match update {
        Some(TopUpdate::AppActivated { app_id, active }) => Some((app_id, active)),
        Some(TopUpdate::Init) => panic!("no news"),
        None => None,
    }
}

fn minimize(d: &AppData, app_id: &str) -> Option<u64> {
    d.command(TopCmd::Minimize(app_id.to_string()))
}

#[test]
fn globals_are_bound_by_name_and_version() {
    let mut d = AppData::new("spotify".to_string());
    assert!(!d.foreign_list && !d.cosmic_info && !d.manager && !d.exit);
    assert_eq!(d.registry_global(9, "wl_compositor", 6), None);
    assert_eq!(d.registry_global(9, "zcosmic_toplevel_info_v1", 1), None);
    assert!(!d.cosmic_info);
    assert_eq!(
        d.registry_global(4, "zcosmic_toplevel_info_v1", 3),
        Some(Bind { global: Global::CosmicInfo, name: 4, version: 2 })
    );
    assert!(d.cosmic_info);
    assert_eq!(
        d.registry_global(5, "ext_foreign_toplevel_list_v1", 7),
        Some(Bind { global: Global::ForeignList, name: 5, version: 1 })
    );
    assert_eq!(
        d.registry_global(6, "zcosmic_toplevel_manager_v1", 4),
        Some(Bind { global: Global::Manager, name: 6, version: 1 })
    );
    assert!(d.foreign_list && d.manager);
}

#[test]
fn cosmic_handle_is_asked_for_only_where_it_can_be() {
    let mut d = AppData::new("spotify".to_string());
    assert_eq!(d.toplevel_opened(1), None);
    d.registry_global(2, "zcosmic_toplevel_info_v1", 2);
    assert_eq!(d.toplevel_opened(2), Some(2));
    assert_eq!(d.toplevels.len(), 2);
    d.request_cosmic_for_foreign(2, 20);
    d.request_cosmic_for_foreign(3, 30);
    assert_eq!(d.toplevels[0].cosmic, None);
    assert_eq!(d.toplevels[1].cosmic, Some(20));
    assert_eq!(d.toplevels[1].app_id, "");
    assert!(!d.toplevels[1].activated);
}

#[test]
fn words_are_compared_whole() {
    assert!(has_state(&vec![2, 0, 0, 0], ACTIVATED));
    assert!(has_state(&vec![1, 0, 0, 0, 2, 0, 0, 0], ACTIVATED));
    assert!(!has_state(&vec![0, 2, 0, 0, 0, 0, 0, 0], ACTIVATED));
    assert!(!has_state(&vec![0, 0, 0, 0, 2, 0, 0], ACTIVATED));
    assert!(!has_state(&Vec::new(), ACTIVATED));
    let word = 2u32.to_ne_bytes();
    assert!(has_state(&word.to_vec(), word));
}

#[test]
fn focus_is_told_once() {
    let mut d = tracker();
    open(&mut d, 1, "spotify");
    states(&mut d, 1, &ACTIVATED);
    let update = d.cosmic_event(101, CosmicEvent::Done, ACTIVATED);
    assert_eq!(told(update), Some(("spotify".to_string(), true)));
    assert!(d.watch_activated);
    assert_eq!(told(d.notify_if_changed()), None);
    assert_eq!(told(d.foreign_event(1, ForeignEvent::Done)), None);
    states(&mut d, 1, &[1, 0, 0, 0]);
    let update = d.foreign_event(1, ForeignEvent::Done);
    assert_eq!(told(update), Some(("spotify".to_string(), false)));
}

#[test]
fn updates_alternate_from_the_start() {
    let mut d = tracker();
    let mut news = Vec::new();
    open(&mut d, 1, "spotify");
    open(&mut d, 2, "spotify");
    for (window, words) in [(1, [1, 0, 0, 0]), (1, ACTIVATED), (2, ACTIVATED), (1, [0; 4])] {
        states(&mut d, window, &words);
        news.extend(told(d.cosmic_event(100 + window, CosmicEvent::Done, ACTIVATED)));
    }
    news.extend(told(d.foreign_event(2, ForeignEvent::Closed)));
    states(&mut d, 1, &ACTIVATED);
    news.extend(told(d.foreign_event(1, ForeignEvent::Done)));
    let spotify = "spotify".to_string();
    assert_eq!(news, [(spotify.clone(), true), (spotify.clone(), false), (spotify, true)]);
}

#[test]
fn focus_of_other_applications_is_not_told() {
    let mut d = tracker();
    open(&mut d, 1, "firefox");
    states(&mut d, 1, &ACTIVATED);
    assert_eq!(told(d.notify_if_changed()), None);
    open(&mut d, 2, "spotify");
    assert_eq!(told(d.notify_if_changed()), None);
}

#[test]
fn closed_window_loses_the_focus() {
    let mut d = tracker();
    open(&mut d, 1, "firefox");
    open(&mut d, 2, "spotify");
    open(&mut d, 3, "term");
    states(&mut d, 2, &ACTIVATED);
    d.notify_if_changed();
    let update = d.foreign_event(2, ForeignEvent::Closed);
    assert_eq!(told(update), Some(("spotify".to_string(), false)));
    assert_eq!(d.toplevels.len(), 2);
    assert_eq!(d.toplevels[0].foreign, 1);
    assert_eq!(d.toplevels[1].foreign, 3);
    assert_eq!(told(d.foreign_event(2, ForeignEvent::Closed)), None);
    assert_eq!(d.toplevels.len(), 2);
}

#[test]
fn closed_cosmic_handle_removes_nothing() {
    let mut d = tracker();
    open(&mut d, 1, "spotify");
    assert_eq!(told(d.cosmic_event(101, CosmicEvent::Closed, ACTIVATED)), None);
    assert_eq!(told(d.cosmic_event(101, CosmicEvent::Other, ACTIVATED)), None);
    assert_eq!(told(d.foreign_event(1, ForeignEvent::Other)), None);
    assert_eq!(d.toplevels.len(), 1);
}

#[test]
fn unknown_handles_change_nothing() {
    let mut d = tracker();
    open(&mut d, 1, "spotify");
    states(&mut d, 9, &ACTIVATED);
    d.foreign_event(9, ForeignEvent::AppId("other".to_string()));
    assert_eq!(d.toplevels[0].app_id, "spotify");
    assert!(!d.toplevels[0].activated);
}

#[test]
fn minimize_reaches_the_first_window() {
    let mut d = tracker();
    open(&mut d, 1, "firefox");
    open(&mut d, 2, "spotify");
    open(&mut d, 3, "spotify");
    assert_eq!(minimize(&d, "spotify"), Some(102));
    assert_eq!(minimize(&d, "firefox"), Some(101));
    assert_eq!(minimize(&d, "other"), None);
    d.manager = false;
    assert_eq!(minimize(&d, "spotify"), None);
}

#[test]
fn minimize_needs_the_cosmic_handle() {
    let mut d = tracker();
    d.toplevel_opened(1);
    d.foreign_event(1, ForeignEvent::AppId("spotify".to_string()));
    open(&mut d, 2, "spotify");
    assert_eq!(minimize(&d, "spotify"), None);
}

#[test]
fn closed_requests_end_the_tracker() {
    let mut d = tracker();
    d.commands_closed();
    assert!(d.exit);
}

#[test]
fn thread_makes_four_roundtrips() {
    let mut step = HandlerStep::Announce;
    let mut seen = Vec::new();
    while step != HandlerStep::Dispatch {
        seen.push(step);
        let ok = !matches!(step, HandlerStep::Roundtrip(_));
        step = wayland_handler(step, ok, false);
    }
    assert_eq!(
        seen,
        [
            HandlerStep::Announce,
            HandlerStep::Connect,
            HandlerStep::Roundtrip(1),
            HandlerStep::Roundtrip(2),
            HandlerStep::Roundtrip(3),
            HandlerStep::Roundtrip(4),
            HandlerStep::AttachWayland,
            HandlerStep::AttachCommands,
        ]
    );
    assert_eq!(wayland_handler(step, true, false), HandlerStep::Dispatch);
    assert_eq!(wayland_handler(step, true, true), HandlerStep::Stop);
    assert_eq!(wayland_handler(step, false, false), HandlerStep::Stop);
}

#[test]
fn thread_ends_where_a_step_fails() {
    assert_eq!(wayland_handler(HandlerStep::Connect, false, false), HandlerStep::Stop);
    assert_eq!(wayland_handler(HandlerStep::AttachWayland, false, false), HandlerStep::Stop);
    assert_eq!(wayland_handler(HandlerStep::AttachCommands, false, false), HandlerStep::Stop);
    assert_eq!(wayland_handler(HandlerStep::AttachCommands, true, true), HandlerStep::Stop);
    assert_eq!(wayland_handler(HandlerStep::Stop, true, false), HandlerStep::Stop);
}
