//! Tracking the windows of the compositor, to know whether Spotify has the focus and
//! to minimize it.
//!
//! Protocol flow (zcosmic_toplevel_info_v1 v2+):
//!   ext_foreign_toplevel_list_v1  →  Toplevel  →  ext_foreign_toplevel_handle_v1  (app_id)
//!   zcosmic_toplevel_info_v1      →  get_cosmic_toplevel(foreign)  →  zcosmic_toplevel_handle_v1  (state)
//!   zcosmic_toplevel_manager_v1   →  set_minimized(cosmic_handle)
//!
//! The protocol objects themselves stay with the program around the library: here each
//! is a number, and two numbers are equal exactly when the objects are.
use vstd::prelude::*;
use vstd::string::*;

use crate::text::same_text;

verus! {

/// A request to the window tracker.
#[derive(Debug)]
pub enum TopCmd {
    Minimize(String),
}

/// A request as plain mathematical values.
#[verifier::ext_equal]
pub enum TopCmdView {
    Minimize(Seq<char>),
}

impl View for TopCmd {
    type V = TopCmdView;

    open spec fn view(&self) -> TopCmdView {
        match self {
            TopCmd::Minimize(app_id) => TopCmdView::Minimize(app_id@),
        }
    }
}

impl Clone for TopCmd {
    fn clone(&self) -> (copy: Self)
        ensures
            copy == *self,
    {
        match self {
            TopCmd::Minimize(app_id) => TopCmd::Minimize(app_id.clone()),
        }
    }
}

/// What the window tracker tells.
#[derive(Debug)]
pub enum TopUpdate {
    /// The tracker takes requests from now on.
    Init,
    AppActivated { app_id: String, active: bool },
}

/// An update as plain mathematical values.
#[verifier::ext_equal]
pub enum TopUpdateView {
    Init,
    AppActivated { app_id: Seq<char>, active: bool },
}

impl View for TopUpdate {
    type V = TopUpdateView;

    open spec fn view(&self) -> TopUpdateView {
        match self {
            TopUpdate::Init => TopUpdateView::Init,
            TopUpdate::AppActivated { app_id, active } => TopUpdateView::AppActivated {
                app_id: app_id@,
                active: *active,
            },
        }
    }
}

impl Clone for TopUpdate {
    fn clone(&self) -> (copy: Self)
        ensures
            copy == *self,
    {
        match self {
            TopUpdate::Init => TopUpdate::Init,
            TopUpdate::AppActivated { app_id, active } => TopUpdate::AppActivated {
                app_id: app_id.clone(),
                active: *active,
            },
        }
    }
}

/// The update in an option, as plain mathematical values.
pub open spec fn opt_update(update: Option<TopUpdate>) -> Option<TopUpdateView> {
    match update {
        Some(u) => Some(u@),
        None => None,
    }
}

/// A window.
#[derive(Debug)]
pub struct Toplevel {
    pub foreign: u64,
    pub cosmic: Option<u64>,
    pub app_id: String,
    pub activated: bool,
}

/// A window as plain mathematical values.
#[verifier::ext_equal]
pub struct ToplevelView {
    pub foreign: u64,
    pub cosmic: Option<u64>,
    pub app_id: Seq<char>,
    pub activated: bool,
}

impl View for Toplevel {
    type V = ToplevelView;

    open spec fn view(&self) -> ToplevelView {
        ToplevelView {
            foreign: self.foreign,
            cosmic: self.cosmic,
            app_id: self.app_id@,
            activated: self.activated,
        }
    }
}

/// The windows as plain mathematical values.
pub open spec fn windows(v: Seq<Toplevel>) -> Seq<ToplevelView> {
    v.map_values(|t: Toplevel| t@)
}

/// What the tracker knows.
#[derive(Debug)]
pub struct AppData {
    pub exit: bool,
    /// Whether `ext_foreign_toplevel_list_v1` is bound.
    pub foreign_list: bool,
    /// Whether `zcosmic_toplevel_info_v1` is bound.
    pub cosmic_info: bool,
    /// Whether `zcosmic_toplevel_manager_v1` is bound.
    pub manager: bool,
    pub toplevels: Vec<Toplevel>,
    pub watch_app_id: String,
    pub watch_activated: bool,
}

/// What the tracker knows, as plain mathematical values.
#[verifier::ext_equal]
pub struct AppDataView {
    pub exit: bool,
    pub foreign_list: bool,
    pub cosmic_info: bool,
    pub manager: bool,
    pub toplevels: Seq<ToplevelView>,
    pub watch_app_id: Seq<char>,
    pub watch_activated: bool,
}

impl View for AppData {
    type V = AppDataView;

    open spec fn view(&self) -> AppDataView {
        AppDataView {
            exit: self.exit,
            foreign_list: self.foreign_list,
            cosmic_info: self.cosmic_info,
            manager: self.manager,
            toplevels: windows(self.toplevels@),
            watch_app_id: self.watch_app_id@,
            watch_activated: self.watch_activated,
        }
    }
}

/// The place of the first window that `p` picks, or the number of windows where it
/// picks none.
pub open spec fn first_window(s: Seq<ToplevelView>, p: spec_fn(ToplevelView) -> bool) -> int
    decreases s.len(),
{
    if s.len() == 0 || p(s[0]) {
        0
    } else {
        1 + first_window(s.drop_first(), p)
    }
}

/// Picks the window of a foreign handle.
pub open spec fn by_foreign(handle: u64) -> spec_fn(ToplevelView) -> bool {
    |t: ToplevelView| t.foreign == handle
}

/// Picks the window of a COSMIC handle.
pub open spec fn by_cosmic(handle: u64) -> spec_fn(ToplevelView) -> bool {
    |t: ToplevelView| t.cosmic == Some(handle)
}

/// Picks the windows of an application.
pub open spec fn by_app(app_id: Seq<char>) -> spec_fn(ToplevelView) -> bool {
    |t: ToplevelView| t.app_id == app_id
}

/// Picks the windows that do not have a foreign handle.
pub open spec fn other_than(handle: u64) -> spec_fn(ToplevelView) -> bool {
    |t: ToplevelView| t.foreign != handle
}

/// The first window that `p` picks is the one before which it picks none.
proof fn lemma_first_window(s: Seq<ToplevelView>, p: spec_fn(ToplevelView) -> bool, i: int)
    requires
        0 <= i <= s.len(),
        forall|j: int| 0 <= j < i ==> !p(#[trigger] s[j]),
        i < s.len() ==> p(s[i]),
    ensures
        first_window(s, p) == i,
    decreases s.len(),
{
    if i > 0 {
        assert(!p(s[0]));
        let rest = s.drop_first();
        assert forall|j: int| 0 <= j < i - 1 implies !p(#[trigger] rest[j]) by {
            assert(rest[j] == s[j + 1]);
        }
        lemma_first_window(rest, p, i - 1);
    }
}

/// Where `p` picks a window, the first window it picks is one of them, with none
/// before; where it picks none, there is no such place.
pub proof fn law_first_window(s: Seq<ToplevelView>, p: spec_fn(ToplevelView) -> bool)
    ensures
        0 <= first_window(s, p) <= s.len(),
        first_window(s, p) < s.len() ==> p(s[first_window(s, p)]),
        forall|j: int| 0 <= j < first_window(s, p) ==> !p(#[trigger] s[j]),
    decreases s.len(),
{
    if s.len() > 0 && !p(s[0]) {
        let rest = s.drop_first();
        law_first_window(rest, p);
        assert forall|j: int| 0 <= j < first_window(s, p) implies !p(#[trigger] s[j]) by {
            if j > 0 {
                assert(rest[j - 1] == s[j]);
            }
        }
    }
}

fn find_foreign(toplevels: &Vec<Toplevel>, handle: u64) -> (i: usize)
    ensures
        i == first_window(windows(toplevels@), by_foreign(handle)),
        i <= toplevels.len(),
{
    let mut i: usize = 0;
    while i < toplevels.len() && toplevels[i].foreign != handle
        invariant
            i <= toplevels.len(),
            forall|j: int| 0 <= j < i ==> (#[trigger] windows(toplevels@)[j]).foreign != handle,
        decreases toplevels.len() - i,
    {
        i += 1;
    }
    proof {
        lemma_first_window(windows(toplevels@), by_foreign(handle), i as int);
    }
    i
}

fn find_cosmic(toplevels: &Vec<Toplevel>, handle: u64) -> (i: usize)
    ensures
        i == first_window(windows(toplevels@), by_cosmic(handle)),
        i <= toplevels.len(),
{
    let mut i: usize = 0;
    while i < toplevels.len() && !is_handle(toplevels[i].cosmic, handle)
        invariant
            i <= toplevels.len(),
            forall|j: int|
                0 <= j < i ==> (#[trigger] windows(toplevels@)[j]).cosmic != Some(handle),
        decreases toplevels.len() - i,
    {
        i += 1;
    }
    proof {
        lemma_first_window(windows(toplevels@), by_cosmic(handle), i as int);
    }
    i
}

fn is_handle(known: Option<u64>, handle: u64) -> (r: bool)
    ensures
        r == (known == Some(handle)),
{
    match known {
        Some(h) => h == handle,
        None => false,
    }
}

fn find_app(toplevels: &Vec<Toplevel>, app_id: &str) -> (i: usize)
    ensures
        i == first_window(windows(toplevels@), by_app(app_id@)),
        i <= toplevels.len(),
{
    let mut i: usize = 0;
    while i < toplevels.len() && !same_text(toplevels[i].app_id.as_str(), app_id)
        invariant
            i <= toplevels.len(),
            forall|j: int| 0 <= j < i ==> (#[trigger] windows(toplevels@)[j]).app_id != app_id@,
        decreases toplevels.len() - i,
    {
        i += 1;
    }
    proof {
        lemma_first_window(windows(toplevels@), by_app(app_id@), i as int);
    }
    i
}

/// A global of the compositor that the tracker uses.
#[derive(Clone, Copy, Debug, PartialEq, Eq, Structural)]
pub enum Global {
    ForeignList,
    CosmicInfo,
    Manager,
}

/// A request to bind a global: its number in the registry, and the version to bind.
#[derive(Clone, Copy, Debug, PartialEq, Eq, Structural)]
pub struct Bind {
    pub global: Global,
    pub name: u32,
    pub version: u32,
}

/// What to bind when the registry announces an interface. The window information is of
/// use from its second version on; other interfaces are left alone.
pub open spec fn bind_for(name: u32, interface: Seq<char>, version: u32) -> Option<Bind> {
    if interface == "ext_foreign_toplevel_list_v1"@ {
        Some(Bind { global: Global::ForeignList, name, version: 1 })
    } else if interface == "zcosmic_toplevel_info_v1"@ && version >= 2 {
        Some(Bind { global: Global::CosmicInfo, name, version: 2 })
    } else if interface == "zcosmic_toplevel_manager_v1"@ {
        Some(Bind { global: Global::Manager, name, version: 1 })
    } else {
        None
    }
}

/// What a foreign handle tells of its window.
#[derive(Debug)]
pub enum ForeignEvent {
    AppId(String),
    Done,
    Closed,
    Other,
}

/// What a COSMIC handle tells of its window.
#[derive(Debug)]
pub enum CosmicEvent {
    /// The states of the window, as an array of 32-bit words.
    State(Vec<u8>),
    Done,
    Closed,
    Other,
}

/// Whether one of the 32-bit words that `raw` is made of is `word`. Bytes beyond the
/// last whole word are no word.
pub open spec fn holds_word(raw: Seq<u8>, word: Seq<u8>) -> bool {
    exists|i: int| 0 <= i < raw.len() / 4 && #[trigger] word_at(raw, i) == word
}

/// The word at a place.
pub open spec fn word_at(raw: Seq<u8>, i: int) -> Seq<u8> {
    raw.subrange(4 * i, 4 * i + 4)
}

/// Whether the states of a window hold the state whose bytes are `word`.
pub fn has_state(raw: &Vec<u8>, word: [u8; 4]) -> (found: bool)
    ensures
        found == holds_word(raw@, word@),
{
    let words: usize = raw.len() / 4;
    let mut i: usize = 0;
    while i < words
        invariant
            words == raw.len() / 4,
            i <= words,
            forall|j: int| 0 <= j < i ==> #[trigger] word_at(raw@, j) != word@,
        decreases words - i,
    {
        let at: usize = 4 * i;
        let ghost here = word_at(raw@, i as int);
        assert(here.len() == 4 && here[0] == raw[at as int] && here[1] == raw[at + 1] && here[2]
            == raw[at + 2] && here[3] == raw[at + 3]);
        if raw[at] == word[0] && raw[at + 1] == word[1] && raw[at + 2] == word[2] && raw[at + 3]
            == word[3] {
            assert(here =~= word@);
            return true;
        }
        i += 1;
    }
    false
}

impl AppDataView {
    /// A tracker that knows no window yet.
    pub open spec fn start(watch_app_id: Seq<char>) -> AppDataView {
        AppDataView {
            exit: false,
            foreign_list: false,
            cosmic_info: false,
            manager: false,
            toplevels: Seq::empty(),
            watch_app_id,
            watch_activated: false,
        }
    }

    /// Whether a window of the watched application is activated.
    pub open spec fn watched_is_active(self) -> bool {
        exists|i: int|
            0 <= i < self.toplevels.len() && (#[trigger] self.toplevels[i]).app_id
                == self.watch_app_id && self.toplevels[i].activated
    }

    /// The tracker after it has told what it knows.
    pub open spec fn notified(self) -> AppDataView {
        AppDataView { watch_activated: self.watched_is_active(), ..self }
    }

    /// What there is to tell: whether the watched application is active, where that is
    /// not what was told last.
    pub open spec fn notice(self) -> Option<TopUpdateView> {
        if self.watched_is_active() != self.watch_activated {
            Some(
                TopUpdateView::AppActivated {
                    app_id: self.watch_app_id,
                    active: self.watched_is_active(),
                },
            )
        } else {
            None
        }
    }

    /// The tracker after it has asked to bind a global.
    pub open spec fn bound(self, bind: Option<Bind>) -> AppDataView {
        match bind {
            Some(Bind { global: Global::ForeignList, .. }) => AppDataView {
                foreign_list: true,
                ..self
            },
            Some(Bind { global: Global::CosmicInfo, .. }) => AppDataView {
                cosmic_info: true,
                ..self
            },
            Some(Bind { global: Global::Manager, .. }) => AppDataView { manager: true, ..self },
            None => self,
        }
    }

    /// The tracker with a window more, of which only the foreign handle is known.
    pub open spec fn opened(self, foreign: u64) -> AppDataView {
        AppDataView {
            toplevels: self.toplevels.push(
                ToplevelView { foreign, cosmic: None, app_id: Seq::empty(), activated: false },
            ),
            ..self
        }
    }

    /// The tracker with the first window that `p` picks changed by `change`, where it
    /// picks one.
    pub open spec fn with_first(
        self,
        p: spec_fn(ToplevelView) -> bool,
        change: spec_fn(ToplevelView) -> ToplevelView,
    ) -> AppDataView {
        let i = first_window(self.toplevels, p);
        if i < self.toplevels.len() {
            AppDataView { toplevels: self.toplevels.update(i, change(self.toplevels[i])), ..self }
        } else {
            self
        }
    }

    /// The tracker without the windows of a foreign handle.
    pub open spec fn closed(self, foreign: u64) -> AppDataView {
        AppDataView { toplevels: self.toplevels.filter(other_than(foreign)), ..self }
    }

    /// What an event of a foreign handle makes of the tracker, and what it tells.
    pub open spec fn after_foreign(self, handle: u64, event: ForeignEvent) -> (
        AppDataView,
        Option<TopUpdateView>,
    ) {
        match event {
            ForeignEvent::AppId(app_id) => (
                self.with_first(
                    by_foreign(handle),
                    |t: ToplevelView| ToplevelView { app_id: app_id@, ..t },
                ),
                None,
            ),
            ForeignEvent::Done => (self.notified(), self.notice()),
            ForeignEvent::Closed => (
                self.closed(handle).notified(),
                self.closed(handle).notice(),
            ),
            ForeignEvent::Other => (self, None),
        }
    }

    /// What an event of a COSMIC handle makes of the tracker, and what it tells, where
    /// `activated` are the bytes of the state "activated". The window is removed when
    /// its foreign handle is closed, not here.
    pub open spec fn after_cosmic(self, handle: u64, event: CosmicEvent, activated: Seq<u8>) -> (
        AppDataView,
        Option<TopUpdateView>,
    ) {
        match event {
            CosmicEvent::State(raw) => (
                self.with_first(
                    by_cosmic(handle),
                    |t: ToplevelView|
                        ToplevelView { activated: holds_word(raw@, activated), ..t },
                ),
                None,
            ),
            CosmicEvent::Done => (self.notified(), self.notice()),
            _ => (self, None),
        }
    }

    /// The COSMIC handle of the window to minimize for an application: that of its
    /// first window, where the handle is known and there is a manager to ask.
    pub open spec fn to_minimize(self, app_id: Seq<char>) -> Option<u64> {
        let i = first_window(self.toplevels, by_app(app_id));
        if self.manager && i < self.toplevels.len() {
            self.toplevels[i].cosmic
        } else {
            None
        }
    }
}

impl AppData {
    /// A tracker for the windows of `watch_app_id`.
    pub fn new(watch_app_id: String) -> (data: AppData)
        ensures
            data@ == AppDataView::start(watch_app_id@),
    {
        let data = AppData {
            exit: false,
            foreign_list: false,
            cosmic_info: false,
            manager: false,
            toplevels: Vec::new(),
            watch_app_id,
            watch_activated: false,
        };
        assert(data@ =~= AppDataView::start(data.watch_app_id@));
        data
    }

    /// Tells whether the watched application is active, where that has changed.
    pub fn notify_if_changed(&mut self) -> (update: Option<TopUpdate>)
        ensures
            final(self)@ == old(self)@.notified(),
            opt_update(update) == old(self)@.notice(),
    {
        let mut now_active = false;
        let mut i: usize = 0;
        while i < self.toplevels.len() && !now_active
            invariant
                i <= self.toplevels.len(),
                *self == *old(self),
                now_active ==> self@.watched_is_active(),
                !now_active ==> forall|j: int|
                    0 <= j < i ==> !((#[trigger] self@.toplevels[j]).app_id == self@.watch_app_id
                        && self@.toplevels[j].activated),
            decreases self.toplevels.len() - i,
        {
            let ghost t = self@.toplevels[i as int];
            if same_text(self.toplevels[i].app_id.as_str(), self.watch_app_id.as_str())
                && self.toplevels[i].activated {
                now_active = true;
            }
            i += 1;
        }
        if now_active != self.watch_activated {
            self.watch_activated = now_active;
            Some(
                TopUpdate::AppActivated { app_id: self.watch_app_id.clone(), active: now_active },
            )
        } else {
            None
        }
    }

    /// Takes the announcement of a global and says what to bind.
    pub fn registry_global(&mut self, name: u32, interface: &str, version: u32) -> (bind: Option<
        Bind,
    >)
        ensures
            bind == bind_for(name, interface@, version),
            final(self)@ == old(self)@.bound(bind),
    {
        if same_text(interface, "ext_foreign_toplevel_list_v1") {
            self.foreign_list = true;
            Some(Bind { global: Global::ForeignList, name, version: 1 })
        } else if same_text(interface, "zcosmic_toplevel_info_v1") && version >= 2 {
            self.cosmic_info = true;
            Some(Bind { global: Global::CosmicInfo, name, version: 2 })
        } else if same_text(interface, "zcosmic_toplevel_manager_v1") {
            self.manager = true;
            Some(Bind { global: Global::Manager, name, version: 1 })
        } else {
            None
        }
    }

    /// Takes up a window that has opened, and says for which foreign handle to ask for
    /// the COSMIC handle.
    pub fn toplevel_opened(&mut self, foreign: u64) -> (request: Option<u64>)
        ensures
            final(self)@ == old(self)@.opened(foreign),
            request == (if old(self)@.cosmic_info {
                Some(foreign)
            } else {
                None
            }),
    {
        self.toplevels.push(
            Toplevel { foreign, cosmic: None, app_id: String::new(), activated: false },
        );
        assert(self@ =~= old(self)@.opened(foreign));
        if self.cosmic_info {
            Some(foreign)
        } else {
            None
        }
    }

    /// Notes the COSMIC handle that was given out for a foreign handle.
    pub fn request_cosmic_for_foreign(&mut self, foreign: u64, cosmic: u64)
        ensures
            final(self)@ == old(self)@.with_first(
                by_foreign(foreign),
                |t: ToplevelView| ToplevelView { cosmic: Some(cosmic), ..t },
            ),
    {
        let i: usize = find_foreign(&self.toplevels, foreign);
        if i < self.toplevels.len() {
            self.toplevels[i].cosmic = Some(cosmic);
        }
        assert(self@ =~= old(self)@.with_first(
            by_foreign(foreign),
            |t: ToplevelView| ToplevelView { cosmic: Some(cosmic), ..t },
        ));
    }

    /// Takes an event of a foreign handle.
    pub fn foreign_event(&mut self, handle: u64, event: ForeignEvent) -> (update: Option<TopUpdate>)
        ensures
            (final(self)@, opt_update(update)) == old(self)@.after_foreign(handle, event),
    {
        match event {
            ForeignEvent::AppId(app_id) => {
                let ghost id = app_id@;
                let i: usize = find_foreign(&self.toplevels, handle);
                if i < self.toplevels.len() {
                    self.toplevels[i].app_id = app_id;
                }
                assert(self@ =~= old(self)@.with_first(
                    by_foreign(handle),
                    |t: ToplevelView| ToplevelView { app_id: id, ..t },
                ));
                None
            },
            ForeignEvent::Done => self.notify_if_changed(),
            ForeignEvent::Closed => {
                self.remove_foreign(handle);
                self.notify_if_changed()
            },
            ForeignEvent::Other => None,
        }
    }

    /// Removes the windows of a foreign handle.
    fn remove_foreign(&mut self, handle: u64)
        ensures
            final(self)@ == old(self)@.closed(handle),
    {
        let ghost all = self@.toplevels;
        let ghost keep = other_than(handle);
        let ghost mut seen: int = 0;
        let mut i: usize = 0;
        reveal(Seq::filter);
        assert(all.skip(0) =~= all);
        assert(all.take(0).filter(keep) =~= Seq::<ToplevelView>::empty());
        while i < self.toplevels.len()
            invariant
                keep == other_than(handle),
                0 <= seen <= all.len(),
                i == all.take(seen).filter(keep).len(),
                i <= self.toplevels.len(),
                self@.toplevels == all.take(seen).filter(keep) + all.skip(seen),
                self@ == (AppDataView { toplevels: self@.toplevels, ..old(self)@ }),
            decreases self.toplevels.len() - i,
        {
            let ghost before = self@.toplevels;
            let ghost kept = all.take(seen).filter(keep);
            assert(before[i as int] == all[seen]);
            assert(all.take(seen + 1).drop_last() =~= all.take(seen));
            reveal(Seq::filter);
            if self.toplevels[i].foreign == handle {
                let _ = self.toplevels.remove(i);
                assert(self@.toplevels =~= before.remove(i as int));
                assert(before.remove(i as int) =~= kept + all.skip(seen + 1));
                assert(all.take(seen + 1).filter(keep) == kept);
            } else {
                i += 1;
                assert(all.take(seen + 1).filter(keep) == kept.push(all[seen]));
                assert(before =~= kept.push(all[seen]) + all.skip(seen + 1));
            }
            proof {
                seen = seen + 1;
            }
        }
        assert(all.take(seen) =~= all);
        assert(self@ =~= old(self)@.closed(handle));
    }

    /// Takes an event of a COSMIC handle. `activated` are the bytes of the state
    /// "activated" in the words of a state event.
    pub fn cosmic_event(&mut self, handle: u64, event: CosmicEvent, activated: [u8; 4]) -> (update:
        Option<TopUpdate>)
        ensures
            (final(self)@, opt_update(update)) == old(self)@.after_cosmic(
                handle,
                event,
                activated@,
            ),
    {
        match event {
            CosmicEvent::State(raw) => {
                let now: bool = has_state(&raw, activated);
                let i: usize = find_cosmic(&self.toplevels, handle);
                if i < self.toplevels.len() {
                    self.toplevels[i].activated = now;
                }
                assert(self@ =~= old(self)@.with_first(
                    by_cosmic(handle),
                    |t: ToplevelView|
                        ToplevelView { activated: holds_word(raw@, activated@), ..t },
                ));
                None
            },
            CosmicEvent::Done => self.notify_if_changed(),
            CosmicEvent::Closed => None,
            CosmicEvent::Other => None,
        }
    }

    /// Takes a request, and says which COSMIC handle to minimize.
    pub fn command(&self, cmd: TopCmd) -> (minimize: Option<u64>)
        ensures
            cmd@ matches TopCmdView::Minimize(app_id) ==> minimize == self@.to_minimize(app_id),
    {
        match cmd {
            TopCmd::Minimize(app_id) => {
                if !self.manager {
                    return None;
                }
                let i: usize = find_app(&self.toplevels, app_id.as_str());
                if i < self.toplevels.len() {
                    self.toplevels[i].cosmic
                } else {
                    None
                }
            },
        }
    }

    /// Nobody can send requests any more: the tracker is to end.
    pub fn commands_closed(&mut self)
        ensures
            final(self)@ == (AppDataView { exit: true, ..old(self)@ }),
    {
        self.exit = true;
    }
}

/// What the thread of the tracker does next.
#[derive(Clone, Copy, Debug, PartialEq, Eq, Structural)]
pub enum HandlerStep {
    /// Hand out the sender for requests.
    Announce,
    /// Connect to the compositor. The regular socket is used: the list of foreign
    /// windows is not offered on the privileged one that the panel has.
    Connect,
    /// Make a roundtrip, the one of this number.
    Roundtrip(u8),
    /// Attach the connection to the event loop.
    AttachWayland,
    /// Attach the requests to the event loop.
    AttachCommands,
    /// Wait for events and handle them.
    Dispatch,
    /// End.
    Stop,
}

/// Roundtrips before the event loop: bind globals, list windows, learn their names and
/// COSMIC handles, learn their states.
pub const ROUNDTRIPS: u8 = 4;

/// The step after one that went well or not (`ok`), where `exit` is what the tracker
/// says by then.
pub open spec fn next_handler_step(step: HandlerStep, ok: bool, exit: bool) -> HandlerStep {
    match step {
        HandlerStep::Announce => HandlerStep::Connect,
        HandlerStep::Connect => if ok {
            HandlerStep::Roundtrip(1)
        } else {
            HandlerStep::Stop
        },
        HandlerStep::Roundtrip(n) => if n < ROUNDTRIPS {
            HandlerStep::Roundtrip((n + 1) as u8)
        } else {
            HandlerStep::AttachWayland
        },
        HandlerStep::AttachWayland => if ok {
            HandlerStep::AttachCommands
        } else {
            HandlerStep::Stop
        },
        HandlerStep::AttachCommands | HandlerStep::Dispatch => if ok && !exit {
            HandlerStep::Dispatch
        } else {
            HandlerStep::Stop
        },
        HandlerStep::Stop => HandlerStep::Stop,
    }
}

/// Decides what the thread of the tracker does next.
pub fn wayland_handler(step: HandlerStep, ok: bool, exit: bool) -> (next: HandlerStep)
    ensures
        next == next_handler_step(step, ok, exit),
{
    match step {
        HandlerStep::Announce => HandlerStep::Connect,
        HandlerStep::Connect => if ok {
            HandlerStep::Roundtrip(1)
        } else {
            HandlerStep::Stop
        },
        HandlerStep::Roundtrip(n) => if n < ROUNDTRIPS {
            HandlerStep::Roundtrip(n + 1)
        } else {
            HandlerStep::AttachWayland
        },
        HandlerStep::AttachWayland => if ok {
            HandlerStep::AttachCommands
        } else {
            HandlerStep::Stop
        },
        HandlerStep::AttachCommands | HandlerStep::Dispatch => if ok && !exit {
            HandlerStep::Dispatch
        } else {
            HandlerStep::Stop
        },
        HandlerStep::Stop => HandlerStep::Stop,
    }
}

/// The step reached after the outcomes, from the first on: for each step whether it
/// went well, and what the tracker said of its end by then.
pub open spec fn handler_after(outcomes: Seq<(bool, bool)>) -> HandlerStep
    decreases outcomes.len(),
{
    if outcomes.len() == 0 {
        HandlerStep::Announce
    } else {
        next_handler_step(
            handler_after(outcomes.drop_last()),
            outcomes.last().0,
            outcomes.last().1,
        )
    }
}

/// Once connected, the thread makes four roundtrips, whether they go well or not, and
/// then attaches the connection to the event loop.
pub proof fn law_four_roundtrips(outcomes: Seq<(bool, bool)>)
    requires
        2 <= outcomes.len() <= 6,
        outcomes[1].0,
    ensures
        outcomes.len() < 6 ==> handler_after(outcomes) == HandlerStep::Roundtrip(
            (outcomes.len() - 1) as u8,
        ),
        outcomes.len() == 6 ==> handler_after(outcomes) == HandlerStep::AttachWayland,
    decreases outcomes.len(),
{
    reveal_with_fuel(handler_after, 3);
    if outcomes.len() > 2 {
        law_four_roundtrips(outcomes.drop_last());
    }
}

/// Without a connection the thread ends, having made no roundtrip.
pub proof fn law_no_connection_ends(outcomes: Seq<(bool, bool)>)
    requires
        outcomes.len() >= 2,
        !outcomes[1].0,
    ensures
        handler_after(outcomes) == HandlerStep::Stop,
    decreases outcomes.len(),
{
    reveal_with_fuel(handler_after, 3);
    if outcomes.len() > 2 {
        law_no_connection_ends(outcomes.drop_last());
    }
}

/// Events are handled as long as handling them goes well and the tracker has not ended,
/// and no longer.
pub proof fn law_dispatch_until_exit(ok: bool, exit: bool)
    ensures
        next_handler_step(HandlerStep::Dispatch, ok, exit) == HandlerStep::Dispatch <==> ok
            && !exit,
        next_handler_step(HandlerStep::Dispatch, ok, exit) == HandlerStep::Stop <==> !ok || exit,
        next_handler_step(HandlerStep::Stop, ok, exit) == HandlerStep::Stop,
{
}

/// An update is always news: it tells the opposite of what was told last. After it was
/// told there is nothing more to tell.
pub proof fn law_notice_is_news(d: AppDataView)
    ensures
        d.notice() matches Some(TopUpdateView::AppActivated { app_id, active }) ==> app_id
            == d.watch_app_id && active == !d.watch_activated && active
            == d.notified().watch_activated,
        d.notice() is None ==> d.notified() == d,
        d.notified().notice() is None,
        d.notified().notified() == d.notified(),
{
    lemma_notified_windows(d);
    assert(d.notice() is None ==> d.notified() =~= d);
    assert(d.notified().notified() =~= d.notified());
}

/// Telling does not change what is known of the windows.
proof fn lemma_notified_windows(d: AppDataView)
    ensures
        d.notified().watched_is_active() == d.watched_is_active(),
{
    let n = d.notified();
    if d.watched_is_active() {
        let i = choose|i: int|
            0 <= i < d.toplevels.len() && (#[trigger] d.toplevels[i]).app_id == d.watch_app_id
                && d.toplevels[i].activated;
        assert(n.toplevels[i].app_id == n.watch_app_id && n.toplevels[i].activated);
    }
    if n.watched_is_active() {
        let i = choose|i: int|
            0 <= i < n.toplevels.len() && (#[trigger] n.toplevels[i]).app_id == n.watch_app_id
                && n.toplevels[i].activated;
        assert(d.toplevels[i].app_id == d.watch_app_id && d.toplevels[i].activated);
    }
}

/// When the compositor has finished a batch of changes, or a window is gone, what was
/// told of the watched application is what holds of its windows.
pub proof fn law_told_is_true(d: AppDataView, handle: u64, activated: Seq<u8>)
    ensures
        ({
            let after = d.after_foreign(handle, ForeignEvent::Done).0;
            after.watch_activated == after.watched_is_active()
        }),
        ({
            let after = d.after_foreign(handle, ForeignEvent::Closed).0;
            after.watch_activated == after.watched_is_active()
        }),
        ({
            let after = d.after_cosmic(handle, CosmicEvent::Done, activated).0;
            after.watch_activated == after.watched_is_active()
        }),
{
    lemma_notified_windows(d);
    lemma_notified_windows(d.closed(handle));
}

/// A closed window is forgotten, and only it: every other window stays as it was.
pub proof fn law_closed_window_is_forgotten(d: AppDataView, handle: u64)
    ensures
        forall|i: int|
            0 <= i < d.closed(handle).toplevels.len() ==> (#[trigger] d.closed(
                handle,
            ).toplevels[i]).foreign != handle && d.toplevels.contains(
                d.closed(handle).toplevels[i],
            ),
        forall|i: int|
            0 <= i < d.toplevels.len() && (#[trigger] d.toplevels[i]).foreign != handle
                ==> d.closed(handle).toplevels.contains(d.toplevels[i]),
        d.closed(handle).closed(handle) == d.closed(handle),
{
    let keep = other_than(handle);
    broadcast use vstd::seq_lib::group_filter_ensures;

    let rest = d.closed(handle).toplevels;
    assert forall|i: int| 0 <= i < rest.len() implies (#[trigger] rest[i]).foreign != handle
        && d.toplevels.contains(rest[i]) by {
        assert(keep(rest[i]));
        lemma_filter_contains(d.toplevels, keep, i);
    }
    assert forall|i: int|
        0 <= i < d.toplevels.len() && (#[trigger] d.toplevels[i]).foreign
            != handle implies rest.contains(d.toplevels[i]) by {
        assert(keep(d.toplevels[i]));
    }
    lemma_filter_all(rest, keep);
    assert(d.closed(handle).closed(handle) =~= d.closed(handle));
}

/// What a filter keeps was there before.
proof fn lemma_filter_contains(
    s: Seq<ToplevelView>,
    p: spec_fn(ToplevelView) -> bool,
    i: int,
)
    requires
        0 <= i < s.filter(p).len(),
    ensures
        s.contains(s.filter(p)[i]),
    decreases s.len(),
{
    reveal(Seq::filter);
    if s.len() > 0 {
        let rest = s.drop_last();
        if i < rest.filter(p).len() {
            lemma_filter_contains(rest, p, i);
            let j = choose|j: int| 0 <= j < rest.len() && rest[j] == rest.filter(p)[i];
            assert(s[j] == s.filter(p)[i]);
        } else {
            assert(s.filter(p)[i] == s[s.len() - 1]);
        }
    }
}

/// A filter that picks everything changes nothing.
proof fn lemma_filter_all(s: Seq<ToplevelView>, p: spec_fn(ToplevelView) -> bool)
    requires
        forall|i: int| 0 <= i < s.len() ==> p(#[trigger] s[i]),
    ensures
        s.filter(p) == s,
    decreases s.len(),
{
    reveal(Seq::filter);
    if s.len() > 0 {
        lemma_filter_all(s.drop_last(), p);
        assert(s.drop_last().push(s.last()) =~= s);
    }
}

/// A request to minimize reaches a window of the application that was named, or none:
/// the first of its windows, and only once its COSMIC handle is known.
pub proof fn law_minimize_reaches_named_app(d: AppDataView, app_id: Seq<char>, handle: u64)
    requires
        d.to_minimize(app_id) == Some(handle),
    ensures
        d.manager,
        exists|i: int|
            0 <= i < d.toplevels.len() && (#[trigger] d.toplevels[i]).app_id == app_id
                && d.toplevels[i].cosmic == Some(handle) && forall|j: int|
                0 <= j < i ==> (#[trigger] d.toplevels[j]).app_id != app_id,
{
    let i = first_window(d.toplevels, by_app(app_id));
    law_first_window(d.toplevels, by_app(app_id));
    assert(d.toplevels[i].app_id == app_id);
    assert forall|j: int| 0 <= j < i implies (#[trigger] d.toplevels[j]).app_id != app_id by {
        assert(!by_app(app_id)(d.toplevels[j]));
    }
}

/// A window that has just opened does not count as active.
pub proof fn law_opening_activates_nothing(d: AppDataView, foreign: u64)
    ensures
        d.opened(foreign).watched_is_active() == d.watched_is_active(),
{
    let o = d.opened(foreign);
    if d.watched_is_active() {
        let i = choose|i: int|
            0 <= i < d.toplevels.len() && (#[trigger] d.toplevels[i]).app_id == d.watch_app_id
                && d.toplevels[i].activated;
        assert(o.toplevels[i].app_id == o.watch_app_id && o.toplevels[i].activated);
    }
    if o.watched_is_active() {
        let i = choose|i: int|
            0 <= i < o.toplevels.len() && (#[trigger] o.toplevels[i]).app_id == o.watch_app_id
                && o.toplevels[i].activated;
        assert(i < d.toplevels.len());
        assert(d.toplevels[i].app_id == d.watch_app_id && d.toplevels[i].activated);
    }
}

/// No event of a window changes which application is watched, what is bound, or
/// whether the tracker ends.
pub proof fn law_window_events_keep_the_rest(
    d: AppDataView,
    handle: u64,
    foreign: ForeignEvent,
    cosmic: CosmicEvent,
    activated: Seq<u8>,
)
    ensures
        d.after_foreign(handle, foreign).0 == (AppDataView {
            toplevels: d.after_foreign(handle, foreign).0.toplevels,
            watch_activated: d.after_foreign(handle, foreign).0.watch_activated,
            ..d
        }),
        d.after_cosmic(handle, cosmic, activated).0 == (AppDataView {
            toplevels: d.after_cosmic(handle, cosmic, activated).0.toplevels,
            watch_activated: d.after_cosmic(handle, cosmic, activated).0.watch_activated,
            ..d
        }),
        d.after_cosmic(handle, cosmic, activated).0.toplevels.len() == d.toplevels.len(),
{
    law_first_window(d.toplevels, by_cosmic(handle));
}

/// What can happen to the tracker: a global is announced, a window opens, its COSMIC
/// handle is noted, one of its two handles tells something, the tracker is asked for
/// news, or nobody can send requests any more.
pub enum TrackerEvent {
    Global { name: u32, interface: Seq<char>, version: u32 },
    Opened(u64),
    CosmicHandle { foreign: u64, cosmic: u64 },
    Foreign(u64, ForeignEvent),
    Cosmic(u64, CosmicEvent, Seq<u8>),
    Notify,
    CommandsClosed,
}

impl AppDataView {
    /// What an event makes of the tracker, and what it tells.
    pub open spec fn after_event(self, event: TrackerEvent) -> (
        AppDataView,
        Option<TopUpdateView>,
    ) {
        match event {
            TrackerEvent::Global { name, interface, version } => (
                self.bound(bind_for(name, interface, version)),
                None,
            ),
            TrackerEvent::Opened(foreign) => (self.opened(foreign), None),
            TrackerEvent::CosmicHandle { foreign, cosmic } => (
                self.with_first(
                    by_foreign(foreign),
                    |t: ToplevelView| ToplevelView { cosmic: Some(cosmic), ..t },
                ),
                None,
            ),
            TrackerEvent::Foreign(handle, e) => self.after_foreign(handle, e),
            TrackerEvent::Cosmic(handle, e, activated) => self.after_cosmic(
                handle,
                e,
                activated,
            ),
            TrackerEvent::Notify => (self.notified(), self.notice()),
            TrackerEvent::CommandsClosed => (AppDataView { exit: true, ..self }, None),
        }
    }
}

/// The tracker after the events, from its start on.
pub open spec fn after_events(watch_app_id: Seq<char>, events: Seq<TrackerEvent>) -> AppDataView
    decreases events.len(),
{
    if events.len() == 0 {
        AppDataView::start(watch_app_id)
    } else {
        after_events(watch_app_id, events.drop_last()).after_event(events.last()).0
    }
}

/// Everything that the tracker has told over the events, from its start on.
pub open spec fn updates(watch_app_id: Seq<char>, events: Seq<TrackerEvent>) -> Seq<TopUpdateView>
    decreases events.len(),
{
    if events.len() == 0 {
        seq![]
    } else {
        let before = updates(watch_app_id, events.drop_last());
        match after_events(watch_app_id, events.drop_last()).after_event(events.last()).1 {
            Some(update) => before.push(update),
            None => before,
        }
    }
}

/// Whatever happens, every update names the watched application, and the updates tell
/// in turn that it is active and that it is not, beginning with active. The tracker
/// remembers what it told last.
pub proof fn law_updates_alternate(watch_app_id: Seq<char>, events: Seq<TrackerEvent>)
    ensures
        forall|i: int|
            0 <= i < updates(watch_app_id, events).len() ==> #[trigger] updates(
                watch_app_id,
                events,
            )[i] == (TopUpdateView::AppActivated { app_id: watch_app_id, active: i % 2 == 0 }),
        after_events(watch_app_id, events).watch_app_id == watch_app_id,
        after_events(watch_app_id, events).watch_activated == (updates(
            watch_app_id,
            events,
        ).len() % 2 == 1),
    decreases events.len(),
{
    if events.len() > 0 {
        law_updates_alternate(watch_app_id, events.drop_last());
        let d = after_events(watch_app_id, events.drop_last());
        law_notice_is_news(d);
        if let TrackerEvent::Foreign(handle, _) = events.last() {
            law_notice_is_news(d.closed(handle));
        }
    }
}

/// Where a manager is bound, a request to minimize yields the COSMIC handle of the first
/// window of the application as far as it is known, whether or not the window is
/// activated. Without a manager it yields none.
pub proof fn law_minimize_yields_first_handle(d: AppDataView, app_id: Seq<char>, i: int)
    requires
        0 <= i < d.toplevels.len(),
        d.toplevels[i].app_id == app_id,
        forall|j: int| 0 <= j < i ==> (#[trigger] d.toplevels[j]).app_id != app_id,
    ensures
        d.manager ==> d.to_minimize(app_id) == d.toplevels[i].cosmic,
        !d.manager ==> d.to_minimize(app_id) is None,
{
    lemma_first_window(d.toplevels, by_app(app_id), i);
}

/// For an application without a window there is nothing to minimize.
pub proof fn law_nothing_to_minimize_without_window(d: AppDataView, app_id: Seq<char>)
    requires
        forall|j: int| 0 <= j < d.toplevels.len() ==> (#[trigger] d.toplevels[j]).app_id != app_id,
    ensures
        d.to_minimize(app_id) is None,
{
    lemma_first_window(d.toplevels, by_app(app_id), d.toplevels.len() as int);
}

/// What there is to minimize does not depend on which window has the focus, on what was
/// told last, or on which application is watched.
pub proof fn law_minimize_regardless_of_focus(
    d: AppDataView,
    e: AppDataView,
    app_id: Seq<char>,
)
    requires
        d.manager == e.manager,
        d.toplevels.len() == e.toplevels.len(),
        forall|i: int|
            0 <= i < d.toplevels.len() ==> (#[trigger] d.toplevels[i]).app_id
                == e.toplevels[i].app_id && d.toplevels[i].cosmic == e.toplevels[i].cosmic,
    ensures
        d.to_minimize(app_id) == e.to_minimize(app_id),
{
    let p = by_app(app_id);
    let i = first_window(d.toplevels, p);
    law_first_window(d.toplevels, p);
    assert forall|j: int| 0 <= j < i implies !p(#[trigger] e.toplevels[j]) by {
        assert(!p(d.toplevels[j]));
    }
    if i < d.toplevels.len() {
        assert(p(d.toplevels[i]));
    }
    lemma_first_window(e.toplevels, p, i);
}

/// Whether a word stands in the bytes as their word number `k`.
pub open spec fn word_stands_at(raw: Seq<u8>, k: int, word: Seq<u8>) -> bool {
    &&& 0 <= k
    &&& 4 * k + 4 <= raw.len()
    &&& raw[4 * k] == word[0]
    &&& raw[4 * k + 1] == word[1]
    &&& raw[4 * k + 2] == word[2]
    &&& raw[4 * k + 3] == word[3]
}

/// A state is found exactly where its four bytes stand in the states, at a multiple of
/// four.
pub proof fn law_state_is_found_in_words(raw: Seq<u8>, word: Seq<u8>)
    requires
        word.len() == 4,
    ensures
        holds_word(raw, word) <==> exists|k: int| #[trigger] word_stands_at(raw, k, word),
{
    if holds_word(raw, word) {
        let k = choose|k: int| 0 <= k < raw.len() / 4 && #[trigger] word_at(raw, k) == word;
        assert(word_at(raw, k)[0] == raw[4 * k]);
        assert(word_at(raw, k)[1] == raw[4 * k + 1]);
        assert(word_at(raw, k)[2] == raw[4 * k + 2]);
        assert(word_at(raw, k)[3] == raw[4 * k + 3]);
        assert(word_stands_at(raw, k, word));
    }
    if exists|k: int| #[trigger] word_stands_at(raw, k, word) {
        let k = choose|k: int| #[trigger] word_stands_at(raw, k, word);
        assert(word_at(raw, k) =~= word);
    }
}

/// What a COSMIC handle tells of the states of its window is noted there: whether the
/// state "activated" is among them. Nothing else changes, and nothing is told yet.
pub proof fn law_focus_is_noted(
    d: AppDataView,
    handle: u64,
    raw: Vec<u8>,
    activated: Seq<u8>,
    i: int,
)
    requires
        activated.len() == 4,
        0 <= i < d.toplevels.len(),
        d.toplevels[i].cosmic == Some(handle),
        forall|j: int| 0 <= j < i ==> (#[trigger] d.toplevels[j]).cosmic != Some(handle),
    ensures
        d.after_cosmic(handle, CosmicEvent::State(raw), activated).0 == (AppDataView {
            toplevels: d.toplevels.update(
                i,
                ToplevelView {
                    activated: exists|k: int| #[trigger] word_stands_at(raw@, k, activated),
                    ..d.toplevels[i]
                },
            ),
            ..d
        }),
        d.after_cosmic(handle, CosmicEvent::State(raw), activated).1 is None,
{
    law_state_is_found_in_words(raw@, activated);
    lemma_first_window(d.toplevels, by_cosmic(handle), i);
}

/// The name that a foreign handle tells is noted at its window. Nothing else changes,
/// and nothing is told yet.
pub proof fn law_app_id_is_noted(d: AppDataView, handle: u64, app_id: String, i: int)
    requires
        0 <= i < d.toplevels.len(),
        d.toplevels[i].foreign == handle,
        forall|j: int| 0 <= j < i ==> (#[trigger] d.toplevels[j]).foreign != handle,
    ensures
        d.after_foreign(handle, ForeignEvent::AppId(app_id)).0 == (AppDataView {
            toplevels: d.toplevels.update(
                i,
                ToplevelView { app_id: app_id@, ..d.toplevels[i] },
            ),
            ..d
        }),
        d.after_foreign(handle, ForeignEvent::AppId(app_id)).1 is None,
{
    lemma_first_window(d.toplevels, by_foreign(handle), i);
}

/// The COSMIC handle that was given out for a foreign handle is noted at its window, and
/// nothing else changes.
pub proof fn law_cosmic_handle_is_noted(d: AppDataView, foreign: u64, cosmic: u64, i: int)
    requires
        0 <= i < d.toplevels.len(),
        d.toplevels[i].foreign == foreign,
        forall|j: int| 0 <= j < i ==> (#[trigger] d.toplevels[j]).foreign != foreign,
    ensures
        d.with_first(
            by_foreign(foreign),
            |t: ToplevelView| ToplevelView { cosmic: Some(cosmic), ..t },
        ) == (AppDataView {
            toplevels: d.toplevels.update(
                i,
                ToplevelView { cosmic: Some(cosmic), ..d.toplevels[i] },
            ),
            ..d
        }),
{
    lemma_first_window(d.toplevels, by_foreign(foreign), i);
}

/// What a handle that belongs to no window tells of names and states changes nothing.
pub proof fn law_unknown_handle_changes_nothing(
    d: AppDataView,
    handle: u64,
    app_id: String,
    raw: Vec<u8>,
    activated: Seq<u8>,
)
    ensures
        (forall|j: int|
            0 <= j < d.toplevels.len() ==> (#[trigger] d.toplevels[j]).foreign != handle)
            ==> d.after_foreign(handle, ForeignEvent::AppId(app_id)) == (
            d,
            None::<TopUpdateView>,
        ),
        (forall|j: int|
            0 <= j < d.toplevels.len() ==> (#[trigger] d.toplevels[j]).cosmic != Some(handle))
            ==> d.after_cosmic(handle, CosmicEvent::State(raw), activated) == (
            d,
            None::<TopUpdateView>,
        ),
        d.after_foreign(handle, ForeignEvent::Other) == (d, None::<TopUpdateView>),
        d.after_cosmic(handle, CosmicEvent::Closed, activated) == (d, None::<TopUpdateView>),
        d.after_cosmic(handle, CosmicEvent::Other, activated) == (d, None::<TopUpdateView>),
{
    let n = d.toplevels.len() as int;
    if forall|j: int| 0 <= j < n ==> (#[trigger] d.toplevels[j]).foreign != handle {
        lemma_first_window(d.toplevels, by_foreign(handle), n);
    }
    if forall|j: int| 0 <= j < n ==> (#[trigger] d.toplevels[j]).cosmic != Some(handle) {
        lemma_first_window(d.toplevels, by_cosmic(handle), n);
    }
}

/// Whether a window of the watched application is among the windows with the focus.
pub open spec fn focused_among(windows: Seq<ToplevelView>, app_id: Seq<char>) -> bool {
    exists|i: int|
        0 <= i < windows.len() && (#[trigger] windows[i]).app_id == app_id && windows[i].activated
}

/// At the end of a batch of changes, from either handle, the tracker tells whether a
/// window of the watched application has the focus, exactly where that is not what it
/// told last. It changes nothing but what it remembers to have told.
pub proof fn law_batch_tells_the_focus(d: AppDataView, handle: u64, activated: Seq<u8>)
    ensures
        ({
            let active = focused_among(d.toplevels, d.watch_app_id);
            let told = if active != d.watch_activated {
                Some(TopUpdateView::AppActivated { app_id: d.watch_app_id, active })
            } else {
                None
            };
            let after = AppDataView { watch_activated: active, ..d };
            &&& d.after_foreign(handle, ForeignEvent::Done) == (after, told)
            &&& d.after_cosmic(handle, CosmicEvent::Done, activated) == (after, told)
            &&& d.notified() == after
            &&& d.notice() == told
        }),
{
    lemma_focused_among(d);
}

/// A window that closes is gone, and what is left is told as at the end of a batch.
pub proof fn law_closing_tells_the_focus(d: AppDataView, handle: u64)
    ensures
        ({
            let left = d.closed(handle).toplevels;
            let active = focused_among(left, d.watch_app_id);
            &&& d.after_foreign(handle, ForeignEvent::Closed).0 == (AppDataView {
                toplevels: left,
                watch_activated: active,
                ..d
            })
            &&& d.after_foreign(handle, ForeignEvent::Closed).1 == if active
                != d.watch_activated {
                Some(TopUpdateView::AppActivated { app_id: d.watch_app_id, active })
            } else {
                None
            }
        }),
{
    lemma_focused_among(d.closed(handle));
}

proof fn lemma_focused_among(d: AppDataView)
    ensures
        d.watched_is_active() == focused_among(d.toplevels, d.watch_app_id),
{
    if d.watched_is_active() {
        let i = choose|i: int|
            0 <= i < d.toplevels.len() && (#[trigger] d.toplevels[i]).app_id == d.watch_app_id
                && d.toplevels[i].activated;
        assert(d.toplevels[i].app_id == d.watch_app_id);
    }
    if focused_among(d.toplevels, d.watch_app_id) {
        let i = choose|i: int|
            0 <= i < d.toplevels.len() && (#[trigger] d.toplevels[i]).app_id == d.watch_app_id
                && d.toplevels[i].activated;
        assert(d.toplevels[i].app_id == d.watch_app_id);
    }
}

/// The windows that stay when one closes keep their order: of windows with one more at
/// the end, the same stay as without it, and behind them the one at the end, unless it
/// is the one that closes.
pub proof fn law_closing_keeps_the_order(d: AppDataView, handle: u64, w: ToplevelView)
    ensures
        (AppDataView { toplevels: Seq::empty(), ..d }).closed(handle).toplevels.len() == 0,
        (AppDataView { toplevels: d.toplevels.push(w), ..d }).closed(handle).toplevels == (
        if w.foreign == handle {
            d.closed(handle).toplevels
        } else {
            d.closed(handle).toplevels.push(w)
        }),
        d.closed(handle) == (AppDataView { toplevels: d.closed(handle).toplevels, ..d }),
{
    reveal(Seq::filter);
    assert(d.toplevels.push(w).drop_last() =~= d.toplevels);
}

/// A window that opens comes behind the others, with its foreign handle and without a
/// name, a COSMIC handle or the focus. Nothing else changes.
pub proof fn law_opened_window_comes_last(d: AppDataView, foreign: u64)
    ensures
        d.opened(foreign).toplevels.len() == d.toplevels.len() + 1,
        d.opened(foreign).toplevels.drop_last() == d.toplevels,
        d.opened(foreign).toplevels.last().foreign == foreign,
        d.opened(foreign).toplevels.last().cosmic is None,
        d.opened(foreign).toplevels.last().app_id.len() == 0,
        !d.opened(foreign).toplevels.last().activated,
        d.opened(foreign) == (AppDataView { toplevels: d.opened(foreign).toplevels, ..d }),
{
    assert(d.opened(foreign).toplevels.drop_last() =~= d.toplevels);
}

/// A tracker starts with nothing bound, no window, and nothing told.
pub proof fn law_tracker_starts_empty(watch_app_id: Seq<char>)
    ensures
        !AppDataView::start(watch_app_id).exit,
        !AppDataView::start(watch_app_id).foreign_list,
        !AppDataView::start(watch_app_id).cosmic_info,
        !AppDataView::start(watch_app_id).manager,
        AppDataView::start(watch_app_id).toplevels.len() == 0,
        AppDataView::start(watch_app_id).watch_app_id == watch_app_id,
        !AppDataView::start(watch_app_id).watch_activated,
{
}

/// Of the interfaces that the registry announces, the three that the tracker uses are
/// bound under the number that was announced: the list of windows and the manager in
/// their first version, the window information in its second, where it is offered.
pub proof fn law_used_interfaces_are_bound(name: u32, interface: Seq<char>, version: u32)
    ensures
        interface == "ext_foreign_toplevel_list_v1"@ ==> bind_for(name, interface, version)
            == Some(Bind { global: Global::ForeignList, name, version: 1 }),
        interface == "zcosmic_toplevel_info_v1"@ && version >= 2 ==> bind_for(
            name,
            interface,
            version,
        ) == Some(Bind { global: Global::CosmicInfo, name, version: 2 }),
        interface == "zcosmic_toplevel_info_v1"@ && version < 2 ==> bind_for(
            name,
            interface,
            version,
        ) is None,
        interface == "zcosmic_toplevel_manager_v1"@ ==> bind_for(name, interface, version) == Some(
            Bind { global: Global::Manager, name, version: 1 },
        ),
        interface != "ext_foreign_toplevel_list_v1"@ && interface != "zcosmic_toplevel_info_v1"@
            && interface != "zcosmic_toplevel_manager_v1"@ ==> bind_for(name, interface, version)
            is None,
{
    reveal_strlit("ext_foreign_toplevel_list_v1");
    reveal_strlit("zcosmic_toplevel_info_v1");
    reveal_strlit("zcosmic_toplevel_manager_v1");
    assert("ext_foreign_toplevel_list_v1"@.len() == 28);
    assert("zcosmic_toplevel_info_v1"@.len() == 24);
    assert("zcosmic_toplevel_manager_v1"@.len() == 27);
}

/// What is bound is noted as bound, and nothing else changes.
pub proof fn law_bound_global_is_noted(d: AppDataView, name: u32, version: u32)
    ensures
        d.bound(Some(Bind { global: Global::ForeignList, name, version })) == (AppDataView {
            foreign_list: true,
            ..d
        }),
        d.bound(Some(Bind { global: Global::CosmicInfo, name, version })) == (AppDataView {
            cosmic_info: true,
            ..d
        }),
        d.bound(Some(Bind { global: Global::Manager, name, version })) == (AppDataView {
            manager: true,
            ..d
        }),
        d.bound(None) == d,
{
}

/// The thread announces itself, connects, makes its roundtrips, attaches the connection
/// and then the requests, and handles events from then on. Where it cannot connect or
/// attach, it ends.
pub proof fn law_thread_goes_step_by_step(ok: bool, exit: bool, n: u8)
    ensures
        next_handler_step(HandlerStep::Announce, ok, exit) == HandlerStep::Connect,
        next_handler_step(HandlerStep::Connect, true, exit) == HandlerStep::Roundtrip(1),
        next_handler_step(HandlerStep::Connect, false, exit) == HandlerStep::Stop,
        n < 4 ==> next_handler_step(HandlerStep::Roundtrip(n), ok, exit) == HandlerStep::Roundtrip(
            (n + 1) as u8,
        ),
        n >= 4 ==> next_handler_step(HandlerStep::Roundtrip(n), ok, exit)
            == HandlerStep::AttachWayland,
        next_handler_step(HandlerStep::AttachWayland, true, exit) == HandlerStep::AttachCommands,
        next_handler_step(HandlerStep::AttachWayland, false, exit) == HandlerStep::Stop,
        next_handler_step(HandlerStep::AttachCommands, true, false) == HandlerStep::Dispatch,
        next_handler_step(HandlerStep::AttachCommands, false, exit) == HandlerStep::Stop,
        next_handler_step(HandlerStep::AttachCommands, ok, true) == HandlerStep::Stop,
{
}

/// A request to minimize an application, where a manager is bound, is answered with the
/// COSMIC handle of the first window of that application, focused or not.
pub proof fn law_command_answers_first_handle(
    data: &AppData,
    app_id: String,
    minimize: Option<u64>,
    i: int,
)
    requires
        call_ensures(AppData::command, (data, TopCmd::Minimize(app_id)), minimize),
        0 <= i < data.toplevels@.len(),
        data.toplevels@[i].app_id@ == app_id@,
        forall|j: int| 0 <= j < i ==> (#[trigger] data.toplevels@[j]).app_id@ != app_id@,
    ensures
        data.manager ==> minimize == data.toplevels@[i].cosmic,
        !data.manager ==> minimize is None,
{
    let cmd = TopCmd::Minimize(app_id);
    assert(cmd@ == TopCmdView::Minimize(app_id@));
    assert forall|j: int| 0 <= j < i implies (#[trigger] data@.toplevels[j]).app_id
        != app_id@ by {
        assert(data.toplevels@[j].app_id@ != app_id@);
    }
    law_minimize_yields_first_handle(data@, app_id@, i);
}

/// A window that opens is taken up, and its COSMIC handle is asked for exactly where the
/// window information is bound.
pub proof fn law_opened_window_is_asked_for(data: &mut AppData, foreign: u64, request: Option<u64>)
    requires
        call_ensures(AppData::toplevel_opened, (data, foreign), request),
    ensures
        final(data)@.toplevels.len() == old(data)@.toplevels.len() + 1,
        final(data)@.toplevels.last().foreign == foreign,
        old(data).cosmic_info ==> request == Some(foreign),
        !old(data).cosmic_info ==> request is None,
{
    assert(old(data).cosmic_info == old(data)@.cosmic_info);
}

/// A COSMIC handle that was given out is noted at the window of its foreign handle, and
/// nothing else changes.
pub proof fn law_given_handle_is_noted(data: &mut AppData, foreign: u64, cosmic: u64, i: int)
    requires
        call_ensures(AppData::request_cosmic_for_foreign, (data, foreign, cosmic), ()),
        0 <= i < old(data)@.toplevels.len(),
        old(data)@.toplevels[i].foreign == foreign,
        forall|j: int| 0 <= j < i ==> (#[trigger] old(data)@.toplevels[j]).foreign != foreign,
    ensures
        final(data)@ == (AppDataView {
            toplevels: old(data)@.toplevels.update(
                i,
                ToplevelView { cosmic: Some(cosmic), ..old(data)@.toplevels[i] },
            ),
            ..old(data)@
        }),
{
    law_cosmic_handle_is_noted(old(data)@, foreign, cosmic, i);
}

/// When nobody can send requests any more the tracker is to end, and nothing else
/// changes.
pub proof fn law_closed_requests_end_the_tracker(data: &mut AppData)
    requires
        call_ensures(AppData::commands_closed, (data,), ()),
    ensures
        final(data)@ == (AppDataView { exit: true, ..old(data)@ }),
{
}

/// The tracker tells whether a window of the watched application has the focus, exactly
/// where that is not what it told last.
pub proof fn law_notification_tells_the_focus(data: &mut AppData, update: Option<TopUpdate>)
    requires
        call_ensures(AppData::notify_if_changed, (data,), update),
    ensures
        ({
            let active = focused_among(old(data)@.toplevels, old(data)@.watch_app_id);
            &&& final(data)@ == (AppDataView { watch_activated: active, ..old(data)@ })
            &&& update is Some <==> active != old(data)@.watch_activated
            &&& update matches Some(u) ==> (u matches TopUpdate::AppActivated { app_id, active: a }
                && app_id@ == old(data)@.watch_app_id && a == active)
        }),
{
    law_batch_tells_the_focus(old(data)@, 0, Seq::empty());
    assert(opt_update(update) == old(data)@.notice());
    if let Some(u) = update {
        assert(u@ is AppActivated);
        assert(u is AppActivated);
    }
}

} // verus!
