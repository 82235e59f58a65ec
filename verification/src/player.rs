//! What the player reports, and how its replies on the bus are read.
use vstd::hash_map::StringHashMap;
use vstd::prelude::*;
use vstd::string::*;

use crate::text::same_text;

verus! {

/// The bus name of the player.
pub const MPRIS_BUS: &'static str = "org.mpris.MediaPlayer2.spotify";

/// The object of the player on the bus.
pub const MPRIS_PATH: &'static str = "/org/mpris/MediaPlayer2";

/// The interface of the player.
pub const MPRIS_PLAYER: &'static str = "org.mpris.MediaPlayer2.Player";

/// A track, as the player describes it.
#[derive(Debug)]
pub struct TrackInfo {
    pub title: String,
    pub artist: String,
    pub album: String,
    pub art_url: Option<String>,
    /// microseconds
    pub position_us: i64,
    /// microseconds
    pub length_us: i64,
    pub is_playing: bool,
    pub track_id: String,
}

/// A track as plain mathematical values.
#[verifier::ext_equal]
pub struct TrackInfoView {
    pub title: Seq<char>,
    pub artist: Seq<char>,
    pub album: Seq<char>,
    pub art_url: Option<Seq<char>>,
    pub position_us: i64,
    pub length_us: i64,
    pub is_playing: bool,
    pub track_id: Seq<char>,
}

/// The characters of a text that may be missing.
pub open spec fn opt_text(text: Option<String>) -> Option<Seq<char>> {
    match text {
        Some(s) => Some(s@),
        None => None,
    }
}

impl View for TrackInfo {
    type V = TrackInfoView;

    open spec fn view(&self) -> TrackInfoView {
        TrackInfoView {
            title: self.title@,
            artist: self.artist@,
            album: self.album@,
            art_url: opt_text(self.art_url),
            position_us: self.position_us,
            length_us: self.length_us,
            is_playing: self.is_playing,
            track_id: self.track_id@,
        }
    }
}

impl Default for TrackInfo {
    fn default() -> (track: Self)
        ensures
            track@ == (TrackInfoView {
                title: Seq::empty(),
                artist: Seq::empty(),
                album: Seq::empty(),
                art_url: None,
                position_us: 0,
                length_us: 0,
                is_playing: false,
                track_id: Seq::empty(),
            }),
    {
        TrackInfo {
            title: String::new(),
            artist: String::new(),
            album: String::new(),
            art_url: None,
            position_us: 0,
            length_us: 0,
            is_playing: false,
            track_id: String::new(),
        }
    }
}

/// A copy of a text that may be missing.
pub fn copy_opt_text(text: &Option<String>) -> (copy: Option<String>)
    ensures
        copy == *text,
{
    match text {
        Some(s) => Some(s.clone()),
        None => None,
    }
}

impl Clone for TrackInfo {
    fn clone(&self) -> (copy: Self)
        ensures
            copy == *self,
    {
        TrackInfo {
            title: self.title.clone(),
            artist: self.artist.clone(),
            album: self.album.clone(),
            art_url: copy_opt_text(&self.art_url),
            position_us: self.position_us,
            length_us: self.length_us,
            is_playing: self.is_playing,
            track_id: self.track_id.clone(),
        }
    }
}

/// What is known of the player.
#[derive(Debug)]
pub enum PlayerState {
    NotRunning,
    Stopped,
    Active(TrackInfo),
}

/// The state of the player as plain mathematical values.
#[verifier::ext_equal]
pub enum PlayerStateView {
    NotRunning,
    Stopped,
    Active(TrackInfoView),
}

impl View for PlayerState {
    type V = PlayerStateView;

    open spec fn view(&self) -> PlayerStateView {
        match self {
            PlayerState::NotRunning => PlayerStateView::NotRunning,
            PlayerState::Stopped => PlayerStateView::Stopped,
            PlayerState::Active(t) => PlayerStateView::Active(t@),
        }
    }
}

impl PlayerStateView {
    /// The id of the current track, empty where no track is current.
    pub open spec fn track_id(self) -> Seq<char> {
        match self {
            PlayerStateView::Active(t) => t.track_id,
            _ => Seq::empty(),
        }
    }

    /// The address of the art of the current track, if there is one.
    pub open spec fn art_url(self) -> Option<Seq<char>> {
        match self {
            PlayerStateView::Active(t) => t.art_url,
            _ => None,
        }
    }

    /// Whether a track plays.
    pub open spec fn is_playing(self) -> bool {
        self matches PlayerStateView::Active(t) && t.is_playing
    }
}

impl Clone for PlayerState {
    fn clone(&self) -> (copy: Self)
        ensures
            copy == *self,
    {
        match self {
            PlayerState::NotRunning => PlayerState::NotRunning,
            PlayerState::Stopped => PlayerState::Stopped,
            PlayerState::Active(t) => PlayerState::Active(t.clone()),
        }
    }
}

/// A value on the bus, as far as track metadata reads one.
#[derive(Debug)]
pub enum MetaValue {
    Str(String),
    I64(i64),
    Array(Vec<MetaValue>),
    /// A value of any other type.
    Other,
}

/// The metadata of a track: values by key.
pub struct Metadata {
    entries: StringHashMap<MetaValue>,
}

impl View for Metadata {
    type V = Map<Seq<char>, MetaValue>;

    closed spec fn view(&self) -> Map<Seq<char>, MetaValue> {
        self.entries@
    }
}

impl Metadata {
    /// Metadata without an entry.
    pub fn new() -> (m: Metadata)
        ensures
            m@ == Map::<Seq<char>, MetaValue>::empty(),
    {
        Metadata { entries: StringHashMap::new() }
    }

    /// Sets the value of a key.
    pub fn insert(&mut self, key: String, value: MetaValue)
        ensures
            final(self)@ == old(self)@.insert(key@, value),
    {
        self.entries.insert(key, value);
    }

    /// The value of a key.
    pub fn get(&self, key: &str) -> (value: Option<&MetaValue>)
        ensures
            value matches Some(v) ==> self@.contains_key(key@) && *v == self@[key@],
            value is None ==> !self@.contains_key(key@),
    {
        self.entries.get(key)
    }
}

/// The string that a value is, if it is one.
pub open spec fn string_of(value: MetaValue) -> Option<Seq<char>> {
    match value {
        MetaValue::Str(s) => Some(s@),
        _ => None,
    }
}

/// The string under a key, if there is one.
pub open spec fn string_under(m: Map<Seq<char>, MetaValue>, key: Seq<char>) -> Option<Seq<char>> {
    if m.contains_key(key) {
        string_of(m[key])
    } else {
        None
    }
}

/// The first string among the items, if there is one.
pub open spec fn first_string(items: Seq<MetaValue>) -> Option<Seq<char>>
    decreases items.len(),
{
    if items.len() == 0 {
        None
    } else if items[0] is Str {
        string_of(items[0])
    } else {
        first_string(items.drop_first())
    }
}

/// The first string in the array under a key, if there is one.
pub open spec fn first_string_under(m: Map<Seq<char>, MetaValue>, key: Seq<char>) -> Option<
    Seq<char>,
> {
    if m.contains_key(key) {
        match m[key] {
            MetaValue::Array(items) => first_string(items@),
            _ => None,
        }
    } else {
        None
    }
}

/// The integer under a key, if there is one.
pub open spec fn integer_under(m: Map<Seq<char>, MetaValue>, key: Seq<char>) -> Option<i64> {
    if m.contains_key(key) {
        match m[key] {
            MetaValue::I64(n) => Some(n),
            _ => None,
        }
    } else {
        None
    }
}

/// Reads the string under a key.
pub fn str_val(m: &Metadata, k: &str) -> (r: Option<String>)
    ensures
        opt_text(r) == string_under(m@, k@),
{
    match m.get(k) {
        Some(MetaValue::Str(s)) => Some(s.clone()),
        _ => None,
    }
}

/// Reads the first string of the array under a key.
pub fn arr_first_str(m: &Metadata, k: &str) -> (r: Option<String>)
    ensures
        opt_text(r) == first_string_under(m@, k@),
{
    match m.get(k) {
        Some(MetaValue::Array(items)) => {
            let mut i: usize = 0;
            assert(items@.skip(0) =~= items@);
            while i < items.len()
                invariant
                    i <= items.len(),
                    first_string_under(m@, k@) == first_string(items@),
                    first_string(items@) == first_string(items@.skip(i as int)),
                decreases items.len() - i,
            {
                assert(items@.skip(i as int).drop_first() =~= items@.skip(i + 1));
                if let MetaValue::Str(s) = &items[i] {
                    return Some(s.clone());
                }
                i += 1;
            }
            None
        },
        _ => None,
    }
}

/// Reads the integer under a key.
pub fn i64_val(m: &Metadata, k: &str) -> (r: Option<i64>)
    ensures
        r == integer_under(m@, k@),
{
    match m.get(k) {
        Some(MetaValue::I64(n)) => Some(*n),
        _ => None,
    }
}

/// `text`, or the empty text where there is none.
pub open spec fn text_or_empty(text: Option<Seq<char>>) -> Seq<char> {
    match text {
        Some(s) => s,
        None => Seq::empty(),
    }
}

/// The track that a player reports by its status, its metadata and its position.
pub open spec fn reported_track(
    status: Seq<char>,
    m: Map<Seq<char>, MetaValue>,
    position: i64,
) -> TrackInfoView {
    TrackInfoView {
        title: text_or_empty(string_under(m, "xesam:title"@)),
        artist: text_or_empty(first_string_under(m, "xesam:artist"@)),
        album: text_or_empty(string_under(m, "xesam:album"@)),
        art_url: string_under(m, "mpris:artUrl"@),
        position_us: position,
        length_us: match integer_under(m, "mpris:length"@) {
            Some(n) => n,
            None => 0,
        },
        is_playing: status == "Playing"@,
        track_id: text_or_empty(string_under(m, "mpris:trackid"@)),
    }
}

fn or_empty(text: Option<String>) -> (r: String)
    ensures
        r@ == text_or_empty(opt_text(text)),
{
    match text {
        Some(s) => s,
        None => String::new(),
    }
}

/// Reads the track out of the replies of a player that is not stopped.
pub fn read_track(status: &str, metadata: &Metadata, position: i64) -> (track: TrackInfo)
    ensures
        track@ == reported_track(status@, metadata@, position),
{
    let title = or_empty(str_val(metadata, "xesam:title"));
    let artist = or_empty(arr_first_str(metadata, "xesam:artist"));
    let album = or_empty(str_val(metadata, "xesam:album"));
    let art_url = str_val(metadata, "mpris:artUrl");
    let length_us: i64 = match i64_val(metadata, "mpris:length") {
        Some(n) => n,
        None => 0,
    };
    let track_id = or_empty(str_val(metadata, "mpris:trackid"));
    TrackInfo {
        title,
        artist,
        album,
        art_url,
        position_us: position,
        length_us,
        is_playing: same_text(status, "Playing"),
        track_id,
    }
}

/// What a query of the player asks for next, with what it has learned so far.
pub enum QueryStep {
    /// Connect to the session bus and the player's object on it.
    Connect,
    /// Read the property `PlaybackStatus`.
    GetStatus,
    /// Read the property `Metadata`.
    GetMetadata { status: String },
    /// Read the property `Position`.
    GetPosition { status: String, metadata: Metadata },
    /// The query is over.
    Done(PlayerState),
}

/// A step of a query as plain mathematical values.
pub enum QueryStepView {
    Connect,
    GetStatus,
    GetMetadata { status: Seq<char> },
    GetPosition { status: Seq<char>, metadata: Map<Seq<char>, MetaValue> },
    Done(PlayerStateView),
}

impl View for QueryStep {
    type V = QueryStepView;

    open spec fn view(&self) -> QueryStepView {
        match self {
            QueryStep::Connect => QueryStepView::Connect,
            QueryStep::GetStatus => QueryStepView::GetStatus,
            QueryStep::GetMetadata { status } => QueryStepView::GetMetadata { status: status@ },
            QueryStep::GetPosition { status, metadata } => QueryStepView::GetPosition {
                status: status@,
                metadata: metadata@,
            },
            QueryStep::Done(state) => QueryStepView::Done(state@),
        }
    }
}

impl QueryStep {
    /// The property of the player that the step reads, where it reads one.
    pub fn property(&self) -> (name: Option<&'static str>)
        ensures
            (match self@ {
                QueryStepView::GetStatus => name matches Some(n) && n@ == "PlaybackStatus"@,
                QueryStepView::GetMetadata { .. } => name matches Some(n) && n@ == "Metadata"@,
                QueryStepView::GetPosition { .. } => name matches Some(n) && n@ == "Position"@,
                _ => name is None,
            }),
    {
        match self {
            QueryStep::GetStatus => Some("PlaybackStatus"),
            QueryStep::GetMetadata { .. } => Some("Metadata"),
            QueryStep::GetPosition { .. } => Some("Position"),
            _ => None,
        }
    }
}

/// What came back from the bus.
pub enum QueryReply {
    Connected,
    Status(String),
    Metadata(Metadata),
    Position(i64),
    /// The bus answered with an error, or not at all.
    Failed,
}

/// A reply as plain mathematical values.
pub enum QueryReplyView {
    Connected,
    Status(Seq<char>),
    Metadata(Map<Seq<char>, MetaValue>),
    Position(i64),
    Failed,
}

impl View for QueryReply {
    type V = QueryReplyView;

    open spec fn view(&self) -> QueryReplyView {
        match self {
            QueryReply::Connected => QueryReplyView::Connected,
            QueryReply::Status(s) => QueryReplyView::Status(s@),
            QueryReply::Metadata(m) => QueryReplyView::Metadata(m@),
            QueryReply::Position(p) => QueryReplyView::Position(*p),
            QueryReply::Failed => QueryReplyView::Failed,
        }
    }
}

/// The step that follows a reply. A reply that does not answer the step counts as a
/// failure. A failure ends the query with a player that does not run, except that a
/// missing position is read as the start of the track.
pub open spec fn next_step(step: QueryStepView, reply: QueryReplyView) -> QueryStepView {
    match step {
        QueryStepView::Connect => if reply is Connected {
            QueryStepView::GetStatus
        } else {
            QueryStepView::Done(PlayerStateView::NotRunning)
        },
        QueryStepView::GetStatus => match reply {
            QueryReplyView::Status(s) => if s == "Stopped"@ {
                QueryStepView::Done(PlayerStateView::Stopped)
            } else {
                QueryStepView::GetMetadata { status: s }
            },
            _ => QueryStepView::Done(PlayerStateView::NotRunning),
        },
        QueryStepView::GetMetadata { status } => match reply {
            QueryReplyView::Metadata(metadata) => QueryStepView::GetPosition { status, metadata },
            _ => QueryStepView::Done(PlayerStateView::NotRunning),
        },
        QueryStepView::GetPosition { status, metadata } => {
            let position = match reply {
                QueryReplyView::Position(p) => p,
                _ => 0,
            };
            QueryStepView::Done(PlayerStateView::Active(reported_track(status, metadata, position)))
        },
        QueryStepView::Done(state) => QueryStepView::Done(state),
    }
}

/// Takes one reply of a query and decides what to ask next.
pub fn try_query(step: QueryStep, reply: QueryReply) -> (next: QueryStep)
    ensures
        next@ == next_step(step@, reply@),
{
    match step {
        QueryStep::Connect => match reply {
            QueryReply::Connected => QueryStep::GetStatus,
            _ => QueryStep::Done(PlayerState::NotRunning),
        },
        QueryStep::GetStatus => match reply {
            QueryReply::Status(status) => if same_text(status.as_str(), "Stopped") {
                QueryStep::Done(PlayerState::Stopped)
            } else {
                QueryStep::GetMetadata { status }
            },
            _ => QueryStep::Done(PlayerState::NotRunning),
        },
        QueryStep::GetMetadata { status } => match reply {
            QueryReply::Metadata(metadata) => QueryStep::GetPosition { status, metadata },
            _ => QueryStep::Done(PlayerState::NotRunning),
        },
        QueryStep::GetPosition { status, metadata } => {
            let position: i64 = match reply {
                QueryReply::Position(p) => p,
                _ => 0,
            };
            QueryStep::Done(
                PlayerState::Active(read_track(status.as_str(), &metadata, position)),
            )
        },
        QueryStep::Done(state) => QueryStep::Done(state),
    }
}

/// The step that a query has reached after the replies, from the first on.
pub open spec fn after_replies(replies: Seq<QueryReplyView>) -> QueryStepView
    decreases replies.len(),
{
    if replies.len() == 0 {
        QueryStepView::Connect
    } else {
        next_step(after_replies(replies.drop_last()), replies.last())
    }
}

/// A query is over after four replies, whatever they are.
pub proof fn law_query_ends(replies: Seq<QueryReplyView>)
    requires
        replies.len() >= 4,
    ensures
        after_replies(replies) is Done,
    decreases replies.len(),
{
    reveal_with_fuel(after_replies, 5);
    if replies.len() > 4 {
        law_query_ends(replies.drop_last());
    }
}

/// Once a query is over, no later reply changes its result.
pub proof fn law_query_result_is_final(replies: Seq<QueryReplyView>, reply: QueryReplyView)
    requires
        after_replies(replies) is Done,
    ensures
        after_replies(replies.push(reply)) == after_replies(replies),
{
    assert(replies.push(reply).drop_last() =~= replies);
}

/// A player that answers is reported as it answers: stopped where its status says so,
/// whatever else it would have told, and otherwise with the track of its metadata.
pub proof fn law_query_reports_answers(
    status: Seq<char>,
    metadata: Map<Seq<char>, MetaValue>,
    position: i64,
)
    ensures
        status == "Stopped"@ ==> after_replies(
            seq![QueryReplyView::Connected, QueryReplyView::Status(status)],
        ) == QueryStepView::Done(PlayerStateView::Stopped),
        status != "Stopped"@ ==> after_replies(
            seq![
                QueryReplyView::Connected,
                QueryReplyView::Status(status),
                QueryReplyView::Metadata(metadata),
                QueryReplyView::Position(position),
            ],
        ) == QueryStepView::Done(
            PlayerStateView::Active(reported_track(status, metadata, position)),
        ),
        status != "Stopped"@ ==> after_replies(
            seq![
                QueryReplyView::Connected,
                QueryReplyView::Status(status),
                QueryReplyView::Metadata(metadata),
                QueryReplyView::Failed,
            ],
        ) == QueryStepView::Done(PlayerStateView::Active(reported_track(status, metadata, 0))),
{
    reveal_with_fuel(after_replies, 5);
    let c = QueryReplyView::Connected;
    let s = QueryReplyView::Status(status);
    let m = QueryReplyView::Metadata(metadata);
    let p = QueryReplyView::Position(position);
    let f = QueryReplyView::Failed;
    assert(seq![c].drop_last() =~= seq![]);
    assert(seq![c, s].drop_last() =~= seq![c]);
    assert(seq![c, s, m].drop_last() =~= seq![c, s]);
    assert(seq![c, s, m, p].drop_last() =~= seq![c, s, m]);
    assert(seq![c, s, m, f].drop_last() =~= seq![c, s, m]);
}

/// A failure before the position is known ends the query with a player that does not
/// run.
pub proof fn law_query_failure_is_not_running(step: QueryStepView)
    requires
        step is Connect || step is GetStatus || step is GetMetadata,
    ensures
        next_step(step, QueryReplyView::Failed) == QueryStepView::Done(PlayerStateView::NotRunning),
{
}

/// Whether `text` is the string that the metadata hold under a key, or empty where they
/// hold none.
pub open spec fn answers_text(m: Map<Seq<char>, MetaValue>, key: Seq<char>, text: Seq<char>) -> bool {
    if m.contains_key(key) && m[key] is Str {
        text == m[key]->Str_0@
    } else {
        text.len() == 0
    }
}

/// Whether `text` is the first string of the array that the metadata hold under a key,
/// or empty where they hold none.
pub open spec fn answers_first(m: Map<Seq<char>, MetaValue>, key: Seq<char>, text: Seq<char>) -> bool {
    if m.contains_key(key) && m[key] is Array {
        let items = m[key]->Array_0@;
        ||| exists|i: int|
            0 <= i < items.len() && #[trigger] items[i] is Str && text == items[i]->Str_0@
                && forall|j: int| 0 <= j < i ==> !(#[trigger] items[j] is Str)
        ||| text.len() == 0 && forall|j: int|
            0 <= j < items.len() ==> !(#[trigger] items[j] is Str)
    } else {
        text.len() == 0
    }
}

/// The first string among items is one of them, with none before it; there is none
/// exactly where no item is a string.
proof fn lemma_first_string(items: Seq<MetaValue>)
    ensures
        first_string(items) is None ==> forall|j: int|
            0 <= j < items.len() ==> !(#[trigger] items[j] is Str),
        first_string(items) matches Some(text) ==> exists|i: int|
            0 <= i < items.len() && #[trigger] items[i] is Str && text == items[i]->Str_0@
                && forall|j: int| 0 <= j < i ==> !(#[trigger] items[j] is Str),
    decreases items.len(),
{
    if items.len() > 0 {
        if items[0] is Str {
            assert(items[0] is Str);
        } else {
            let rest = items.drop_first();
            lemma_first_string(rest);
            match first_string(rest) {
                None => {
                    assert forall|j: int| 0 <= j < items.len() implies !(#[trigger] items[j]
                        is Str) by {
                        if j > 0 {
                            assert(rest[j - 1] == items[j]);
                        }
                    }
                },
                Some(text) => {
                    let i = choose|i: int|
                        0 <= i < rest.len() && #[trigger] rest[i] is Str && text == rest[i]->Str_0@
                            && forall|j: int| 0 <= j < i ==> !(#[trigger] rest[j] is Str);
                    assert(items[i + 1] == rest[i]);
                    assert forall|j: int| 0 <= j < i + 1 implies !(#[trigger] items[j]
                        is Str) by {
                        if j > 0 {
                            assert(rest[j - 1] == items[j]);
                        }
                    }
                },
            }
        }
    }
}

/// A query that is answered to its end reports a current track with what the player
/// answered: the texts and the length of the metadata, whether the status is "Playing",
/// and the position, whatever the status. Only a position that was not answered is the
/// start of the track.
pub proof fn law_query_carries_answers(
    status: Seq<char>,
    metadata: Map<Seq<char>, MetaValue>,
    last: QueryReplyView,
)
    requires
        status != "Stopped"@,
    ensures
        ({
            let end = after_replies(
                seq![
                    QueryReplyView::Connected,
                    QueryReplyView::Status(status),
                    QueryReplyView::Metadata(metadata),
                    last,
                ],
            );
            let t = end->Done_0->Active_0;
            &&& end is Done
            &&& end->Done_0 is Active
            &&& last matches QueryReplyView::Position(p) ==> t.position_us == p
            &&& !(last is Position) ==> t.position_us == 0
            &&& t.is_playing <==> status == "Playing"@
            &&& answers_text(metadata, "xesam:title"@, t.title)
            &&& answers_first(metadata, "xesam:artist"@, t.artist)
            &&& answers_text(metadata, "xesam:album"@, t.album)
            &&& answers_text(metadata, "mpris:trackid"@, t.track_id)
            &&& t.art_url is Some <==> metadata.contains_key("mpris:artUrl"@)
                && metadata["mpris:artUrl"@] is Str
            &&& t.art_url matches Some(url) ==> answers_text(metadata, "mpris:artUrl"@, url)
            &&& metadata.contains_key("mpris:length"@) && metadata["mpris:length"@] is I64
                ==> t.length_us == metadata["mpris:length"@]->I64_0
            &&& !(metadata.contains_key("mpris:length"@) && metadata["mpris:length"@] is I64)
                ==> t.length_us == 0
        }),
{
    reveal_with_fuel(after_replies, 5);
    let c = QueryReplyView::Connected;
    let s = QueryReplyView::Status(status);
    let m = QueryReplyView::Metadata(metadata);
    assert(seq![c].drop_last() =~= seq![]);
    assert(seq![c, s].drop_last() =~= seq![c]);
    assert(seq![c, s, m].drop_last() =~= seq![c, s]);
    assert(seq![c, s, m, last].drop_last() =~= seq![c, s, m]);
    let key = "xesam:artist"@;
    if metadata.contains_key(key) && metadata[key] is Array {
        lemma_first_string(metadata[key]->Array_0@);
    }
}

/// What reads a track out of the replies hands on the position that it is given, and
/// the position changes nothing else.
pub proof fn law_position_is_handed_on(
    status: Seq<char>,
    m: Map<Seq<char>, MetaValue>,
    p: i64,
    q: i64,
)
    ensures
        reported_track(status, m, p).position_us == p,
        reported_track(status, m, p) == (TrackInfoView {
            position_us: p,
            ..reported_track(status, m, q)
        }),
{
}

/// The status tells whether the track plays, and nothing else of the track.
pub proof fn law_status_tells_playing_only(
    a: Seq<char>,
    b: Seq<char>,
    m: Map<Seq<char>, MetaValue>,
    p: i64,
)
    ensures
        reported_track(a, m, p).is_playing <==> a == "Playing"@,
        reported_track(a, m, p) == (TrackInfoView {
            is_playing: a == "Playing"@,
            ..reported_track(b, m, p)
        }),
{
}

/// The query asks for one thing after the other, as long as it is answered: the bus, the
/// status, the metadata, the position. A player that says it is stopped is asked for no
/// more.
pub proof fn law_query_asks_in_order(status: Seq<char>, metadata: Map<Seq<char>, MetaValue>)
    ensures
        after_replies(seq![]) == QueryStepView::Connect,
        after_replies(seq![QueryReplyView::Connected]) == QueryStepView::GetStatus,
        after_replies(seq![QueryReplyView::Connected, QueryReplyView::Status(status)]) == (
        if status == "Stopped"@ {
            QueryStepView::Done(PlayerStateView::Stopped)
        } else {
            QueryStepView::GetMetadata { status }
        }),
        status != "Stopped"@ ==> after_replies(
            seq![
                QueryReplyView::Connected,
                QueryReplyView::Status(status),
                QueryReplyView::Metadata(metadata),
            ],
        ) == (QueryStepView::GetPosition { status, metadata }),
{
    reveal_with_fuel(after_replies, 5);
    let c = QueryReplyView::Connected;
    let s = QueryReplyView::Status(status);
    let m = QueryReplyView::Metadata(metadata);
    assert(seq![c].drop_last() =~= seq![]);
    assert(seq![c, s].drop_last() =~= seq![c]);
    assert(seq![c, s, m].drop_last() =~= seq![c, s]);
}

/// Where the bus, the status or the metadata is not answered, the player does not run.
pub proof fn law_unanswered_query_is_not_running(
    status: Seq<char>,
    metadata: Map<Seq<char>, MetaValue>,
    reply: QueryReplyView,
)
    ensures
        !(reply is Connected) ==> next_step(QueryStepView::Connect, reply) == QueryStepView::Done(
            PlayerStateView::NotRunning,
        ),
        !(reply is Status) ==> next_step(QueryStepView::GetStatus, reply) == QueryStepView::Done(
            PlayerStateView::NotRunning,
        ),
        !(reply is Metadata) ==> next_step(QueryStepView::GetMetadata { status }, reply)
            == QueryStepView::Done(PlayerStateView::NotRunning),
{
}

/// The track id and the address of the art are those of the current track, and a track
/// plays only where one is current.
pub proof fn law_player_parts(t: TrackInfoView)
    ensures
        PlayerStateView::Active(t).track_id() == t.track_id,
        PlayerStateView::Active(t).art_url() == t.art_url,
        PlayerStateView::Active(t).is_playing() == t.is_playing,
        PlayerStateView::Stopped.track_id().len() == 0,
        PlayerStateView::Stopped.art_url() is None,
        !PlayerStateView::Stopped.is_playing(),
        PlayerStateView::NotRunning.track_id().len() == 0,
        PlayerStateView::NotRunning.art_url() is None,
        !PlayerStateView::NotRunning.is_playing(),
{
}

/// Where the player is found on the bus.
pub proof fn law_player_address()
    ensures
        MPRIS_BUS@ == "org.mpris.MediaPlayer2.spotify"@,
        MPRIS_PATH@ == "/org/mpris/MediaPlayer2"@,
        MPRIS_PLAYER@ == "org.mpris.MediaPlayer2.Player"@,
{
}

/// A track that was read carries the position that was given, plays exactly where the
/// status says so, and has the texts and the length of the metadata.
pub proof fn law_read_track_carries_answers(
    status: &str,
    metadata: &Metadata,
    position: i64,
    track: TrackInfo,
)
    requires
        call_ensures(read_track, (status, metadata, position), track),
    ensures
        track.position_us == position,
        track.is_playing <==> status@ == "Playing"@,
        answers_text(metadata@, "xesam:title"@, track.title@),
        answers_first(metadata@, "xesam:artist"@, track.artist@),
        answers_text(metadata@, "xesam:album"@, track.album@),
        answers_text(metadata@, "mpris:trackid"@, track.track_id@),
        track.art_url is Some <==> metadata@.contains_key("mpris:artUrl"@)
            && metadata@["mpris:artUrl"@] is Str,
        track.art_url matches Some(url) ==> answers_text(metadata@, "mpris:artUrl"@, url@),
        track.length_us == (if metadata@.contains_key("mpris:length"@)
            && metadata@["mpris:length"@] is I64 {
            metadata@["mpris:length"@]->I64_0
        } else {
            0
        }),
{
    let key = "xesam:artist"@;
    if metadata@.contains_key(key) && metadata@[key] is Array {
        lemma_first_string(metadata@[key]->Array_0@);
    }
    assert(track@.title == track.title@);
    assert(track@.art_url == opt_text(track.art_url));
}

/// A query reads one property of the player per step, under the name that the player
/// gives it, and none before it is connected or when it is over.
pub proof fn law_query_reads_named_property(step: &QueryStep, name: Option<&'static str>)
    requires
        call_ensures(QueryStep::property, (step,), name),
    ensures
        name is None <==> step is Connect || step is Done,
        step is GetStatus ==> name->0@ == "PlaybackStatus"@,
        step is GetMetadata ==> name->0@ == "Metadata"@,
        step is GetPosition ==> name->0@ == "Position"@,
{
}

} // verus!
