use vstd::prelude::*;

verus! {

/// A notification from the controller.  Track identifiers are carried as
/// the controller's own text for them.
#[derive(Clone, Debug, PartialEq, Eq)]
pub enum PlayerEvent {
    Stopped { play_request_id: u64, track_id: String },
    Loading { play_request_id: u64, track_id: String, position_ms: u32 },
    Preloading { track_id: String },
    Playing { play_request_id: u64, track_id: String, position_ms: u32 },
    Paused { play_request_id: u64, track_id: String, position_ms: u32 },
    TimeToPreloadNextTrack { play_request_id: u64, track_id: String },
    EndOfTrack { play_request_id: u64, track_id: String },
    Unavailable { play_request_id: u64, track_id: String },
    VolumeChanged { volume: u16 },
    PositionCorrection { play_request_id: u64, track_id: String, position_ms: u32 },
    Seeked { play_request_id: u64, track_id: String, position_ms: u32 },
    TrackChanged { track_id: String },
    SessionConnected { connection_id: String, user_name: String },
    SessionDisconnected { connection_id: String, user_name: String },
    SessionClientChanged {
        client_id: String,
        client_name: String,
        client_brand_name: String,
        client_model_name: String,
    },
    ShuffleChanged { shuffle: bool },
    RepeatChanged { repeat: bool },
    AutoPlayChanged { auto_play: bool },
    FilterExplicitContentChanged { filter: bool },
}

/// The value of one field of an event record.
#[derive(Clone, Debug, PartialEq, Eq)]
pub enum FieldValue {
    Number(u64),
    Text(String),
    Flag(bool),
}

/// The abstract value of a field.
pub ghost enum FieldView {
    Number(u64),
    Text(Seq<char>),
    Flag(bool),
}

impl View for FieldValue {
    type V = FieldView;

    open spec fn view(&self) -> FieldView {
        match self {
            FieldValue::Number(n) => FieldView::Number(*n),
            FieldValue::Text(s) => FieldView::Text(s@),
            FieldValue::Flag(b) => FieldView::Flag(*b),
        }
    }
}

/// A record of named fields, as the host receives an event: the field
/// `event` names the kind, the others carry its data.
#[derive(Clone, Debug, PartialEq, Eq)]
pub struct EventRecord {
    pub fields: Vec<(String, FieldValue)>,
}

impl View for EventRecord {
    type V = Seq<(Seq<char>, FieldView)>;

    open spec fn view(&self) -> Seq<(Seq<char>, FieldView)> {
        Seq::new(self.fields@.len(), |i: int| (self.fields@[i].0@, self.fields@[i].1@))
    }
}

pub open spec fn text(key: Seq<char>, value: Seq<char>) -> (Seq<char>, FieldView) {
    (key, FieldView::Text(value))
}

pub open spec fn number(key: Seq<char>, value: u64) -> (Seq<char>, FieldView) {
    (key, FieldView::Number(value))
}

pub open spec fn flag(key: Seq<char>, value: bool) -> (Seq<char>, FieldView) {
    (key, FieldView::Flag(value))
}

pub open spec fn kind(name: Seq<char>) -> (Seq<char>, FieldView) {
    text("event"@, name)
}

/// The fields of a request-scoped event: kind, request id and track.
pub open spec fn request_fields(name: Seq<char>, id: u64, track: Seq<char>) -> Seq<
    (Seq<char>, FieldView),
> {
    seq![kind(name), number("play_request_id"@, id), text("track_id"@, track)]
}

/// The fields of a request-scoped event that also has a position.
pub open spec fn position_fields(name: Seq<char>, id: u64, track: Seq<char>, pos: u32) -> Seq<
    (Seq<char>, FieldView),
> {
    request_fields(name, id, track).push(number("position_ms"@, pos as u64))
}

/// The record that the host receives for an event.
pub open spec fn record_of(e: PlayerEvent) -> Seq<(Seq<char>, FieldView)> {
    match e {
        PlayerEvent::Stopped { play_request_id, track_id } => request_fields(
            "Stopped"@,
            play_request_id,
            track_id@,
        ),
        PlayerEvent::Loading { play_request_id, track_id, position_ms } => position_fields(
            "Loading"@,
            play_request_id,
            track_id@,
            position_ms,
        ),
        PlayerEvent::Preloading { track_id } => seq![
            kind("Preloading"@),
            text("track_id"@, track_id@),
        ],
        PlayerEvent::Playing { play_request_id, track_id, position_ms } => position_fields(
            "Playing"@,
            play_request_id,
            track_id@,
            position_ms,
        ),
        PlayerEvent::Paused { play_request_id, track_id, position_ms } => position_fields(
            "Paused"@,
            play_request_id,
            track_id@,
            position_ms,
        ),
        PlayerEvent::TimeToPreloadNextTrack { play_request_id, track_id } => request_fields(
            "TimeToPreloadNextTrack"@,
            play_request_id,
            track_id@,
        ),
        PlayerEvent::EndOfTrack { play_request_id, track_id } => request_fields(
            "EndOfTrack"@,
            play_request_id,
            track_id@,
        ),
        PlayerEvent::Unavailable { play_request_id, track_id } => request_fields(
            "Unavailable"@,
            play_request_id,
            track_id@,
        ),
        PlayerEvent::VolumeChanged { volume } => seq![
            kind("VolumeChanged"@),
            number("volume"@, volume as u64),
        ],
        PlayerEvent::PositionCorrection {
            play_request_id,
            track_id,
            position_ms,
        } => position_fields("PositionCorrection"@, play_request_id, track_id@, position_ms),
        PlayerEvent::Seeked { play_request_id, track_id, position_ms } => position_fields(
            "Seeked"@,
            play_request_id,
            track_id@,
            position_ms,
        ),
        PlayerEvent::TrackChanged { track_id } => seq![
            kind("TrackChanged"@),
            text("audio_item"@, track_id@),
        ],
        PlayerEvent::SessionConnected { connection_id, user_name } => seq![
            kind("SessionConnected"@),
            text("connection_id"@, connection_id@),
            text("user_name"@, user_name@),
        ],
        PlayerEvent::SessionDisconnected { connection_id, user_name } => seq![
            kind("SessionDisconnected"@),
            text("connection_id"@, connection_id@),
            text("user_name"@, user_name@),
        ],
        PlayerEvent::SessionClientChanged {
            client_id,
            client_name,
            client_brand_name,
            client_model_name,
        } => seq![
            kind("SessionClientChanged"@),
            text("client_id"@, client_id@),
            text("client_name"@, client_name@),
            text("client_brand_name"@, client_brand_name@),
            text("client_model_name"@, client_model_name@),
        ],
        PlayerEvent::ShuffleChanged { shuffle } => seq![
            kind("ShuffleChanged"@),
            flag("shuffle"@, shuffle),
        ],
        PlayerEvent::RepeatChanged { repeat } => seq![
            kind("RepeatChanged"@),
            flag("repeat"@, repeat),
        ],
        PlayerEvent::AutoPlayChanged { auto_play } => seq![
            kind("AutoPlayChanged"@),
            flag("auto_play"@, auto_play),
        ],
        PlayerEvent::FilterExplicitContentChanged { filter } => seq![
            kind("FilterExplicitContentChanged"@),
            flag("filter"@, filter),
        ],
    }
}

impl EventRecord {
    /// A record with no field.
    pub fn new() -> (r: EventRecord)
        ensures
            r@ == Seq::<(Seq<char>, FieldView)>::empty(),
    {
        let r = EventRecord { fields: Vec::new() };
        assert(r@ =~= Seq::<(Seq<char>, FieldView)>::empty());
        r
    }

    fn push_field(&mut self, key: &str, value: FieldValue)
        ensures
            final(self)@ == old(self)@.push((key@, value@)),
    {
        let ghost before = self@;
        self.fields.push((key.to_owned(), value));
        assert(self@ =~= before.push((key@, value@)));
    }

    /// Appends the `event` field naming the kind.
    pub fn add_event(&mut self, name: &str)
        ensures
            final(self)@ == old(self)@.push(kind(name@)),
    {
        self.push_field("event", FieldValue::Text(name.to_owned()));
    }

    /// Appends a text field.
    pub fn add_string(&mut self, key: &str, value: String)
        ensures
            final(self)@ == old(self)@.push(text(key@, value@)),
    {
        self.push_field(key, FieldValue::Text(value));
    }

    /// Appends a numeric field.
    pub fn add_number(&mut self, key: &str, value: u64)
        ensures
            final(self)@ == old(self)@.push(number(key@, value)),
    {
        self.push_field(key, FieldValue::Number(value));
    }

    /// Appends a boolean field.
    pub fn add_bool(&mut self, key: &str, value: bool)
        ensures
            final(self)@ == old(self)@.push(flag(key@, value)),
    {
        self.push_field(key, FieldValue::Flag(value));
    }
}

fn request_record(name: &str, play_request_id: u64, track_id: String) -> (r: EventRecord)
    ensures
        r@ == request_fields(name@, play_request_id, track_id@),
{
    let mut r = EventRecord::new();
    r.add_event(name);
    r.add_number("play_request_id", play_request_id);
    r.add_string("track_id", track_id);
    r
}

fn position_record(name: &str, play_request_id: u64, track_id: String, position_ms: u32) -> (r:
    EventRecord)
    ensures
        r@ == position_fields(name@, play_request_id, track_id@, position_ms),
{
    let mut r = request_record(name, play_request_id, track_id);
    r.add_number("position_ms", position_ms as u64);
    r
}

fn pair_record(name: &str, key: &str, value: FieldValue) -> (r: EventRecord)
    ensures
        r@ == seq![kind(name@), (key@, value@)],
{
    let mut r = EventRecord::new();
    r.add_event(name);
    r.push_field(key, value);
    r
}

/// Translates a controller event into the record the host callback
/// receives: the kind under `event`, then the event's own fields.
pub fn event_record(e: PlayerEvent) -> (r: EventRecord)
    ensures
        r@ == record_of(e),
{
    match e {
        PlayerEvent::Stopped { play_request_id, track_id } => request_record(
            "Stopped",
            play_request_id,
            track_id,
        ),
        PlayerEvent::Loading { play_request_id, track_id, position_ms } => position_record(
            "Loading",
            play_request_id,
            track_id,
            position_ms,
        ),
        PlayerEvent::Preloading { track_id } => pair_record(
            "Preloading",
            "track_id",
            FieldValue::Text(track_id),
        ),
        PlayerEvent::Playing { play_request_id, track_id, position_ms } => position_record(
            "Playing",
            play_request_id,
            track_id,
            position_ms,
        ),
        PlayerEvent::Paused { play_request_id, track_id, position_ms } => position_record(
            "Paused",
            play_request_id,
            track_id,
            position_ms,
        ),
        PlayerEvent::TimeToPreloadNextTrack { play_request_id, track_id } => request_record(
            "TimeToPreloadNextTrack",
            play_request_id,
            track_id,
        ),
        PlayerEvent::EndOfTrack { play_request_id, track_id } => request_record(
            "EndOfTrack",
            play_request_id,
            track_id,
        ),
        PlayerEvent::Unavailable { play_request_id, track_id } => request_record(
            "Unavailable",
            play_request_id,
            track_id,
        ),
        PlayerEvent::VolumeChanged { volume } => pair_record(
            "VolumeChanged",
            "volume",
            FieldValue::Number(volume as u64),
        ),
        PlayerEvent::PositionCorrection {
            play_request_id,
            track_id,
            position_ms,
        } => position_record("PositionCorrection", play_request_id, track_id, position_ms),
        PlayerEvent::Seeked { play_request_id, track_id, position_ms } => position_record(
            "Seeked",
            play_request_id,
            track_id,
            position_ms,
        ),
        PlayerEvent::TrackChanged { track_id } => pair_record(
            "TrackChanged",
            "audio_item",
            FieldValue::Text(track_id),
        ),
        PlayerEvent::SessionConnected { connection_id, user_name } => {
            let mut r = pair_record(
                "SessionConnected",
                "connection_id",
                FieldValue::Text(connection_id),
            );
            r.add_string("user_name", user_name);
            r
        },
        PlayerEvent::SessionDisconnected { connection_id, user_name } => {
            let mut r = pair_record(
                "SessionDisconnected",
                "connection_id",
                FieldValue::Text(connection_id),
            );
            r.add_string("user_name", user_name);
            r
        },
        PlayerEvent::SessionClientChanged {
            client_id,
            client_name,
            client_brand_name,
            client_model_name,
        } => {
            let mut r = pair_record(
                "SessionClientChanged",
                "client_id",
                FieldValue::Text(client_id),
            );
            r.add_string("client_name", client_name);
            r.add_string("client_brand_name", client_brand_name);
            r.add_string("client_model_name", client_model_name);
            r
        },
        PlayerEvent::ShuffleChanged { shuffle } => pair_record(
            "ShuffleChanged",
            "shuffle",
            FieldValue::Flag(shuffle),
        ),
        PlayerEvent::RepeatChanged { repeat } => pair_record(
            "RepeatChanged",
            "repeat",
            FieldValue::Flag(repeat),
        ),
        PlayerEvent::AutoPlayChanged { auto_play } => pair_record(
            "AutoPlayChanged",
            "auto_play",
            FieldValue::Flag(auto_play),
        ),
        PlayerEvent::FilterExplicitContentChanged { filter } => pair_record(
            "FilterExplicitContentChanged",
            "filter",
            FieldValue::Flag(filter),
        ),
    }
}

} // verus!
