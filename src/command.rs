use vstd::prelude::*;

verus! {

/// Largest volume on the host's percentage scale.
pub const MAX_VOLUME_PERCENT: u16 = 100;

/// Largest volume on the controller's internal scale.
pub const MAX_BACKEND_VOLUME: u16 = 65535;

/// A percentage volume clamped to `0..=100`.
pub open spec fn clamped_percent(v: int) -> int {
    if v < 0 {
        0
    } else if v > MAX_VOLUME_PERCENT as int {
        MAX_VOLUME_PERCENT as int
    } else {
        v
    }
}

/// `p / 100` of the internal scale, rounded to the nearest integer
/// (halves round up).
pub open spec fn rescaled(p: int) -> int {
    (p * 2 * MAX_BACKEND_VOLUME as int + 100) / 200
}

/// Rescales a percentage volume to the controller's internal scale.
/// Values above 100 are clamped to 100, so they give the largest
/// internal volume rather than an error.
pub fn backend_volume(percent: u16) -> (r: u16)
    ensures
        r as int == rescaled(clamped_percent(percent as int)),
        percent >= MAX_VOLUME_PERCENT ==> r == MAX_BACKEND_VOLUME,
        percent == 0 ==> r == 0,
{
    let p: u32 = if percent > MAX_VOLUME_PERCENT {
        MAX_VOLUME_PERCENT as u32
    } else {
        percent as u32
    };
    assert(p * 2 * 65535 + 100 <= 13107100) by (nonlinear_arith)
        requires
            p <= 100,
    ;
    let r: u32 = (p * 2 * (MAX_BACKEND_VOLUME as u32) + 100) / 200;
    r as u16
}

/// Reads a volume given by the host as an integer: values below zero are
/// taken as zero, values above 100 as 100, and the result is on the
/// controller's internal scale.
pub fn volume_from_host(input: i64) -> (r: u16)
    ensures
        r as int == rescaled(clamped_percent(input as int)),
{
    let p: u16 = if input < 0 {
        0
    } else if input > MAX_VOLUME_PERCENT as i64 {
        MAX_VOLUME_PERCENT
    } else {
        input as u16
    };
    backend_volume(p)
}

/// Why a host input could not become a command.
#[derive(Clone, Copy, Debug, PartialEq, Eq, Structural)]
pub enum CommandError {
    /// A playback position below zero.
    NegativePosition,
    /// A playback position beyond what a `u32` of milliseconds holds.
    PositionTooLarge,
}

/// Reads a playback position in milliseconds given by the host as an
/// integer.  Negative values and values beyond `u32::MAX` are rejected
/// instead of wrapping.
pub fn position_from_host(input: i64) -> (r: Result<u32, CommandError>)
    ensures
        input < 0 ==> r == Err::<u32, CommandError>(CommandError::NegativePosition),
        input > u32::MAX ==> r == Err::<u32, CommandError>(CommandError::PositionTooLarge),
        0 <= input <= u32::MAX ==> r == Ok::<u32, CommandError>(input as u32),
{
    if input < 0 {
        Err(CommandError::NegativePosition)
    } else if input > u32::MAX as i64 {
        Err(CommandError::PositionTooLarge)
    } else {
        Ok(input as u32)
    }
}

/// One unit of work for the controller, with its arguments.
#[derive(Clone, Debug, PartialEq, Eq)]
pub enum Command {
    Play,
    Pause,
    Stop,
    /// Move the playback position, in milliseconds.
    Seek { position_ms: u32 },
    /// Set the volume, on the controller's internal scale.
    SetVolume { level: u16 },
    /// Load a track by its URI, optionally starting playback at once.
    LoadTrack { uri: String, auto_play: bool, start_ms: u32 },
    /// Ask for an access token with the given comma-separated scopes.
    GetToken { scopes: String },
}

impl Command {
    /// The seek command for a host position; see [`position_from_host`].
    pub fn seek(input: i64) -> (r: Result<Command, CommandError>)
        ensures
            input < 0 ==> r == Err::<Command, CommandError>(CommandError::NegativePosition),
            input > u32::MAX ==> r == Err::<Command, CommandError>(
                CommandError::PositionTooLarge,
            ),
            0 <= input <= u32::MAX ==> r == Ok::<Command, CommandError>(
                (Command::Seek { position_ms: input as u32 }),
            ),
    {
        match position_from_host(input) {
            Ok(position_ms) => Ok(Command::Seek { position_ms }),
            Err(e) => Err(e),
        }
    }

    /// The volume command for a host volume; see [`volume_from_host`].
    pub fn set_volume(input: i64) -> (r: Command)
        ensures
            r matches Command::SetVolume { level }
                && level as int == rescaled(clamped_percent(input as int)),
    {
        Command::SetVolume { level: volume_from_host(input) }
    }

    /// The load command for a track URI, an auto-play flag and a host start
    /// position; the position is read as by [`position_from_host`].
    pub fn load_track(uri: String, auto_play: bool, start: i64) -> (r: Result<
        Command,
        CommandError,
    >)
        ensures
            start < 0 ==> r == Err::<Command, CommandError>(CommandError::NegativePosition),
            start > u32::MAX ==> r == Err::<Command, CommandError>(
                CommandError::PositionTooLarge,
            ),
            0 <= start <= u32::MAX ==> r == Ok::<Command, CommandError>(
                (Command::LoadTrack { uri, auto_play, start_ms: start as u32 }),
            ),
    {
        match position_from_host(start) {
            Ok(start_ms) => Ok(Command::LoadTrack { uri, auto_play, start_ms }),
            Err(e) => Err(e),
        }
    }
}

/// How a command's result handle is settled once the controller has run it.
#[derive(Clone, Debug, PartialEq, Eq)]
pub enum Settlement {
    /// Fulfil the handle with the command's value.
    Fulfill,
    /// Fulfil the handle with no value: a best-effort command failed.
    FulfillEmpty,
    /// Reject the handle with the controller's message.
    Reject(String),
}

impl Settlement {
    pub fn is_fulfilled(&self) -> (r: bool)
        ensures
            r == !(self is Reject),
    {
        !matches!(self, Settlement::Reject(_))
    }
}

/// Whether a failure of this command is swallowed rather than reported.
pub open spec fn best_effort(c: Command) -> bool {
    c is GetToken
}

/// Decides the settlement of a command's handle from what the controller
/// reported: success fulfils it; a failure rejects it with the message,
/// except for token retrieval, which then yields no value.
pub fn settlement_for(command: &Command, result: Result<(), String>) -> (r: Settlement)
    ensures
        result is Ok ==> r == Settlement::Fulfill,
        result is Err && best_effort(*command) ==> r == Settlement::FulfillEmpty,
        result is Err && !best_effort(*command) ==> r == Settlement::Reject(result->Err_0),
{
    match result {
        Ok(()) => Settlement::Fulfill,
        Err(message) => {
            if let Command::GetToken { .. } = command {
                Settlement::FulfillEmpty
            } else {
                Settlement::Reject(message)
            }
        },
    }
}

/// The audio backend used when the host names none.
pub open spec fn default_backend() -> Seq<char> {
    "rodio"@
}

/// The audio backend to open: the one the host names, or the default
/// when the name is empty.
pub fn select_backend(requested: &str) -> (r: String)
    ensures
        requested@.len() == 0 ==> r@ == default_backend(),
        requested@.len() > 0 ==> r@ == requested@,
{
    if requested.is_empty() {
        "rodio".to_owned()
    } else {
        requested.to_owned()
    }
}

} // verus!
