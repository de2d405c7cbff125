//! The volume bridge: loudness and mute state of the output mixer, as a
//! percentage between 0 and 100.
//!
//! The bridge never touches the mixer itself. Each operation is a function from
//! what the host has observed so far to the next step: either one call to make
//! on the native handle, under its guard, or the operation's result. The host
//! takes the guard, makes the call, releases the guard and hands the reply
//! back; an operation asks for at most one call, so the guard is never held
//! across more than that.

use vstd::arithmetic::div_mod::lemma_fundamental_div_mod;
use vstd::arithmetic::div_mod::lemma_mod_bound;
use vstd::prelude::*;

verus! {

/// The lowest level the bridge reports or accepts.
pub const MIN_LEVEL: i64 = 0;

/// The highest level the bridge reports or accepts.
pub const MAX_LEVEL: i64 = 100;

/// The level reported while the mixer cannot be read.
pub const DEFAULT_VOLUME: i64 = 0;

/// The mute state reported while the mixer cannot be read.
pub const DEFAULT_MUTE: bool = false;

/// The reply with which the native layer reports success.
pub const NATIVE_OK: i64 = 0;

/// Why an operation on the mixer failed.
#[derive(Clone, Copy, Debug, PartialEq, Eq)]
pub enum VolumeError {
    /// The guard of the native handle could not be taken.
    Lock,
    /// The audio subsystem did not come up.
    Init,
    /// The mixer did not report its volume.
    Read,
    /// The mixer did not accept a volume.
    Write,
    /// The mixer did not report its mute switch.
    MuteRead,
    /// The mixer did not accept a mute state.
    MuteWrite,
}

impl VolumeError {
    /// The text of this error.
    pub open spec fn message_spec(self) -> Seq<char> {
        match self {
            VolumeError::Lock => "Failed to lock audio control"@,
            VolumeError::Init => "Failed to initialize audio system"@,
            VolumeError::Read => "Failed to get volume"@,
            VolumeError::Write => "Failed to set volume"@,
            VolumeError::MuteRead => "Failed to get mute"@,
            VolumeError::MuteWrite => "Failed to set mute"@,
        }
    }

    /// The text of this error.
    pub fn message(&self) -> (text: &'static str)
        ensures
            text@ == self.message_spec(),
    {
        match self {
            VolumeError::Lock => "Failed to lock audio control",
            VolumeError::Init => "Failed to initialize audio system",
            VolumeError::Read => "Failed to get volume",
            VolumeError::Write => "Failed to set volume",
            VolumeError::MuteRead => "Failed to get mute",
            VolumeError::MuteWrite => "Failed to set mute",
        }
    }
}

/// One call on the native handle.
#[derive(Clone, Copy, Debug, PartialEq, Eq)]
pub enum MixerCall {
    /// Open the connection to the audio subsystem.
    Init,
    /// Release the connection.
    Cleanup,
    /// Read the raw volume; a negative reply means the read failed.
    GetVolume,
    /// Write this raw volume; the reply is a status.
    SetVolume(i64),
    /// Read the mute switch; a negative reply means the read failed, zero
    /// means audible and a positive reply means muted.
    GetMute,
    /// Write the mute switch, one for muted and zero for audible; the reply
    /// is a status.
    SetMute(i64),
}

/// What the host has observed of an operation so far.
#[derive(Clone, Copy, Debug, PartialEq, Eq)]
pub enum Guarded {
    /// Nothing yet: the operation has just begun.
    Idle,
    /// The guard of the native handle could not be taken, so no call was made.
    Poisoned,
    /// The call was made under the guard and returned this.
    Returned(i64),
}

/// What an operation needs next.
#[derive(Debug, PartialEq, Eq)]
pub enum Step<T> {
    /// Make this call under the guard and come back with `Guarded::Returned`,
    /// or with `Guarded::Poisoned` if the guard cannot be taken.
    Call(MixerCall),
    /// The operation is over, with this result.
    Done(T),
}

/// The level in `[MIN_LEVEL, MAX_LEVEL]` nearest to `level`.
pub open spec fn clamp_level(level: int) -> int {
    if level < MIN_LEVEL {
        MIN_LEVEL as int
    } else if level > MAX_LEVEL {
        MAX_LEVEL as int
    } else {
        level
    }
}

/// The value in `[lower, upper]` nearest to `raw`.
pub open spec fn clamp_raw(raw: int, lower: int, upper: int) -> int {
    if raw < lower {
        lower
    } else if raw > upper {
        upper
    } else {
        raw
    }
}

/// The level that a raw mixer value stands for on a mixer whose values run
/// from `lower` to `upper`: its distance from `lower` as a percentage of the
/// span, rounded down.
pub open spec fn level_of_raw(raw: int, lower: int, upper: int) -> int {
    (clamp_raw(raw, lower, upper) - lower) * 100 / (upper - lower)
}

/// The raw mixer value that stands for a level: `lower` plus that percentage
/// of the span, rounded down. Levels outside `[0, 100]` are clamped first.
pub open spec fn raw_of_level(level: int, lower: int, upper: int) -> int {
    lower + clamp_level(level) * (upper - lower) / 100
}

/// The native encoding of a mute state.
pub open spec fn mute_flag(mute: bool) -> int {
    if mute {
        1
    } else {
        0
    }
}

/// The mute state that a native reply stands for: muted where it is
/// positive, audible where it is zero. A negative reply is no reading.
pub open spec fn mute_of_flag(flag: int) -> bool {
    flag > 0
}

/// Brings a requested level into `[MIN_LEVEL, MAX_LEVEL]`.
pub fn clamp(level: i64) -> (clamped: i64)
    ensures
        clamped == clamp_level(level as int),
{
    if level < MIN_LEVEL {
        MIN_LEVEL
    } else if level > MAX_LEVEL {
        MAX_LEVEL
    } else {
        level
    }
}

/// The raw values a mixer control can take: `min` stands for silence and
/// `max` for full volume. Raw values are never negative, since the native
/// layer keeps negative replies for failures, and `min` lies below `max`.
#[derive(Clone, Copy, Debug)]
pub struct MixerRange {
    min: i64,
    max: i64,
}

impl MixerRange {
    /// The raw value that stands for silence.
    pub closed spec fn lower(&self) -> int {
        self.min as int
    }

    /// The raw value that stands for full volume.
    pub closed spec fn upper(&self) -> int {
        self.max as int
    }

    /// The number of raw steps between silence and full volume.
    pub open spec fn span(&self) -> int {
        self.upper() - self.lower()
    }

    /// Whether the bounds describe a mixer: not negative, and apart.
    #[verifier::type_invariant]
    pub open spec fn wf(&self) -> bool {
        0 <= self.lower() < self.upper() <= i64::MAX
    }

    /// A range from `min` to `max`, if those bounds describe a mixer.
    pub fn new(min: i64, max: i64) -> (range: Option<MixerRange>)
        ensures
            range is Some <==> 0 <= min < max,
            range matches Some(r) ==> r.lower() == min && r.upper() == max && r.wf(),
    {
        if 0 <= min && min < max {
            Some(MixerRange { min, max })
        } else {
            None
        }
    }

    /// The range of a mixer that works in percent itself.
    pub fn percent() -> (range: MixerRange)
        ensures
            range.lower() == MIN_LEVEL,
            range.upper() == MAX_LEVEL,
            range.wf(),
    {
        MixerRange { min: MIN_LEVEL, max: MAX_LEVEL }
    }

    /// The raw value that stands for silence.
    pub fn min(&self) -> (min: i64)
        ensures
            min == self.lower(),
    {
        self.min
    }

    /// The raw value that stands for full volume.
    pub fn max(&self) -> (max: i64)
        ensures
            max == self.upper(),
    {
        self.max
    }

    /// The level that `raw` stands for.
    pub fn to_level(&self, raw: i64) -> (level: i64)
        ensures
            level == level_of_raw(raw as int, self.lower(), self.upper()),
            MIN_LEVEL <= level <= MAX_LEVEL,
    {
        proof {
            use_type_invariant(self);
        }
        let bounded = if raw < self.min {
            self.min
        } else if raw > self.max {
            self.max
        } else {
            raw
        };
        let offset: u128 = (bounded - self.min) as u128;
        let span: u128 = (self.max - self.min) as u128;
        let scaled: u128 = offset * 100 / span;
        proof {
            lemma_level_in_range(bounded as int, self.lower(), self.upper());
        }
        scaled as i64
    }

    /// The raw value that stands for `level`, clamped to `[0, 100]` first.
    pub fn to_raw(&self, level: i64) -> (raw: i64)
        ensures
            raw == raw_of_level(level as int, self.lower(), self.upper()),
            self.lower() <= raw <= self.upper(),
    {
        proof {
            use_type_invariant(self);
        }
        let percent: u128 = clamp(level) as u128;
        let span: u128 = (self.max - self.min) as u128;
        assert(percent * span <= 100 * span) by (nonlinear_arith)
            requires
                percent <= 100,
                span >= 0,
        ;
        let scaled: u128 = percent * span / 100;
        proof {
            lemma_raw_in_range(level as int, self.lower(), self.upper());
        }
        self.min + scaled as i64
    }
}

/// A level computed from a raw value inside the range lies in `[0, 100]`.
pub proof fn lemma_level_in_range(raw: int, lower: int, upper: int)
    requires
        lower < upper,
    ensures
        0 <= level_of_raw(raw, lower, upper) <= 100,
{
    let span = upper - lower;
    let offset = clamp_raw(raw, lower, upper) - lower;
    let level = offset * 100 / span;
    lemma_fundamental_div_mod(offset * 100, span);
    lemma_mod_bound(offset * 100, span);
    assert(0 <= level <= 100) by (nonlinear_arith)
        requires
            0 <= offset <= span,
            0 < span,
            offset * 100 == span * level + (offset * 100) % span,
            0 <= (offset * 100) % span < span,
    ;
}

/// A raw value computed from a level lies inside the range.
pub proof fn lemma_raw_in_range(level: int, lower: int, upper: int)
    requires
        lower < upper,
    ensures
        lower <= raw_of_level(level, lower, upper) <= upper,
{
    let span = upper - lower;
    let percent = clamp_level(level);
    assert(0 <= percent * span <= 100 * span) by (nonlinear_arith)
        requires
            0 <= percent <= 100,
            0 < span,
    ;
}

/// The step of `init_audio_system` after `seen`.
pub open spec fn init_audio_step(seen: Guarded) -> Step<Result<(), VolumeError>> {
    match seen {
        Guarded::Idle => Step::Call(MixerCall::Init),
        Guarded::Poisoned => Step::Done(Err(VolumeError::Lock)),
        Guarded::Returned(status) => if status == NATIVE_OK {
            Step::Done(Ok(()))
        } else {
            Step::Done(Err(VolumeError::Init))
        },
    }
}

/// The step of `cleanup_audio_system` after `seen`.
pub open spec fn cleanup_audio_step(seen: Guarded) -> Step<()> {
    match seen {
        Guarded::Idle => Step::Call(MixerCall::Cleanup),
        Guarded::Poisoned => Step::Done(()),
        Guarded::Returned(_) => Step::Done(()),
    }
}

/// The step of `get_volume` after `seen`, on a mixer whose raw values run
/// from `lower` to `upper`.
pub open spec fn get_volume_step(seen: Guarded, lower: int, upper: int) -> Step<
    Result<i64, VolumeError>,
> {
    match seen {
        Guarded::Idle => Step::Call(MixerCall::GetVolume),
        Guarded::Poisoned => Step::Done(Err(VolumeError::Lock)),
        Guarded::Returned(raw) => if raw >= 0 {
            Step::Done(Ok(level_of_raw(raw as int, lower, upper) as i64))
        } else {
            Step::Done(Err(VolumeError::Read))
        },
    }
}

/// The step of `set_volume` after `seen`, on a mixer whose raw values run
/// from `lower` to `upper`.
pub open spec fn set_volume_step(level: int, seen: Guarded, lower: int, upper: int) -> Step<
    Result<(), VolumeError>,
> {
    match seen {
        Guarded::Idle => Step::Call(MixerCall::SetVolume(raw_of_level(level, lower, upper) as i64)),
        Guarded::Poisoned => Step::Done(Err(VolumeError::Lock)),
        Guarded::Returned(status) => if status == NATIVE_OK {
            Step::Done(Ok(()))
        } else {
            Step::Done(Err(VolumeError::Write))
        },
    }
}

/// The step of `get_mute` after `seen`.
pub open spec fn get_mute_step(seen: Guarded) -> Step<Result<bool, VolumeError>> {
    match seen {
        Guarded::Idle => Step::Call(MixerCall::GetMute),
        Guarded::Poisoned => Step::Done(Err(VolumeError::Lock)),
        Guarded::Returned(flag) => if flag >= 0 {
            Step::Done(Ok(mute_of_flag(flag as int)))
        } else {
            Step::Done(Err(VolumeError::MuteRead))
        },
    }
}

/// The step of `set_mute` after `seen`.
pub open spec fn set_mute_step(mute: bool, seen: Guarded) -> Step<Result<(), VolumeError>> {
    match seen {
        Guarded::Idle => Step::Call(MixerCall::SetMute(mute_flag(mute) as i64)),
        Guarded::Poisoned => Step::Done(Err(VolumeError::Lock)),
        Guarded::Returned(status) => if status == NATIVE_OK {
            Step::Done(Ok(()))
        } else {
            Step::Done(Err(VolumeError::MuteWrite))
        },
    }
}

/// Opens the connection to the audio subsystem: asks for the native call,
/// then succeeds exactly when that call was made and returned `NATIVE_OK`.
pub fn init_audio_system(seen: Guarded) -> (step: Step<Result<(), VolumeError>>)
    ensures
        step == init_audio_step(seen),
{
    match seen {
        Guarded::Idle => Step::Call(MixerCall::Init),
        Guarded::Poisoned => Step::Done(Err(VolumeError::Lock)),
        Guarded::Returned(status) => {
            if status == NATIVE_OK {
                Step::Done(Ok(()))
            } else {
                Step::Done(Err(VolumeError::Init))
            }
        },
    }
}

/// Releases the connection to the audio subsystem. Nothing is released when
/// the guard cannot be taken, and no failure is reported either way.
pub fn cleanup_audio_system(seen: Guarded) -> (step: Step<()>)
    ensures
        step == cleanup_audio_step(seen),
{
    match seen {
        Guarded::Idle => Step::Call(MixerCall::Cleanup),
        Guarded::Poisoned => Step::Done(()),
        Guarded::Returned(_) => Step::Done(()),
    }
}

/// Reads the volume: asks for the native read, then rescales its reply to a
/// level. A negative reply is a failed read.
pub fn get_volume(seen: Guarded, range: &MixerRange) -> (step: Step<Result<i64, VolumeError>>)
    ensures
        step == get_volume_step(seen, range.lower(), range.upper()),
        step matches Step::Done(Ok(level)) ==> MIN_LEVEL <= level <= MAX_LEVEL,
{
    match seen {
        Guarded::Idle => Step::Call(MixerCall::GetVolume),
        Guarded::Poisoned => Step::Done(Err(VolumeError::Lock)),
        Guarded::Returned(raw) => {
            if raw >= 0 {
                Step::Done(Ok(range.to_level(raw)))
            } else {
                Step::Done(Err(VolumeError::Read))
            }
        },
    }
}

/// Writes the volume: clamps `level` to `[0, 100]`, rescales it to the
/// mixer's range and asks for the native write of that value, then succeeds
/// exactly when the write was made and returned `NATIVE_OK`.
pub fn set_volume(level: i64, seen: Guarded, range: &MixerRange) -> (step: Step<
    Result<(), VolumeError>,
>)
    ensures
        step == set_volume_step(level as int, seen, range.lower(), range.upper()),
        step matches Step::Call(MixerCall::SetVolume(raw)) ==> range.lower() <= raw
            <= range.upper(),
{
    match seen {
        Guarded::Idle => Step::Call(MixerCall::SetVolume(range.to_raw(level))),
        Guarded::Poisoned => Step::Done(Err(VolumeError::Lock)),
        Guarded::Returned(status) => {
            if status == NATIVE_OK {
                Step::Done(Ok(()))
            } else {
                Step::Done(Err(VolumeError::Write))
            }
        },
    }
}

/// Reads the mute switch: asks for the native read, then reports muted
/// exactly when the reply is positive. A negative reply is a failed read.
pub fn get_mute(seen: Guarded) -> (step: Step<Result<bool, VolumeError>>)
    ensures
        step == get_mute_step(seen),
{
    match seen {
        Guarded::Idle => Step::Call(MixerCall::GetMute),
        Guarded::Poisoned => Step::Done(Err(VolumeError::Lock)),
        Guarded::Returned(flag) => {
            if flag >= 0 {
                Step::Done(Ok(flag > 0))
            } else {
                Step::Done(Err(VolumeError::MuteRead))
            }
        },
    }
}

/// Writes the mute switch: asks for the native write of one for muted and
/// zero for audible, then succeeds exactly when the write was made and
/// returned `NATIVE_OK`.
pub fn set_mute(mute: bool, seen: Guarded) -> (step: Step<Result<(), VolumeError>>)
    ensures
        step == set_mute_step(mute, seen),
{
    match seen {
        Guarded::Idle => Step::Call(
            MixerCall::SetMute(
                if mute {
                    1
                } else {
                    0
                },
            ),
        ),
        Guarded::Poisoned => Step::Done(Err(VolumeError::Lock)),
        Guarded::Returned(status) => {
            if status == NATIVE_OK {
                Step::Done(Ok(()))
            } else {
                Step::Done(Err(VolumeError::MuteWrite))
            }
        },
    }
}

/// The level shown for a reading: the level read, or `DEFAULT_VOLUME` when
/// the read failed.
pub open spec fn shown_volume(reading: Result<i64, VolumeError>) -> i64 {
    match reading {
        Ok(read) => read,
        Err(_) => DEFAULT_VOLUME,
    }
}

/// The mute state shown for a reading: the state read, or `DEFAULT_MUTE`
/// when the read failed.
pub open spec fn shown_mute(reading: Result<bool, VolumeError>) -> bool {
    match reading {
        Ok(read) => read,
        Err(_) => DEFAULT_MUTE,
    }
}

/// The level shown for a reading: the level read, or `DEFAULT_VOLUME` when
/// the read failed.
pub fn volume_or_default(reading: Result<i64, VolumeError>) -> (level: i64)
    ensures
        level == shown_volume(reading),
{
    match reading {
        Ok(read) => read,
        Err(_) => DEFAULT_VOLUME,
    }
}

/// The mute state shown for a reading: the state read, or `DEFAULT_MUTE`
/// when the read failed.
pub fn mute_or_default(reading: Result<bool, VolumeError>) -> (muted: bool)
    ensures
        muted == shown_mute(reading),
{
    match reading {
        Ok(read) => read,
        Err(_) => DEFAULT_MUTE,
    }
}

/// A mixer that keeps what is written to it and reports what it keeps. It
/// stands for the device in the laws below.
pub struct IdealMixer {
    /// The raw volume last written.
    pub raw: i64,
    /// The mute switch.
    pub muted: bool,
}

impl IdealMixer {
    /// The mixer after `call` was made on it.
    pub open spec fn after(self, call: MixerCall) -> IdealMixer {
        match call {
            MixerCall::SetVolume(raw) => IdealMixer { raw, muted: self.muted },
            MixerCall::SetMute(flag) => IdealMixer {
                raw: self.raw,
                muted: mute_of_flag(flag as int),
            },
            _ => self,
        }
    }

    /// What the mixer replies to `call`.
    pub open spec fn reply(self, call: MixerCall) -> i64 {
        match call {
            MixerCall::GetVolume => self.raw,
            MixerCall::GetMute => if self.muted {
                1
            } else {
                0
            },
            _ => NATIVE_OK,
        }
    }
}

/// An operation run to its end against `mixer` by a host that always gets
/// the guard: the mixer afterwards, and the last step of the operation.
pub open spec fn run_against<T>(operation: spec_fn(Guarded) -> Step<T>, mixer: IdealMixer) -> (
    IdealMixer,
    Step<T>,
) {
    match operation(Guarded::Idle) {
        Step::Call(call) => (
            mixer.after(call),
            operation(Guarded::Returned(mixer.reply(call))),
        ),
        Step::Done(result) => (mixer, Step::Done(result)),
    }
}

/// The spans on which every level survives a write and a read to within one
/// step: all of at least 99 raw steps, and seven shorter ones.
pub open spec fn round_trips(span: int) -> bool {
    span >= 99 || span == 50 || span == 75 || span == 80 || span == 90 || span == 95 || span == 96
        || span == 98
}

/// Rescaling a level to raw and back never gives more than the level, and
/// loses at most `1 + 98 / span` of it.
pub proof fn lemma_rescale_loss(level: int, lower: int, upper: int)
    requires
        lower < upper,
        0 <= level <= 100,
    ensures
        level_of_raw(raw_of_level(level, lower, upper), lower, upper) <= level,
        (level - level_of_raw(raw_of_level(level, lower, upper), lower, upper)) * (upper - lower)
            <= (upper - lower) + 98,
{
    let span = upper - lower;
    let steps = level * span / 100;
    let back = steps * 100 / span;
    lemma_raw_in_range(level, lower, upper);
    assert(raw_of_level(level, lower, upper) == lower + steps);
    assert(level_of_raw(lower + steps, lower, upper) == back);
    lemma_fundamental_div_mod(level * span, 100);
    lemma_fundamental_div_mod(steps * 100, span);
    lemma_mod_bound(steps * 100, span);
    assert(back <= level && (level - back) * span <= span + 98) by (nonlinear_arith)
        requires
            0 < span,
            level * span == 100 * steps + (level * span) % 100,
            0 <= (level * span) % 100 <= 99,
            steps * 100 == span * back + (steps * 100) % span,
            0 <= (steps * 100) % span <= span - 1,
    ;
}

/// On a span that `round_trips`, rescaling a level to raw and back gives the
/// level or one less.
pub proof fn lemma_rescale_round_trip(level: int, lower: int, upper: int)
    requires
        lower < upper,
        0 <= level <= 100,
        round_trips(upper - lower),
    ensures
        level - 1 <= level_of_raw(raw_of_level(level, lower, upper), lower, upper) <= level,
{
    let span = upper - lower;
    let back = level_of_raw(raw_of_level(level, lower, upper), lower, upper);
    lemma_rescale_loss(level, lower, upper);
    lemma_raw_in_range(level, lower, upper);
    if span >= 99 {
        assert(level - back <= 1) by (nonlinear_arith)
            requires
                span >= 99,
                0 <= level - back,
                (level - back) * span <= span + 98,
        ;
    } else {
        lemma_short_span_round_trip(level, span);
    }
}

/// The seven spans under 99 on which no level loses more than one step.
proof fn lemma_short_span_round_trip(level: int, span: int)
    requires
        0 <= level <= 100,
        span < 99,
        round_trips(span),
    ensures
        level - 1 <= (level * span / 100) * 100 / span,
{
    if span == 50 {
        assert(level - 1 <= (level * 50 / 100) * 100 / 50);
    } else if span == 75 {
        assert(level - 1 <= (level * 75 / 100) * 100 / 75);
    } else if span == 80 {
        assert(level - 1 <= (level * 80 / 100) * 100 / 80);
    } else if span == 90 {
        assert(level - 1 <= (level * 90 / 100) * 100 / 90);
    } else if span == 95 {
        assert(level - 1 <= (level * 95 / 100) * 100 / 95);
    } else if span == 96 {
        assert(level - 1 <= (level * 96 / 100) * 100 / 96);
    } else {
        assert(level - 1 <= (level * 98 / 100) * 100 / 98);
    }
}

/// Reading the volume after writing `level` gives `level` or one less, on a
/// mixer whose span `round_trips`.
pub proof fn lemma_volume_round_trip(level: int, range: MixerRange, mixer: IdealMixer)
    requires
        range.wf(),
        0 <= level <= 100,
        round_trips(range.span()),
    ensures
        ({
            let written = run_against(
                |seen: Guarded| set_volume_step(level, seen, range.lower(), range.upper()),
                mixer,
            );
            let read = run_against(
                |seen: Guarded| get_volume_step(seen, range.lower(), range.upper()),
                written.0,
            );
            &&& written.1 == Step::<Result<(), VolumeError>>::Done(Ok(()))
            &&& read.1 matches Step::Done(Ok(back))
            &&& level - 1 <= back <= level
        }),
{
    lemma_raw_in_range(level, range.lower(), range.upper());
    lemma_rescale_round_trip(level, range.lower(), range.upper());
}

/// Writing a level outside `[0, 100]` is writing the nearest level inside.
pub proof fn lemma_set_volume_clamps(level: int, seen: Guarded, lower: int, upper: int)
    ensures
        set_volume_step(level, seen, lower, upper) == set_volume_step(
            clamp_level(level),
            seen,
            lower,
            upper,
        ),
        level > 100 ==> set_volume_step(level, seen, lower, upper) == set_volume_step(
            100,
            seen,
            lower,
            upper,
        ),
        level < 0 ==> set_volume_step(level, seen, lower, upper) == set_volume_step(
            0,
            seen,
            lower,
            upper,
        ),
{
}

/// Reading the mute switch after writing it gives what was written, and
/// writing it leaves the volume as it was.
pub proof fn lemma_mute_round_trip(mute: bool, mixer: IdealMixer)
    ensures
        ({
            let written = run_against(|seen: Guarded| set_mute_step(mute, seen), mixer);
            let read = run_against(|seen: Guarded| get_mute_step(seen), written.0);
            &&& written.1 == Step::<Result<(), VolumeError>>::Done(Ok(()))
            &&& read.1 == Step::<Result<bool, VolumeError>>::Done(Ok(mute))
            &&& written.0.raw == mixer.raw
        }),
{
}

/// Muting and then unmuting leaves the level that is read unchanged.
pub proof fn lemma_unmute_keeps_volume(range: MixerRange, mixer: IdealMixer)
    ensures
        ({
            let muted = run_against(|seen: Guarded| set_mute_step(true, seen), mixer).0;
            let unmuted = run_against(|seen: Guarded| set_mute_step(false, seen), muted).0;
            let before = run_against(
                |seen: Guarded| get_volume_step(seen, range.lower(), range.upper()),
                mixer,
            );
            let after = run_against(
                |seen: Guarded| get_volume_step(seen, range.lower(), range.upper()),
                unmuted,
            );
            &&& !unmuted.muted
            &&& after.1 == before.1
        }),
{
}

/// Every operation of the volume bridge asks for exactly one native call,
/// at its start, and is over once that call has been answered or refused.
pub proof fn lemma_one_call_per_operation(level: int, mute: bool, lower: int, upper: int, seen: Guarded)
    ensures
        init_audio_step(seen) is Call <==> seen is Idle,
        cleanup_audio_step(seen) is Call <==> seen is Idle,
        get_volume_step(seen, lower, upper) is Call <==> seen is Idle,
        set_volume_step(level, seen, lower, upper) is Call <==> seen is Idle,
        get_mute_step(seen) is Call <==> seen is Idle,
        set_mute_step(mute, seen) is Call <==> seen is Idle,
{
}

/// A read that fails, by a negative reply or by a guard that cannot be
/// taken, is a typed failure, and what is shown for it is the safe default:
/// silence for the volume, audible for the mute switch.
pub proof fn lemma_failed_reads_degrade(seen: Guarded, lower: int, upper: int)
    requires
        seen is Poisoned || (seen matches Guarded::Returned(reply) && reply < 0),
    ensures
        (get_volume_step(seen, lower, upper) matches Step::Done(reading) && reading is Err
            && shown_volume(reading) == DEFAULT_VOLUME),
        (get_mute_step(seen) matches Step::Done(reading) && reading is Err && shown_mute(reading)
            == DEFAULT_MUTE),
        seen is Returned ==> get_volume_step(seen, lower, upper) == Step::<
            Result<i64, VolumeError>,
        >::Done(Err(VolumeError::Read)),
        seen is Returned ==> get_mute_step(seen) == Step::<Result<bool, VolumeError>>::Done(
            Err(VolumeError::MuteRead),
        ),
{
}

} // verus!
