//! Decisions of the daemon: which color target each request asks for, and
//! how the LED worker chains its fades.

use vstd::prelude::*;
use crate::effects::{Rgb, paralives_emotion, paralives_palette, lower_seq, lower_equals};
use vstd::string::*;

verus! {

/// Fade length of an `/emotion` request that names none.
pub const EMOTION_FADE_MS: u64 = 800;

/// Fade length of an `/rgb` request that names none.
pub const RGB_FADE_MS: u64 = 0;

/// Fade length of an `/off` request.
pub const OFF_FADE_MS: u64 = 400;

/// Fade length of a `/game_event` request.
pub const GAME_EVENT_FADE_MS: u64 = 800;

/// A color the LED worker should fade to, and how long the fade lasts.
#[derive(Debug, PartialEq, Eq, Clone, Copy)]
pub struct Target {
    pub color: Rgb,
    pub fade_ms: u64,
}

/// An emotion outside the palette, with no usable fallback color.
#[derive(Debug, PartialEq, Eq, Clone, Copy, Structural)]
pub struct UnknownEmotion;

/// The color an `/emotion` request shows: the palette's color for the emotion
/// when there is one, else the fallback color unless it is missing or black.
pub open spec fn emotion_color(emotion: Seq<char>, rgb: Option<[u8; 3]>) -> Option<Rgb> {
    match paralives_palette(lower_seq(emotion)) {
        Some(c) => Some(c),
        None => match rgb {
            None => None,
            Some(a) => if a@[0] == 0 && a@[1] == 0 && a@[2] == 0 {
                None
            } else {
                Some((a@[0], a@[1], a@[2]))
            },
        },
    }
}

/// The target of an `/emotion` request.
pub fn emotion_target(emotion: &str, fade_ms: Option<u64>, rgb: Option<[u8; 3]>) -> (r: Result<
    Target,
    UnknownEmotion,
>)
    ensures
        r is Ok <==> emotion_color(emotion@, rgb) is Some,
        r matches Ok(t) ==> t.color == emotion_color(emotion@, rgb)->0 && t.fade_ms == (
        match fade_ms {
            Some(ms) => ms,
            None => EMOTION_FADE_MS,
        }),
{
    let color = match paralives_emotion(emotion) {
        Some(c) => c,
        None => match rgb {
            None => {
                return Err(UnknownEmotion);
            },
            Some(a) => {
                if a[0] == 0 && a[1] == 0 && a[2] == 0 {
                    return Err(UnknownEmotion);
                }
                (a[0], a[1], a[2])
            },
        },
    };
    let fade_ms = match fade_ms {
        Some(ms) => ms,
        None => EMOTION_FADE_MS,
    };
    Ok(Target { color, fade_ms })
}

/// The target of an `/rgb` request.
pub fn rgb_target(r: u8, g: u8, b: u8, fade_ms: Option<u64>) -> (t: Target)
    ensures
        t.color == (r, g, b),
        t.fade_ms == (match fade_ms {
            Some(ms) => ms,
            None => RGB_FADE_MS,
        }),
{
    let fade_ms = match fade_ms {
        Some(ms) => ms,
        None => RGB_FADE_MS,
    };
    Target { color: (r, g, b), fade_ms }
}

/// The target of an `/off` request: black, over a short fade.
pub fn off_target() -> (t: Target)
    ensures
        t.color == (0u8, 0u8, 0u8),
        t.fade_ms == OFF_FADE_MS,
{
    Target { color: (0, 0, 0), fade_ms: OFF_FADE_MS }
}

/// One of the keys `r`, `g`, `b` of a JSON object, as the color lookup reads it.
#[derive(Debug, PartialEq, Eq, Clone, Copy, Structural)]
pub enum Channel {
    /// The key is missing.
    Absent,
    /// The key holds something other than an unsigned integer that fits in `u64`.
    NotU64,
    /// The key holds this unsigned integer.
    U64(u64),
}

/// The `value` member of a GameSense event's `data`, as the color lookup reads it.
#[derive(Debug)]
pub enum GameSenseValue {
    /// A JSON string.
    Text(String),
    /// A JSON array; each element is `None` unless it is an unsigned integer that fits in `u64`.
    Array(Vec<Option<u64>>),
    /// A JSON object, read at its keys `r`, `g` and `b`.
    Object { r: Channel, g: Channel, b: Channel },
    /// Any other JSON value: null, a boolean, a number.
    Other,
}

/// The color a GameSense `value` member denotes, if any: an emotion name, an
/// array of exactly three unsigned integers, or an object with unsigned integer
/// keys `r`, `g` and `b`; each integer keeps its low eight bits.
pub open spec fn gamesense_color(value: Option<GameSenseValue>) -> Option<Rgb> {
    match value {
        None => None,
        Some(GameSenseValue::Text(s)) => paralives_palette(lower_seq(s@)),
        Some(GameSenseValue::Array(a)) => if a@.len() == 3 {
            match (a@[0], a@[1], a@[2]) {
                (Some(r), Some(g), Some(b)) => Some((r as u8, g as u8, b as u8)),
                _ => None,
            }
        } else {
            None
        },
        Some(GameSenseValue::Object { r, g, b }) => match (r, g, b) {
            (Channel::U64(r), Channel::U64(g), Channel::U64(b)) => Some((r as u8, g as u8, b as u8)),
            _ => None,
        },
        Some(GameSenseValue::Other) => None,
    }
}

/// Derive a color from the `value` member of a GameSense event's `data`
/// (`None` when `data` has no such member).
pub fn parse_gamesense_value(value: &Option<GameSenseValue>) -> (c: Option<Rgb>)
    ensures
        c == gamesense_color(*value),
{
    match value {
        None => None,
        Some(GameSenseValue::Text(s)) => paralives_emotion(s.as_str()),
        Some(GameSenseValue::Array(a)) => {
            if a.len() == 3 {
                match (a[0], a[1], a[2]) {
                    (Some(r), Some(g), Some(b)) => Some((r as u8, g as u8, b as u8)),
                    _ => None,
                }
            } else {
                None
            }
        },
        Some(GameSenseValue::Object { r, g, b }) => match (*r, *g, *b) {
            (Channel::U64(r), Channel::U64(g), Channel::U64(b)) => Some(
                (r as u8, g as u8, b as u8),
            ),
            _ => None,
        },
        Some(GameSenseValue::Other) => None,
    }
}

/// Whether a GameSense event name asks for a color: `MOOD` or `EMOTION`,
/// in any ASCII case.
pub open spec fn is_color_event(event: Seq<char>) -> bool {
    lower_seq(event) == "mood"@ || lower_seq(event) == "emotion"@
}

/// Why a `/game_event` request sets no color.
#[derive(Debug, PartialEq, Eq, Clone, Copy, Structural)]
pub enum GameEventError {
    /// The event is neither `MOOD` nor `EMOTION`; it is no color request.
    NotColorEvent,
    /// The event asks for a color, but its data denotes none.
    NoColor,
}

/// The target of a `/game_event` request: only `MOOD` and `EMOTION` events
/// ask for a color, which their data's `value` member denotes.
pub fn game_event_target(event: &str, value: &Option<GameSenseValue>) -> (r: Result<
    Target,
    GameEventError,
>)
    ensures
        !is_color_event(event@) ==> r == Err::<Target, GameEventError>(
            GameEventError::NotColorEvent,
        ),
        is_color_event(event@) && gamesense_color(*value) is None ==> r == Err::<
            Target,
            GameEventError,
        >(GameEventError::NoColor),
        is_color_event(event@) && gamesense_color(*value) is Some ==> r == Ok::<
            Target,
            GameEventError,
        >(Target { color: gamesense_color(*value)->0, fade_ms: GAME_EVENT_FADE_MS }),
{
    let n = event.unicode_len();
    if !(lower_equals(event, n, "mood") || lower_equals(event, n, "emotion")) {
        return Err(GameEventError::NotColorEvent);
    }
    match parse_gamesense_value(value) {
        Some(color) => Ok(Target { color, fade_ms: GAME_EVENT_FADE_MS }),
        None => Err(GameEventError::NoColor),
    }
}

/// A fade the LED worker runs: from one color to another over `fade_ms` milliseconds.
#[derive(Debug, PartialEq, Eq, Clone, Copy)]
pub struct FadeJob {
    pub from: Rgb,
    pub to: Rgb,
    pub fade_ms: u64,
}

/// State of the LED worker: the color it takes the LED to show.
#[derive(Debug, PartialEq, Eq, Clone, Copy)]
pub struct Worker {
    pub current: Rgb,
}

impl Worker {
    /// The worker starts dark.
    pub fn new() -> (w: Worker)
        ensures
            w.current == (0u8, 0u8, 0u8),
    {
        Worker { current: (0, 0, 0) }
    }

    /// Start the fade toward a new target. Whether that fade completes or a
    /// newer target interrupts it, the next fade starts from this target's color.
    pub fn begin(&mut self, target: Target) -> (job: FadeJob)
        ensures
            job.from == old(self).current,
            job.to == target.color,
            job.fade_ms == target.fade_ms,
            final(self).current == target.color,
    {
        let job = FadeJob { from: self.current, to: target.color, fade_ms: target.fade_ms };
        self.current = target.color;
        job
    }
}

/// A name in the palette decides the color of an `/emotion` request, whatever
/// fallback comes with it; a name outside it with a black or missing fallback
/// is refused.
pub proof fn lemma_emotion_fallback(emotion: Seq<char>, rgb: Option<[u8; 3]>)
    ensures
        paralives_palette(lower_seq(emotion)) is Some ==> emotion_color(emotion, rgb)
            == paralives_palette(lower_seq(emotion)),
        paralives_palette(lower_seq(emotion)) is None && (rgb is None || (rgb->0@[0] == 0
            && rgb->0@[1] == 0 && rgb->0@[2] == 0)) ==> emotion_color(emotion, rgb) is None,
{
}

/// A name outside the palette takes its fallback color unchanged, whenever
/// that color is not black.
pub proof fn lemma_fallback_used(emotion: Seq<char>, rgb: [u8; 3])
    requires
        paralives_palette(lower_seq(emotion)) is None,
        rgb@[0] != 0 || rgb@[1] != 0 || rgb@[2] != 0,
    ensures
        emotion_color(emotion, Some(rgb)) == Some::<Rgb>((rgb@[0], rgb@[1], rgb@[2])),
{
}

/// Three unsigned integers, as an array of exactly three or as the keys `r`,
/// `g`, `b` of an object, denote the color of their low eight bits; an array
/// of another length denotes no color.
pub proof fn lemma_gamesense_numbers(a: Vec<Option<u64>>, r: u64, g: u64, b: u64)
    ensures
        a@ == seq![Some(r), Some(g), Some(b)] ==> gamesense_color(Some(GameSenseValue::Array(a)))
            == Some::<Rgb>(((r % 256) as u8, (g % 256) as u8, (b % 256) as u8)),
        a@.len() != 3 ==> gamesense_color(Some(GameSenseValue::Array(a))) is None,
        gamesense_color(
            Some(GameSenseValue::Object { r: Channel::U64(r), g: Channel::U64(g), b: Channel::U64(b) }),
        ) == Some::<Rgb>(((r % 256) as u8, (g % 256) as u8, (b % 256) as u8)),
{
    assert(r as u8 == (r % 256) as u8) by (bit_vector);
    assert(g as u8 == (g % 256) as u8) by (bit_vector);
    assert(b as u8 == (b % 256) as u8) by (bit_vector);
}

/// Default fade lengths: 800 ms for an emotion or a game event, none for a
/// plain color, 400 ms to turn off.
pub proof fn lemma_fade_lengths()
    ensures
        EMOTION_FADE_MS == 800,
        RGB_FADE_MS == 0,
        OFF_FADE_MS == 400,
        GAME_EVENT_FADE_MS == 800,
{
}

/// `MOOD` and `EMOTION`, in any ASCII case, are color events; other names,
/// such as `HEALTH`, are not.
pub proof fn lemma_color_event_names()
    ensures
        is_color_event("MOOD"@),
        is_color_event("mood"@),
        is_color_event("EMOTION"@),
        is_color_event("Emotion"@),
        !is_color_event("HEALTH"@),
        !is_color_event(Seq::<char>::empty()),
{
    broadcast use vstd::string::group_string_axioms;
    reveal_strlit("MOOD");
    reveal_strlit("mood");
    reveal_strlit("EMOTION");
    reveal_strlit("Emotion");
    reveal_strlit("emotion");
    reveal_strlit("HEALTH");
    assert(lower_seq("MOOD"@) =~= "mood"@);
    assert(lower_seq("mood"@) =~= "mood"@);
    assert(lower_seq("EMOTION"@) =~= "emotion"@);
    assert(lower_seq("Emotion"@) =~= "emotion"@);
    assert(lower_seq("HEALTH"@).len() != "mood"@.len());
    assert(lower_seq("HEALTH"@).len() != "emotion"@.len());
    assert(lower_seq(Seq::<char>::empty()).len() != "mood"@.len());
    assert(lower_seq(Seq::<char>::empty()).len() != "emotion"@.len());
}

/// A GameSense event that names an emotion gets the color that the `/emotion`
/// endpoint gives the same name without a fallback.
pub proof fn lemma_gamesense_text_is_emotion(name: String)
    ensures
        gamesense_color(Some(GameSenseValue::Text(name))) == emotion_color(name@, None),
{
}

/// The error of a helper that is never meant to succeed.
#[derive(Debug, PartialEq, Eq, Clone, Copy, Structural)]
pub struct NeverCalled;

impl NeverCalled {
    /// The message of this error.
    pub fn to_string(&self) -> (m: String)
        ensures
            m@ == "never called"@,
    {
        String::from_str("never called")
    }
}

/// A placeholder that refers to any value and always fails.
pub fn _refer<T>(_value: T) -> (r: Result<(), NeverCalled>)
    ensures
        r == Err::<(), NeverCalled>(NeverCalled),
{
    Err(NeverCalled)
}

} // verus!
