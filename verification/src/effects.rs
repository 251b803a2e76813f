//! Color palettes and the emotion lookup.

use vstd::prelude::*;
use vstd::string::*;

verus! {

/// An RGB color, one byte per channel.
pub type Rgb = (u8, u8, u8);

/// ASCII lower-casing of one character; every other character is kept.
pub open spec fn ascii_lower(c: char) -> char {
    if 'A' <= c && c <= 'Z' {
        ((c as u32) + 32) as char
    } else {
        c
    }
}

/// ASCII lower-casing of a whole string.
pub open spec fn lower_seq(s: Seq<char>) -> Seq<char> {
    s.map_values(|c: char| ascii_lower(c))
}

/// The Paralives emotion palette, keyed by the lower-cased emotion name.
pub open spec fn paralives_palette(lower: Seq<char>) -> Option<Rgb> {
    if lower == "happy"@ {
        Some((0x42, 0xd8, 0x54))
    } else if lower == "amused"@ {
        Some((0xff, 0xc0, 0x40))
    } else if lower == "inspired"@ {
        Some((0x00, 0xff, 0xc8))
    } else if lower == "flirty"@ {
        Some((0xe1, 0x59, 0x7f))
    } else if lower == "sad"@ {
        Some((0x20, 0x40, 0xff))
    } else if lower == "angry"@ {
        Some((0xff, 0x00, 0x00))
    } else if lower == "stressed"@ {
        Some((0xff, 0x40, 0x10))
    } else if lower == "bored"@ {
        Some((0x80, 0x80, 0x80))
    } else if lower == "disgust"@ || lower == "disgusted"@ {
        Some((0x80, 0xa0, 0x20))
    } else if lower == "embarrassed"@ {
        Some((0xff, 0x55, 0x55))
    } else if lower == "uncomfortable"@ {
        Some((0xde, 0x3e, 0x3b))
    } else {
        None
    }
}

/// Lower-cases one character the way `ascii_lower` describes.
fn lower_char(c: char) -> (r: char)
    ensures
        r == ascii_lower(c),
{
    if 'A' <= c && c <= 'Z' {
        let code: u8 = (c as u8) + 32;
        code as char
    } else {
        c
    }
}

/// Whether `name`, lower-cased, is exactly `key`.
pub(crate) fn lower_equals(name: &str, name_len: usize, key: &str) -> (b: bool)
    requires
        name_len == name@.len(),
    ensures
        b == (lower_seq(name@) == key@),
{
    let key_len = key.unicode_len();
    if key_len != name_len {
        assert(lower_seq(name@).len() != key@.len());
        return false;
    }
    let mut i: usize = 0;
    while i < name_len
        invariant
            i <= name_len,
            name_len == name@.len(),
            key_len == key@.len(),
            key_len == name_len,
            forall|j: int| 0 <= j < i ==> ascii_lower(#[trigger] name@[j]) == key@[j],
        decreases name_len - i,
    {
        let c = lower_char(name.get_char(i));
        if c != key.get_char(i) {
            assert(lower_seq(name@)[i as int] != key@[i as int]);
            return false;
        }
        i = i + 1;
    }
    assert(lower_seq(name@) =~= key@);
    true
}

/// Map a Paralives emotion name to its color, ignoring ASCII case.
/// `None` for a name outside the palette.
pub fn paralives_emotion(name: &str) -> (r: Option<Rgb>)
    ensures
        r == paralives_palette(lower_seq(name@)),
{
    let n = name.unicode_len();
    if lower_equals(name, n, "happy") {
        Some((0x42, 0xd8, 0x54))
    } else if lower_equals(name, n, "amused") {
        Some((0xff, 0xc0, 0x40))
    } else if lower_equals(name, n, "inspired") {
        Some((0x00, 0xff, 0xc8))
    } else if lower_equals(name, n, "flirty") {
        Some((0xe1, 0x59, 0x7f))
    } else if lower_equals(name, n, "sad") {
        Some((0x20, 0x40, 0xff))
    } else if lower_equals(name, n, "angry") {
        Some((0xff, 0x00, 0x00))
    } else if lower_equals(name, n, "stressed") {
        Some((0xff, 0x40, 0x10))
    } else if lower_equals(name, n, "bored") {
        Some((0x80, 0x80, 0x80))
    } else if lower_equals(name, n, "disgust") || lower_equals(name, n, "disgusted") {
        Some((0x80, 0xa0, 0x20))
    } else if lower_equals(name, n, "embarrassed") {
        Some((0xff, 0x55, 0x55))
    } else if lower_equals(name, n, "uncomfortable") {
        Some((0xde, 0x3e, 0x3b))
    } else {
        None
    }
}


/// A named mood and the color that shows it.
#[derive(Debug, Clone, Copy)]
pub struct Mood {
    pub name: &'static str,
    pub color: Rgb,
}

/// Number of moods in the Sims 4 palette.
pub const SIMS4_MOOD_COUNT: usize = 14;

/// The Sims 4 mood palette (used for the local CLI demo), in cycle order.
pub open spec fn sims4_palette() -> Seq<Mood> {
    seq![
        Mood { name: "Happy", color: (0x42, 0xd8, 0x54) },
        Mood { name: "Confident", color: (0x00, 0xbf, 0xff) },
        Mood { name: "Energized", color: (0xff, 0x9d, 0x00) },
        Mood { name: "Flirty", color: (0xff, 0x69, 0xb4) },
        Mood { name: "Focused", color: (0x1e, 0x90, 0xff) },
        Mood { name: "Playful", color: (0xff, 0x00, 0xff) },
        Mood { name: "Inspired", color: (0x00, 0xff, 0xc8) },
        Mood { name: "Sad", color: (0x20, 0x40, 0xff) },
        Mood { name: "Embarrassed", color: (0xff, 0x55, 0x55) },
        Mood { name: "Angry", color: (0xff, 0x00, 0x00) },
        Mood { name: "Tense", color: (0xff, 0x40, 0x10) },
        Mood { name: "Uncomfortable", color: (0xff, 0xff, 0x00) },
        Mood { name: "Dazed", color: (0x94, 0x00, 0xd3) },
        Mood { name: "Asleep", color: (0x00, 0x00, 0x00) },
    ]
}

/// The mood at position `i` of the Sims 4 palette.
pub fn sims4_mood(i: usize) -> (m: Mood)
    requires
        i < SIMS4_MOOD_COUNT,
    ensures
        m == sims4_palette()[i as int],
{
    match i {
        0 => Mood { name: "Happy", color: (0x42, 0xd8, 0x54) },
        1 => Mood { name: "Confident", color: (0x00, 0xbf, 0xff) },
        2 => Mood { name: "Energized", color: (0xff, 0x9d, 0x00) },
        3 => Mood { name: "Flirty", color: (0xff, 0x69, 0xb4) },
        4 => Mood { name: "Focused", color: (0x1e, 0x90, 0xff) },
        5 => Mood { name: "Playful", color: (0xff, 0x00, 0xff) },
        6 => Mood { name: "Inspired", color: (0x00, 0xff, 0xc8) },
        7 => Mood { name: "Sad", color: (0x20, 0x40, 0xff) },
        8 => Mood { name: "Embarrassed", color: (0xff, 0x55, 0x55) },
        9 => Mood { name: "Angry", color: (0xff, 0x00, 0x00) },
        10 => Mood { name: "Tense", color: (0xff, 0x40, 0x10) },
        11 => Mood { name: "Uncomfortable", color: (0xff, 0xff, 0x00) },
        12 => Mood { name: "Dazed", color: (0x94, 0x00, 0xd3) },
        _ => Mood { name: "Asleep", color: (0x00, 0x00, 0x00) },
    }
}

/// The whole Sims 4 mood palette, in cycle order.
pub fn sims4_moods() -> (v: Vec<Mood>)
    ensures
        v@ == sims4_palette(),
{
    let mut v: Vec<Mood> = Vec::new();
    let mut i: usize = 0;
    while i < SIMS4_MOOD_COUNT
        invariant
            i <= SIMS4_MOOD_COUNT,
            v@ == sims4_palette().take(i as int),
        decreases SIMS4_MOOD_COUNT - i,
    {
        v.push(sims4_mood(i));
        i = i + 1;
        assert(v@ =~= sims4_palette().take(i as int));
    }
    assert(sims4_palette().take(SIMS4_MOOD_COUNT as int) =~= sims4_palette());
    v
}

/// Frames per second of a fade.
pub const FADE_FPS: u64 = 60;

/// Pause between two frames of a fade, in milliseconds.
pub const FRAME_MS: u64 = 1000 / FADE_FPS;

/// Number of frames of a fade that lasts `duration_ms` milliseconds: one frame
/// per sixtieth of a second, and never fewer than one.
pub open spec fn spec_fade_steps(duration_ms: u64) -> u64 {
    let n = duration_ms * FADE_FPS / 1000;
    if n < 1 { 1 } else { n as u64 }
}

/// Number of frames of a fade that lasts `duration_ms` milliseconds.
pub fn fade_steps(duration_ms: u64) -> (n: u64)
    requires
        duration_ms <= u64::MAX / FADE_FPS,
    ensures
        n == spec_fade_steps(duration_ms),
        n >= 1,
{
    let n = duration_ms * FADE_FPS / 1000;
    if n < 1 { 1 } else { n }
}

/// Abstract progress of a fade: how many frames it has, and how many are shown.
pub struct FadeProgress {
    pub steps: nat,
    pub shown: nat,
}

/// What a running fade does next.
#[derive(Debug, PartialEq, Eq, Clone, Copy, Structural)]
pub enum FadeAction {
    /// Show frame `frame` of `steps` (the color `frame / steps` of the way from
    /// start to end), then wait `FRAME_MS`.
    Show { frame: u64, steps: u64 },
    /// Every frame is shown; the fade is over.
    Done,
    /// A newer target arrived: the fade stops here, its remaining frames unshown.
    Abandon,
}

/// A fade in progress, frame by frame.
#[derive(Debug, Clone, Copy)]
pub struct Fade {
    steps: u64,
    shown: u64,
}

impl View for Fade {
    type V = FadeProgress;

    closed spec fn view(&self) -> FadeProgress {
        FadeProgress { steps: self.steps as nat, shown: self.shown as nat }
    }
}

impl Fade {
    /// No more frames are shown than the fade has.
    #[verifier::type_invariant]
    closed spec fn shown_within_steps(self) -> bool {
        self.shown <= self.steps
    }

    /// A fade that lasts `duration_ms` milliseconds, no frame shown yet.
    pub fn new(duration_ms: u64) -> (f: Fade)
        requires
            duration_ms <= u64::MAX / FADE_FPS,
        ensures
            f@ == (FadeProgress { steps: spec_fade_steps(duration_ms) as nat, shown: 0 }),
    {
        Fade { steps: fade_steps(duration_ms), shown: 0 }
    }

    /// The next action of the fade. An interruption abandons it for good;
    /// otherwise the frames come one by one, from the first to the last, then
    /// the fade is done.
    pub fn next(&mut self, interrupted: bool) -> (a: FadeAction)
        ensures
            old(self)@.shown <= old(self)@.steps,
            final(self)@.steps == old(self)@.steps,
            interrupted ==> a == FadeAction::Abandon && final(self)@.shown == old(self)@.steps,
            !interrupted && old(self)@.shown < old(self)@.steps ==> a == (FadeAction::Show {
                frame: (old(self)@.shown + 1) as u64,
                steps: old(self)@.steps as u64,
            }) && final(self)@.shown == old(self)@.shown + 1,
            !interrupted && old(self)@.shown == old(self)@.steps ==> a == FadeAction::Done
                && final(self)@ == old(self)@,
    {
        proof {
            use_type_invariant(&*self);
        }
        if interrupted {
            *self = Fade { steps: self.steps, shown: self.steps };
            FadeAction::Abandon
        } else if self.shown < self.steps {
            let frame = self.shown + 1;
            *self = Fade { steps: self.steps, shown: frame };
            FadeAction::Show { frame, steps: self.steps }
        } else {
            FadeAction::Done
        }
    }
}

/// A fade shows one frame per sixtieth of a second of its length, rounded
/// down, and at least one frame; a frame lasts 16 ms.
pub proof fn lemma_fade_frame_rate(duration_ms: u64)
    requires
        duration_ms <= u64::MAX / FADE_FPS,
    ensures
        FRAME_MS == 16,
        spec_fade_steps(duration_ms) >= 1,
        duration_ms * 60 >= 1000 ==> spec_fade_steps(duration_ms) * 1000 <= duration_ms * 60
            < (spec_fade_steps(duration_ms) + 1) * 1000,
        duration_ms * 60 < 1000 ==> spec_fade_steps(duration_ms) == 1,
{
    let x = duration_ms * 60;
    vstd::arithmetic::div_mod::lemma_fundamental_div_mod(x as int, 1000);
    vstd::arithmetic::div_mod::lemma_mod_bound(x as int, 1000);
    assert(x / 1000 >= 1 <==> x >= 1000);
}

/// One step of the mood demo: show `mood`, fading from `from` to `to`.
#[derive(Debug, Clone, Copy)]
pub struct MoodStep {
    pub mood: Mood,
    pub from: Rgb,
    pub to: Rgb,
}

/// Abstract state of the mood demo: the palette index of the mood that comes
/// next, and the color shown now.
pub struct MoodCycleState {
    pub next: nat,
    pub current: Rgb,
}

impl MoodCycleState {
    /// Well-formed: `next` indexes the palette.
    pub open spec fn wf(self) -> bool {
        self.next < SIMS4_MOOD_COUNT
    }

    /// The state after one step: the mood at `next` is shown, and the one
    /// after it (the first after the last) comes next.
    pub open spec fn advanced(self) -> MoodCycleState {
        MoodCycleState {
            next: (((self.next + 1) as int) % (SIMS4_MOOD_COUNT as int)) as nat,
            current: sims4_palette()[self.next as int].color,
        }
    }

    /// The state after `n` steps.
    pub open spec fn advanced_by(self, n: nat) -> MoodCycleState
        decreases n,
    {
        if n == 0 {
            self
        } else {
            self.advanced_by((n - 1) as nat).advanced()
        }
    }
}

/// State of the endless mood demo: which mood comes next, and the color shown now.
#[derive(Debug, Clone, Copy)]
pub struct MoodCycle {
    next: usize,
    current: Rgb,
}

impl View for MoodCycle {
    type V = MoodCycleState;

    closed spec fn view(&self) -> MoodCycleState {
        MoodCycleState { next: self.next as nat, current: self.current }
    }
}

impl MoodCycle {
    /// The index of the next mood always lies inside the palette.
    #[verifier::type_invariant]
    closed spec fn next_in_palette(self) -> bool {
        self.next < SIMS4_MOOD_COUNT
    }

    /// The demo starts dark, before the first mood.
    pub fn new() -> (c: MoodCycle)
        ensures
            c@ == (MoodCycleState { next: 0, current: (0u8, 0u8, 0u8) }),
            c@.wf(),
    {
        MoodCycle { next: 0, current: (0, 0, 0) }
    }

    /// The palette index of the mood that comes next.
    pub fn next_index(&self) -> (n: usize)
        ensures
            n == self@.next,
            self@.wf(),
    {
        proof {
            use_type_invariant(self);
        }
        self.next
    }

    /// The color shown now.
    pub fn current(&self) -> (c: Rgb)
        ensures
            c == self@.current,
    {
        self.current
    }

    /// Take the next mood: fade from the color shown now to the mood's color,
    /// which becomes the color shown; the mood after the last is the first.
    pub fn step(&mut self) -> (s: MoodStep)
        ensures
            old(self)@.wf(),
            final(self)@.wf(),
            s.mood == sims4_palette()[old(self)@.next as int],
            s.from == old(self)@.current,
            s.to == s.mood.color,
            final(self)@ == old(self)@.advanced(),
    {
        proof {
            use_type_invariant(&*self);
        }
        let mood = sims4_mood(self.next);
        let from = self.current;
        let next = if self.next + 1 == SIMS4_MOOD_COUNT { 0 } else { self.next + 1 };
        *self = MoodCycle { next, current: mood.color };
        MoodStep { mood, from, to: mood.color }
    }
}

/// After `n >= 1` steps the demo shows the mood `n - 1` places after the one it
/// started with, and the mood `n` places after it comes next.
pub proof fn lemma_mood_cycle_steps(c: MoodCycleState, n: nat)
    requires
        c.wf(),
    ensures
        c.advanced_by(n).wf(),
        c.advanced_by(n).next == ((c.next + n) as int) % (SIMS4_MOOD_COUNT as int),
        n >= 1 ==> c.advanced_by(n).current == sims4_palette()[(c.next + n - 1) % (
        SIMS4_MOOD_COUNT as int)].color,
    decreases n,
{
    if n > 0 {
        lemma_mood_cycle_steps(c, (n - 1) as nat);
        let m = SIMS4_MOOD_COUNT as int;
        let p = c.advanced_by((n - 1) as nat).next as int;
        assert(p == (c.next + n - 1) % m);
        assert((p + 1) % m == ((c.next + n) as int) % m) by {
            vstd::arithmetic::div_mod::lemma_add_mod_noop(c.next + n - 1, 1, m);
            vstd::arithmetic::div_mod::lemma_mod_twice(1, m);
        }
    }
}

/// A full round of the palette brings the demo back to the mood it started
/// with, showing the last mood of the round.
pub proof fn lemma_mood_cycle_round(c: MoodCycleState)
    requires
        c.wf(),
    ensures
        c.advanced_by(SIMS4_MOOD_COUNT as nat).next == c.next,
        c.advanced_by(SIMS4_MOOD_COUNT as nat).current == sims4_palette()[(c.next
            + SIMS4_MOOD_COUNT - 1) % (SIMS4_MOOD_COUNT as int)].color,
{
    lemma_mood_cycle_steps(c, SIMS4_MOOD_COUNT as nat);
}

/// The Sims 4 palette, entry by entry: fourteen moods, each with its color.
pub proof fn lemma_sims4_palette_table()
    ensures
        sims4_palette().len() == SIMS4_MOOD_COUNT,
        sims4_palette()[0].name@ == "Happy"@ && sims4_palette()[0].color == (0x42u8, 0xd8u8, 0x54u8),
        sims4_palette()[1].name@ == "Confident"@ && sims4_palette()[1].color == (0x00u8, 0xbfu8, 0xffu8),
        sims4_palette()[2].name@ == "Energized"@ && sims4_palette()[2].color == (0xffu8, 0x9du8, 0x00u8),
        sims4_palette()[3].name@ == "Flirty"@ && sims4_palette()[3].color == (0xffu8, 0x69u8, 0xb4u8),
        sims4_palette()[4].name@ == "Focused"@ && sims4_palette()[4].color == (0x1eu8, 0x90u8, 0xffu8),
        sims4_palette()[5].name@ == "Playful"@ && sims4_palette()[5].color == (0xffu8, 0x00u8, 0xffu8),
        sims4_palette()[6].name@ == "Inspired"@ && sims4_palette()[6].color == (0x00u8, 0xffu8, 0xc8u8),
        sims4_palette()[7].name@ == "Sad"@ && sims4_palette()[7].color == (0x20u8, 0x40u8, 0xffu8),
        sims4_palette()[8].name@ == "Embarrassed"@ && sims4_palette()[8].color == (0xffu8, 0x55u8, 0x55u8),
        sims4_palette()[9].name@ == "Angry"@ && sims4_palette()[9].color == (0xffu8, 0x00u8, 0x00u8),
        sims4_palette()[10].name@ == "Tense"@ && sims4_palette()[10].color == (0xffu8, 0x40u8, 0x10u8),
        sims4_palette()[11].name@ == "Uncomfortable"@ && sims4_palette()[11].color == (0xffu8, 0xffu8, 0x00u8),
        sims4_palette()[12].name@ == "Dazed"@ && sims4_palette()[12].color == (0x94u8, 0x00u8, 0xd3u8),
        sims4_palette()[13].name@ == "Asleep"@ && sims4_palette()[13].color == (0x00u8, 0x00u8, 0x00u8),
{
}

/// The Paralives palette, name by name (in lower case; any ASCII case gives the
/// same color), and a name outside it gets no color.
pub proof fn lemma_paralives_palette_table()
    ensures
        paralives_palette("happy"@) == Some::<Rgb>((0x42u8, 0xd8u8, 0x54u8)),
        paralives_palette("amused"@) == Some::<Rgb>((0xffu8, 0xc0u8, 0x40u8)),
        paralives_palette("inspired"@) == Some::<Rgb>((0x00u8, 0xffu8, 0xc8u8)),
        paralives_palette("flirty"@) == Some::<Rgb>((0xe1u8, 0x59u8, 0x7fu8)),
        paralives_palette("sad"@) == Some::<Rgb>((0x20u8, 0x40u8, 0xffu8)),
        paralives_palette("angry"@) == Some::<Rgb>((0xffu8, 0x00u8, 0x00u8)),
        paralives_palette("stressed"@) == Some::<Rgb>((0xffu8, 0x40u8, 0x10u8)),
        paralives_palette("bored"@) == Some::<Rgb>((0x80u8, 0x80u8, 0x80u8)),
        paralives_palette("disgust"@) == Some::<Rgb>((0x80u8, 0xa0u8, 0x20u8)),
        paralives_palette("disgusted"@) == Some::<Rgb>((0x80u8, 0xa0u8, 0x20u8)),
        paralives_palette("embarrassed"@) == Some::<Rgb>((0xffu8, 0x55u8, 0x55u8)),
        paralives_palette("uncomfortable"@) == Some::<Rgb>((0xdeu8, 0x3eu8, 0x3bu8)),
        paralives_palette("confident"@) is None,
        paralives_palette(Seq::<char>::empty()) is None,
{
    broadcast use vstd::string::group_string_axioms;
    reveal_strlit("happy");
    reveal_strlit("amused");
    reveal_strlit("inspired");
    reveal_strlit("flirty");
    reveal_strlit("sad");
    reveal_strlit("angry");
    reveal_strlit("stressed");
    reveal_strlit("bored");
    reveal_strlit("disgust");
    reveal_strlit("disgusted");
    reveal_strlit("embarrassed");
    reveal_strlit("uncomfortable");
    reveal_strlit("confident");
    assert("amused"@.len() != "happy"@.len());
    assert("inspired"@.len() != "happy"@.len());
    assert("inspired"@.len() != "amused"@.len());
    assert("flirty"@.len() != "happy"@.len());
    assert("flirty"@[0] != "amused"@[0]);
    assert("flirty"@.len() != "inspired"@.len());
    assert("sad"@.len() != "happy"@.len());
    assert("sad"@.len() != "amused"@.len());
    assert("sad"@.len() != "inspired"@.len());
    assert("sad"@.len() != "flirty"@.len());
    assert("angry"@[0] != "happy"@[0]);
    assert("angry"@.len() != "amused"@.len());
    assert("angry"@.len() != "inspired"@.len());
    assert("angry"@.len() != "flirty"@.len());
    assert("angry"@.len() != "sad"@.len());
    assert("stressed"@.len() != "happy"@.len());
    assert("stressed"@.len() != "amused"@.len());
    assert("stressed"@[0] != "inspired"@[0]);
    assert("stressed"@.len() != "flirty"@.len());
    assert("stressed"@.len() != "sad"@.len());
    assert("stressed"@.len() != "angry"@.len());
    assert("bored"@[0] != "happy"@[0]);
    assert("bored"@.len() != "amused"@.len());
    assert("bored"@.len() != "inspired"@.len());
    assert("bored"@.len() != "flirty"@.len());
    assert("bored"@.len() != "sad"@.len());
    assert("bored"@[0] != "angry"@[0]);
    assert("bored"@.len() != "stressed"@.len());
    assert("disgust"@.len() != "happy"@.len());
    assert("disgust"@.len() != "amused"@.len());
    assert("disgust"@.len() != "inspired"@.len());
    assert("disgust"@.len() != "flirty"@.len());
    assert("disgust"@.len() != "sad"@.len());
    assert("disgust"@.len() != "angry"@.len());
    assert("disgust"@.len() != "stressed"@.len());
    assert("disgust"@.len() != "bored"@.len());
    assert("disgusted"@.len() != "happy"@.len());
    assert("disgusted"@.len() != "amused"@.len());
    assert("disgusted"@.len() != "inspired"@.len());
    assert("disgusted"@.len() != "flirty"@.len());
    assert("disgusted"@.len() != "sad"@.len());
    assert("disgusted"@.len() != "angry"@.len());
    assert("disgusted"@.len() != "stressed"@.len());
    assert("disgusted"@.len() != "bored"@.len());
    assert("disgusted"@.len() != "disgust"@.len());
    assert("embarrassed"@.len() != "happy"@.len());
    assert("embarrassed"@.len() != "amused"@.len());
    assert("embarrassed"@.len() != "inspired"@.len());
    assert("embarrassed"@.len() != "flirty"@.len());
    assert("embarrassed"@.len() != "sad"@.len());
    assert("embarrassed"@.len() != "angry"@.len());
    assert("embarrassed"@.len() != "stressed"@.len());
    assert("embarrassed"@.len() != "bored"@.len());
    assert("embarrassed"@.len() != "disgust"@.len());
    assert("embarrassed"@.len() != "disgusted"@.len());
    assert("uncomfortable"@.len() != "happy"@.len());
    assert("uncomfortable"@.len() != "amused"@.len());
    assert("uncomfortable"@.len() != "inspired"@.len());
    assert("uncomfortable"@.len() != "flirty"@.len());
    assert("uncomfortable"@.len() != "sad"@.len());
    assert("uncomfortable"@.len() != "angry"@.len());
    assert("uncomfortable"@.len() != "stressed"@.len());
    assert("uncomfortable"@.len() != "bored"@.len());
    assert("uncomfortable"@.len() != "disgust"@.len());
    assert("uncomfortable"@.len() != "disgusted"@.len());
    assert("uncomfortable"@.len() != "embarrassed"@.len());
    assert("confident"@.len() != "happy"@.len());
    assert("confident"@.len() != "amused"@.len());
    assert("confident"@.len() != "inspired"@.len());
    assert("confident"@.len() != "flirty"@.len());
    assert("confident"@.len() != "sad"@.len());
    assert("confident"@.len() != "angry"@.len());
    assert("confident"@.len() != "stressed"@.len());
    assert("confident"@.len() != "bored"@.len());
    assert("confident"@.len() != "disgust"@.len());
    assert("confident"@[0] != "disgusted"@[0]);
    assert("confident"@.len() != "embarrassed"@.len());
    assert("confident"@.len() != "uncomfortable"@.len());
    assert(Seq::<char>::empty().len() != "happy"@.len());
    assert(Seq::<char>::empty().len() != "amused"@.len());
    assert(Seq::<char>::empty().len() != "inspired"@.len());
    assert(Seq::<char>::empty().len() != "flirty"@.len());
    assert(Seq::<char>::empty().len() != "sad"@.len());
    assert(Seq::<char>::empty().len() != "angry"@.len());
    assert(Seq::<char>::empty().len() != "stressed"@.len());
    assert(Seq::<char>::empty().len() != "bored"@.len());
    assert(Seq::<char>::empty().len() != "disgust"@.len());
    assert(Seq::<char>::empty().len() != "disgusted"@.len());
    assert(Seq::<char>::empty().len() != "embarrassed"@.len());
    assert(Seq::<char>::empty().len() != "uncomfortable"@.len());
}

/// ASCII upper-casing of one character; every other character is kept.
pub open spec fn ascii_upper(c: char) -> char {
    if 'a' <= c && c <= 'z' {
        ((c as u32) - 32) as char
    } else {
        c
    }
}

/// ASCII upper-casing of a whole string.
pub open spec fn upper_seq(s: Seq<char>) -> Seq<char> {
    s.map_values(|c: char| ascii_upper(c))
}

/// An emotion name, its lower-case form and its upper-case form get the same color.
pub proof fn lemma_emotion_case_insensitive(name: Seq<char>)
    ensures
        paralives_palette(lower_seq(lower_seq(name))) == paralives_palette(lower_seq(name)),
        paralives_palette(lower_seq(upper_seq(name))) == paralives_palette(lower_seq(name)),
{
    assert(lower_seq(lower_seq(name)) =~= lower_seq(name));
    assert forall|i: int| 0 <= i < name.len() implies #[trigger] ascii_lower(ascii_upper(name[i]))
        == ascii_lower(name[i]) by {
        let c = name[i];
        if 'a' <= c && c <= 'z' {
            assert(((c as u32) - 32) as char as u32 == (c as u32) - 32);
        }
    }
    assert(lower_seq(upper_seq(name)) =~= lower_seq(name));
}

} // verus!
