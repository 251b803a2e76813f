use plumbob::effects::{
    fade_steps, paralives_emotion, sims4_mood, sims4_moods, Fade, FadeAction, MoodCycle,
    FRAME_MS, SIMS4_MOOD_COUNT,
};

#[test]
fn emotion_palette_colors() {
    assert_eq!(paralives_emotion("happy"), Some((0x42, 0xd8, 0x54)));
    assert_eq!(paralives_emotion("amused"), Some((0xff, 0xc0, 0x40)));
    assert_eq!(paralives_emotion("inspired"), Some((0x00, 0xff, 0xc8)));
    assert_eq!(paralives_emotion("flirty"), Some((0xe1, 0x59, 0x7f)));
    assert_eq!(paralives_emotion("sad"), Some((0x20, 0x40, 0xff)));
    assert_eq!(paralives_emotion("angry"), Some((0xff, 0x00, 0x00)));
    assert_eq!(paralives_emotion("stressed"), Some((0xff, 0x40, 0x10)));
    assert_eq!(paralives_emotion("bored"), Some((0x80, 0x80, 0x80)));
    assert_eq!(paralives_emotion("disgust"), Some((0x80, 0xa0, 0x20)));
    assert_eq!(paralives_emotion("disgusted"), Some((0x80, 0xa0, 0x20)));
    assert_eq!(paralives_emotion("embarrassed"), Some((0xff, 0x55, 0x55)));
    assert_eq!(paralives_emotion("uncomfortable"), Some((0xde, 0x3e, 0x3b)));
}

#[test]
fn emotion_lookup_ignores_ascii_case() {
    assert_eq!(paralives_emotion("Happy"), paralives_emotion("happy"));
    assert_eq!(paralives_emotion("HAPPY"), Some((0x42, 0xd8, 0x54)));
    assert_eq!(paralives_emotion("UnComfortable"), Some((0xde, 0x3e, 0x3b)));
    assert_eq!(paralives_emotion("DISGUSTED"), paralives_emotion("disgust"));
}

#[test]
fn emotion_lookup_unknown_names() {
    assert_eq!(paralives_emotion(""), None);
    assert_eq!(paralives_emotion("Confident"), None);
    assert_eq!(paralives_emotion("happy "), None);
    assert_eq!(paralives_emotion("happ"), None);
    assert_eq!(paralives_emotion("sadd"), None);
    assert_eq!(paralives_emotion("Häppy"), None);
    assert_eq!(paralives_emotion("ſad"), None);
}

#[test]
fn sims4_palette_in_order() {
    let moods = sims4_moods();
    assert_eq!(moods.len(), SIMS4_MOOD_COUNT);
    assert_eq!(moods[0].name, "Happy");
    assert_eq!(moods[0].color, (0x42, 0xd8, 0x54));
    assert_eq!(moods[7].name, "Sad");
    assert_eq!(moods[7].color, (0x20, 0x40, 0xff));
    assert_eq!(moods[13].name, "Asleep");
    assert_eq!(moods[13].color, (0, 0, 0));
    for (i, m) in moods.iter().enumerate() {
        assert_eq!(sims4_mood(i).name, m.name);
        assert_eq!(sims4_mood(i).color, m.color);
    }
}

#[test]
fn fade_step_counts() {
    assert_eq!(FRAME_MS, 16);
    assert_eq!(fade_steps(800), 48);
    assert_eq!(fade_steps(1000), 60);
    assert_eq!(fade_steps(400), 24);
    assert_eq!(fade_steps(0), 1);
    assert_eq!(fade_steps(16), 1);
    assert_eq!(fade_steps(17), 1);
    assert_eq!(fade_steps(34), 2);
    assert_eq!(fade_steps(u64::MAX / 60), u64::MAX / 60 * 60 / 1000);
}

#[test]
fn mood_cycle_walks_the_palette_and_wraps() {
    let moods = sims4_moods();
    let mut cycle = MoodCycle::new();
    assert_eq!(cycle.current(), (0, 0, 0));
    assert_eq!(cycle.next_index(), 0);
    let mut previous = (0u8, 0u8, 0u8);
    for round in 0..2 {
        for i in 0..SIMS4_MOOD_COUNT {
            let step = cycle.step();
            assert_eq!(step.mood.name, moods[i].name, "round {round}");
            assert_eq!(step.from, previous);
            assert_eq!(step.to, moods[i].color);
            assert_eq!(cycle.current(), moods[i].color);
            previous = step.to;
        }
        assert_eq!(cycle.next_index(), 0);
    }
}

#[test]
fn emotion_lookup_upper_lower_same() {
    for name in ["happy", "Amused", "INSPIRED", "flIrty", "disgusted", "Cheerful"] {
        let lower = name.to_ascii_lowercase();
        let upper = name.to_ascii_uppercase();
        assert_eq!(paralives_emotion(name), paralives_emotion(&lower));
        assert_eq!(paralives_emotion(name), paralives_emotion(&upper));
    }
}

#[test]
fn fade_shows_every_frame_then_ends() {
    let mut f = Fade::new(50);
    assert_eq!(f.next(false), FadeAction::Show { frame: 1, steps: 3 });
    assert_eq!(f.next(false), FadeAction::Show { frame: 2, steps: 3 });
    assert_eq!(f.next(false), FadeAction::Show { frame: 3, steps: 3 });
    assert_eq!(f.next(false), FadeAction::Done);
    assert_eq!(f.next(false), FadeAction::Done);
}

#[test]
fn fade_of_no_time_has_one_frame() {
    let mut f = Fade::new(0);
    assert_eq!(f.next(false), FadeAction::Show { frame: 1, steps: 1 });
    assert_eq!(f.next(false), FadeAction::Done);
}

#[test]
fn fade_stops_when_interrupted() {
    let mut f = Fade::new(800);
    assert_eq!(f.next(false), FadeAction::Show { frame: 1, steps: 48 });
    assert_eq!(f.next(true), FadeAction::Abandon);
    assert_eq!(f.next(false), FadeAction::Done);
}
