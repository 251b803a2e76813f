use plumbob::service::{
    _refer, emotion_target, game_event_target, off_target, parse_gamesense_value, rgb_target,
    Channel, GameEventError, GameSenseValue, NeverCalled, Target, UnknownEmotion, Worker,
};

#[test]
fn emotion_request_known_name() {
    let t = emotion_target("Happy", None, None).unwrap();
    assert_eq!(t, Target { color: (0x42, 0xd8, 0x54), fade_ms: 800 });
    let t = emotion_target("sad", Some(150), Some([1, 2, 3])).unwrap();
    assert_eq!(t, Target { color: (0x20, 0x40, 0xff), fade_ms: 150 });
}

#[test]
fn emotion_request_fallback_color() {
    let t = emotion_target("Cheerful", None, Some([10, 20, 30])).unwrap();
    assert_eq!(t, Target { color: (10, 20, 30), fade_ms: 800 });
    let t = emotion_target("x", Some(0), Some([0, 0, 1])).unwrap();
    assert_eq!(t, Target { color: (0, 0, 1), fade_ms: 0 });
}

#[test]
fn emotion_request_refused() {
    assert_eq!(emotion_target("Cheerful", None, None), Err(UnknownEmotion));
    assert_eq!(emotion_target("Cheerful", Some(5), Some([0, 0, 0])), Err(UnknownEmotion));
}

#[test]
fn rgb_and_off_requests() {
    assert_eq!(rgb_target(1, 2, 3, None), Target { color: (1, 2, 3), fade_ms: 0 });
    assert_eq!(rgb_target(1, 2, 3, Some(900)), Target { color: (1, 2, 3), fade_ms: 900 });
    assert_eq!(off_target(), Target { color: (0, 0, 0), fade_ms: 400 });
}

#[test]
fn gamesense_values() {
    let v = Some(GameSenseValue::Text("Angry".to_string()));
    assert_eq!(parse_gamesense_value(&v), Some((0xff, 0, 0)));
    let v = Some(GameSenseValue::Text("Confident".to_string()));
    assert_eq!(parse_gamesense_value(&v), None);
    let v = Some(GameSenseValue::Array(vec![Some(1), Some(2), Some(3)]));
    assert_eq!(parse_gamesense_value(&v), Some((1, 2, 3)));
    let v = Some(GameSenseValue::Array(vec![Some(256), Some(513), Some(255)]));
    assert_eq!(parse_gamesense_value(&v), Some((0, 1, 255)));
    let v = Some(GameSenseValue::Array(vec![Some(1), None, Some(3)]));
    assert_eq!(parse_gamesense_value(&v), None);
    let v = Some(GameSenseValue::Array(vec![Some(1), Some(2)]));
    assert_eq!(parse_gamesense_value(&v), None);
    let v = Some(GameSenseValue::Object {
        r: Channel::U64(7),
        g: Channel::U64(8),
        b: Channel::U64(300),
    });
    assert_eq!(parse_gamesense_value(&v), Some((7, 8, 44)));
    let v = Some(GameSenseValue::Object { r: Channel::U64(7), g: Channel::NotU64, b: Channel::U64(9) });
    assert_eq!(parse_gamesense_value(&v), None);
    let v = Some(GameSenseValue::Object { r: Channel::U64(7), g: Channel::U64(8), b: Channel::Absent });
    assert_eq!(parse_gamesense_value(&v), None);
    assert_eq!(parse_gamesense_value(&Some(GameSenseValue::Other)), None);
    assert_eq!(parse_gamesense_value(&None), None);
}

#[test]
fn game_event_requests() {
    let v = Some(GameSenseValue::Text("bored".to_string()));
    assert_eq!(
        game_event_target("MOOD", &v),
        Ok(Target { color: (0x80, 0x80, 0x80), fade_ms: 800 })
    );
    assert_eq!(
        game_event_target("emotion", &v),
        Ok(Target { color: (0x80, 0x80, 0x80), fade_ms: 800 })
    );
    assert_eq!(game_event_target("MOOD", &None), Err(GameEventError::NoColor));
}

#[test]
fn game_event_other_events_are_no_color_requests() {
    let v = Some(GameSenseValue::Text("Happy".to_string()));
    assert_eq!(game_event_target("HEALTH", &v), Err(GameEventError::NotColorEvent));
    assert_eq!(game_event_target("", &v), Err(GameEventError::NotColorEvent));
    assert_eq!(game_event_target("MOODS", &v), Err(GameEventError::NotColorEvent));
    assert_eq!(game_event_target("HEALTH", &None), Err(GameEventError::NotColorEvent));
}

#[test]
fn worker_chains_fades_from_latest_target() {
    let mut w = Worker::new();
    assert_eq!(w.current, (0, 0, 0));
    let job = w.begin(Target { color: (9, 9, 9), fade_ms: 100 });
    assert_eq!((job.from, job.to, job.fade_ms), ((0, 0, 0), (9, 9, 9), 100));
    let job = w.begin(Target { color: (1, 2, 3), fade_ms: 5 });
    assert_eq!((job.from, job.to, job.fade_ms), ((9, 9, 9), (1, 2, 3), 5));
    assert_eq!(w.current, (1, 2, 3));
}

#[test]
fn refer_always_fails() {
    assert_eq!(_refer(3u8), Err(NeverCalled));
    assert_eq!(_refer("x"), Err(NeverCalled));
    assert_eq!(_refer(()).unwrap_err().to_string(), "never called");
}
