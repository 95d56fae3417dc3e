use fetcher::music::MusicUnit;

#[test]
fn check_format() {
    let sample_response = r#"{
                                "title": "Some song title",
                                "videoId": "WNgO6G7uERU",
                                "author": "CHHEWANG",
                                "lengthSeconds": 271
                            }"#;
    let parsed: serde_json::Value = serde_json::from_str(sample_response).unwrap();
    let obj = MusicUnit::from_fields(
        parsed.get("title").unwrap().as_str().unwrap(),
        parsed.get("videoId").unwrap().as_str().unwrap(),
        parsed.get("author").unwrap().as_str().unwrap(),
        parsed.get("lengthSeconds").unwrap().as_u64().unwrap(),
    );
    assert_eq!(
        obj,
        MusicUnit {
            liked: false,
            artist: "CHHEWANG".to_string(),
            name: "Some song title".to_string(),
            duration: "4:31".to_string(),
            path: "https://www.youtube.com/watch?v=WNgO6G7uERU".to_string(),
        },
    );
}

#[test]
fn from_fields_builds_watch_url_and_duration() {
    let obj = MusicUnit::from_fields("a song", "abc123", "someone", 61);
    assert_eq!(obj.path, "https://www.youtube.com/watch?v=abc123");
    assert_eq!(obj.duration, "1:1");
    assert_eq!(obj.name, "a song");
    assert_eq!(obj.artist, "someone");
    assert!(!obj.liked);
}

#[test]
fn duplicate_copies_every_field() {
    let obj = MusicUnit::from_fields("t", "v", "a", 5);
    let copy = obj.duplicate();
    assert_eq!(copy, obj);
}
