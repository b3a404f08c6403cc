use channel_watch::config::Configuration;
use channel_watch::either::Either;
use channel_watch::helix::{streams_query, users_query, OAuth, OAuthError, Request, Stream};
use channel_watch::info::{format_viewers, uptime_seconds, StreamInfo};
use channel_watch::runtime::enter_context;

fn token() -> OAuth {
    OAuth {
        access_token: "abc".to_string(),
        refresh_token: Some("r".to_string()),
        expires_in: 60,
        token_type: "bearer".to_string(),
        client_id: String::new(),
        bearer_token: String::new(),
    }
}

#[test]
fn tokens_are_asked_for() {
    assert_eq!(
        OAuth::token_query("id", "secret"),
        Ok(vec![
            ("client_id", "id"),
            ("client_secret", "secret"),
            ("grant_type", "client_credentials"),
        ])
    );
}

#[test]
fn tokens_need_an_id_and_a_secret() {
    assert_eq!(OAuth::token_query("", "secret"), Err(OAuthError::EmptyClientId));
    assert_eq!(OAuth::token_query("", ""), Err(OAuthError::EmptyClientId));
    assert_eq!(OAuth::token_query("id", ""), Err(OAuthError::EmptyClientSecret));
    assert_eq!(OAuthError::EmptyClientId.message(), "twitch client id cannot be empty");
    assert_eq!(
        OAuthError::EmptyClientSecret.message(),
        "twitch client secret cannot be empty"
    );
}

#[test]
fn tokens_authorize_requests() {
    let oauth = token().authorized("id");
    assert_eq!(oauth.client_id, "id");
    assert_eq!(oauth.bearer_token, "Bearer abc");
    assert_eq!(oauth.access_token, "abc");
    assert_eq!(oauth.refresh_token, Some("r".to_string()));
    assert_eq!(oauth.expires_in, 60);
    assert_eq!(oauth.token_type, "bearer");
    let request = Request::new("users", &oauth);
    assert_eq!(request.url, "https://api.twitch.tv/helix/users");
    assert_eq!(request.client_id, "id");
    assert_eq!(request.authorization, "Bearer abc");
}

#[test]
fn queries_name_ids_and_logins() {
    let items = [Either::Left("12"), Either::Right("#museun"), Either::Right("x")];
    assert_eq!(users_query(&items), [("id", "12"), ("login", "museun"), ("login", "x")]);
    assert_eq!(
        streams_query(&items),
        [("user_id", "12"), ("user_login", "museun"), ("user_login", "x")]
    );
    assert!(users_query(&[]).is_empty());
    assert_eq!(users_query(&[Either::Left("#1")]), [("id", "#1")]);
}

#[test]
fn configuration_needs_both_values() {
    let some = |s: &str| Some(s.to_string());
    match Configuration::from_env(some("a"), some("b")) {
        Ok(config) => {
            assert_eq!(config.client_id, "a");
            assert_eq!(config.client_secret, "b");
        }
        Err(text) => panic!("{text}"),
    }
    assert_eq!(
        Configuration::from_env(None, None).err(),
        some("cannot find 'TWITCH_CLIENT_ID' in env")
    );
    assert_eq!(
        Configuration::from_env(None, some("b")).err(),
        some("cannot find 'TWITCH_CLIENT_ID' in env")
    );
    assert_eq!(
        Configuration::from_env(some("a"), None).err(),
        some("cannot find 'TWITCH_CLIENT_SECRET' in env")
    );
}

fn stream(started_at: &str) -> Stream {
    Stream {
        game_id: "7".to_string(),
        game_name: "Chess".to_string(),
        id: "99".to_string(),
        is_mature: true,
        language: "en".to_string(),
        started_at: started_at.to_string(),
        tag_ids: vec![],
        thumbnail_url: String::new(),
        title: "a title".to_string(),
        type_: "live".to_string(),
        user_id: "1".to_string(),
        user_login: "a".to_string(),
        user_name: "A".to_string(),
        viewer_count: 2,
    }
}

/// 2022-10-11T02:20:39Z in seconds since the beginning of 1970.
const STARTED: i64 = 1_665_454_839;

#[test]
fn what_is_said_about_a_stream() {
    let stream = stream("2022-10-11T02:20:39Z");
    let info = StreamInfo::display_info(&stream, STARTED + 3661, 5, 7200).unwrap();
    assert_eq!(info.title, "a title");
    assert_eq!(info.game, "Chess");
    assert_eq!(info.game_hint, "game id: 7");
    assert_eq!(info.started_at, "2022-10-11 04:20:39 0200");
    assert_eq!(info.started_hint, "1 hour, 1 minute and 1 second ago");
    assert_eq!(info.viewers, "2 viewers");
    assert_eq!(info.mature, "Yes");
}

#[test]
fn starts_are_shown_for_the_local_clock() {
    let stream = stream("2022-10-11T02:20:39Z");
    let shown = |offset| StreamInfo::display_info(&stream, STARTED, 0, offset).unwrap().started_at;
    assert_eq!(shown(0), "2022-10-11 02:20:39 0000");
    assert_eq!(shown(-5 * 3600), "2022-10-10 21:20:39 -0500");
    assert_eq!(shown(5 * 3600 + 1800), "2022-10-11 07:50:39 0530");
}

#[test]
fn uptime_is_the_same_at_every_offset() {
    let stream = stream("2022-10-11T02:20:39Z");
    for offset in [0, -5 * 3600, 5 * 3600 + 1800, 14 * 3600] {
        let info = StreamInfo::display_info(&stream, STARTED + 61, 0, offset).unwrap();
        assert_eq!(info.started_hint, "1 minute and 1 second ago");
    }
}

#[test]
fn starts_are_not_moved_by_way_of_utc() {
    let late = stream("9999-12-31T23:00:00 -05");
    let shown = |offset| StreamInfo::display_info(&late, STARTED, 0, offset);
    assert_eq!(shown(-5 * 3600).unwrap().started_at, "9999-12-31 23:00:00 -0500");
    assert_eq!(shown(-6 * 3600).unwrap().started_at, "9999-12-31 22:00:00 -0600");
    assert!(shown(0).is_none());
}

#[test]
fn starts_that_cannot_be_read() {
    for text in ["", "yesterday", "2022-10-11", "2022-13-11T02:20:39Z", "2022-10-11T02:20:39"] {
        assert!(StreamInfo::display_info(&stream(text), STARTED, 0, 0).is_none());
    }
    assert!(StreamInfo::display_info(&stream("2022-10-11T02:20:39Z"), STARTED, 0, i32::MAX)
        .is_none());
}

#[test]
fn lines_about_a_stream() {
    let mut stream = stream("");
    stream.is_mature = false;
    stream.viewer_count = 1;
    let info = StreamInfo::new(&stream, "then".to_string(), 0);
    assert_eq!(info.started_at, "then");
    assert_eq!(info.started_hint, " ago");
    assert_eq!(info.viewers, "1 viewer\0");
    assert_eq!(info.mature, "No");
}

#[test]
fn viewers_in_words() {
    assert_eq!(format_viewers(0), "0 viewer\0");
    assert_eq!(format_viewers(1), "1 viewer\0");
    assert_eq!(format_viewers(2), "2 viewers");
    assert_eq!(format_viewers(12345), "12345 viewers");
}

#[test]
fn uptime_drops_parts_of_seconds() {
    assert_eq!(uptime_seconds(10, 12, 0), 2);
    assert_eq!(uptime_seconds(10, 12, 999_999_999), 2);
    assert_eq!(uptime_seconds(12, 10, 0), -2);
    assert_eq!(uptime_seconds(12, 10, 500_000_000), -1);
    assert_eq!(uptime_seconds(11, 10, 500_000_000), 0);
}

#[test]
fn work_runs_in_the_context_of_the_runtime() {
    let start = || {
        tokio::runtime::Builder::new_multi_thread()
            .worker_threads(1)
            .build()
            .unwrap()
    };
    let (first, second) = (start(), start());
    assert_ne!(first.handle().id(), second.handle().id());
    for runtime in [&first, &second] {
        assert!(tokio::runtime::Handle::try_current().is_err());
        let mut calls = 0;
        let mut inside = None;
        enter_context(Some(runtime.handle()), |_guard| {
            calls += 1;
            inside = Some(tokio::runtime::Handle::current().id());
        });
        assert_eq!(calls, 1);
        assert_eq!(inside, Some(runtime.handle().id()));
        assert!(tokio::runtime::Handle::try_current().is_err());
    }
}
