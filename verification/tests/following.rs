use channel_watch::app::App;
use channel_watch::either::Either;
use channel_watch::helix::{Stream, User};
use channel_watch::images::{preview_url, ImageKind, ImageLoader, Images};
use channel_watch::input::{Events, Input, ListAction, Outcome, Validity};
use channel_watch::roster::{hovered_preview, Entry, Roster};
use channel_watch::state::{State, Users};
use channel_watch::status::{status_of_streams, Status, StatusChecker, StatusMap};

fn user(id: &str, login: &str) -> User {
    User {
        login: login.to_string(),
        display_name: login.to_uppercase(),
        id: id.to_string(),
        created_at: String::new(),
        description: String::new(),
        profile_image_url: format!("https://pictures/{id}.png"),
    }
}

fn stream(login: &str) -> Stream {
    Stream {
        game_id: "7".to_string(),
        game_name: "Chess".to_string(),
        id: "99".to_string(),
        is_mature: false,
        language: "en".to_string(),
        started_at: "2022-10-11T02:20:39Z".to_string(),
        tag_ids: vec![],
        thumbnail_url: "template".to_string(),
        title: "title".to_string(),
        type_: "live".to_string(),
        user_id: "1".to_string(),
        user_login: login.to_string(),
        user_name: login.to_string(),
        viewer_count: 3,
    }
}

fn state(users: Vec<User>) -> State {
    State::load(Some(Users { list: users }))
}

fn logins(state: &State) -> Vec<String> {
    state.logins()
}

fn quiet() -> Events {
    Events { result: None, changed: false, submitted: false }
}

#[test]
fn append_replaces_the_same_id() {
    let mut users = Users::default();
    users.append(user("1", "a"));
    users.append(user("2", "b"));
    users.append(user("1", "c"));
    assert_eq!(users.list.len(), 2);
    assert_eq!(users.list[0].login, "c");
    assert_eq!(users.list[1].login, "b");
    users.append(user("1", "c"));
    assert_eq!(users.list.len(), 2);
}

#[test]
fn append_replaces_only_the_first() {
    let mut users = Users { list: vec![user("1", "a"), user("1", "b")] };
    users.append(user("1", "c"));
    assert_eq!(users.list[0].login, "c");
    assert_eq!(users.list[1].login, "b");
}

#[test]
fn load_makes_everyone_offline() {
    let state = state(vec![user("1", "a"), user("2", "b")]);
    assert_eq!(logins(&state), ["a", "b"]);
    assert_eq!(*state.status.get("a"), Status::Offline);
    assert_eq!(*state.status.get("b"), Status::Offline);
    assert!(!state.is_shown("a"));
    assert!(!state.is_shown("b"));
    assert_eq!(state.status.map.len(), 2);
    assert_eq!(state.following().list.len(), 2);
}

#[test]
fn load_defaults_without_users() {
    let state = State::load(None);
    assert!(logins(&state).is_empty());
    assert!(state.status.map.is_empty());
    assert!(state.shown.is_empty());
    let state = State::default();
    assert!(logins(&state).is_empty());
}

#[test]
fn remove_takes_status_and_pictures() {
    let mut state = state(vec![user("1", "a"), user("2", "b")]);
    let mut images = Images::<u32>::default();
    images.add_static("https://pictures/1.png".to_string(), 1);
    images.add_static("https://pictures/2.png".to_string(), 2);
    images.add_preview(preview_url("a"), 3, 0);
    images.add_preview(preview_url("b"), 4, 0);
    state.remove(0, &mut images);
    assert_eq!(logins(&state), ["b"]);
    assert!(!state.status.map.contains_key("a"));
    assert!(state.status.map.contains_key("b"));
    assert!(state.shown.contains_key("a"));
    assert_eq!(images.get_static("https://pictures/1.png").0, None);
    assert_eq!(images.get_static("https://pictures/2.png").0, Some(&2));
    assert_eq!(images.get_preview(&preview_url("a"), 0).0, None);
    assert_eq!(images.get_preview(&preview_url("b"), 0).0, Some(&4));
}

#[test]
fn remove_past_the_end_does_nothing() {
    let mut state = state(vec![user("1", "a")]);
    let mut images = Images::<u32>::default();
    images.add_static("https://pictures/1.png".to_string(), 1);
    state.remove(1, &mut images);
    state.remove(usize::MAX, &mut images);
    assert_eq!(logins(&state), ["a"]);
    assert!(state.status.map.contains_key("a"));
    assert_eq!(images.get_static("https://pictures/1.png").0, Some(&1));
}

#[test]
fn remove_undoes_add() {
    let mut state = state(vec![user("1", "a")]);
    let mut images = Images::<u32>::default();
    state.add(user("2", "b"));
    assert_eq!(logins(&state), ["a", "b"]);
    assert_eq!(*state.status.get("b"), Status::Offline);
    state.remove(1, &mut images);
    assert_eq!(logins(&state), ["a"]);
    assert!(!state.status.map.contains_key("b"));
}

#[test]
fn details_are_shown_and_hidden() {
    let mut state = state(vec![user("1", "a"), user("2", "b")]);
    state.set_shown("b".to_string(), true);
    assert!(!state.is_shown("a"));
    assert!(state.is_shown("b"));
    state.set_shown("b".to_string(), false);
    assert!(!state.is_shown("b"));
}

#[test]
fn status_comes_from_the_first_stream() {
    assert_eq!(status_of_streams(None), Status::Offline);
    assert_eq!(status_of_streams(Some(vec![])), Status::Offline);
    let expected = Stream { thumbnail_url: preview_url("a"), ..stream("a") };
    assert_eq!(
        status_of_streams(Some(vec![stream("a"), stream("b")])),
        Status::Online(Box::new(expected))
    );
    assert_eq!(
        preview_url("a"),
        "https://static-cdn.jtvnw.net/previews-ttv/live_user_a-250x141.jpg"
    );
}

#[test]
fn live_comes_before_offline() {
    let live = Status::Online(Box::new(stream("a")));
    let other = Status::Online(Box::new(stream("b")));
    assert!(live < Status::Offline);
    assert!(Status::Offline > live);
    assert_eq!(live.partial_cmp(&other), Some(std::cmp::Ordering::Equal));
    assert_eq!(
        Status::Offline.partial_cmp(&Status::Offline),
        Some(std::cmp::Ordering::Equal)
    );
    assert!(live != other);
    assert_eq!(Status::default(), Status::Offline);
}

#[test]
fn channels_are_watched_once() {
    let mut checker = StatusChecker::new();
    assert!(checker.watch("a".to_string()));
    assert!(!checker.watch("a".to_string()));
    assert!(checker.watch("b".to_string()));
    assert!(!checker.watch("a".to_string()));
    assert_eq!(StatusChecker::DELAY, 30);
}

#[test]
fn last_news_counts() {
    let mut map = StatusMap::default();
    map.insert("c".to_string(), Status::Offline);
    let news = vec![
        ("a".to_string(), status_of_streams(Some(vec![stream("a")]))),
        ("b".to_string(), Status::Offline),
        ("a".to_string(), Status::Offline),
        ("b".to_string(), status_of_streams(Some(vec![stream("b")]))),
    ];
    StatusChecker::poll(news, &mut map);
    assert!(!map.get("a").is_online());
    assert!(map.get("b").is_online());
    assert!(!map.get("c").is_online());
}

#[test]
fn live_channels_are_shown_first() {
    let mut state = state(vec![user("1", "a"), user("2", "b"), user("3", "c"), user("4", "d")]);
    let roster = Roster::new(&state);
    assert!(roster.online.is_empty());
    assert_eq!(roster.offline, [0, 1, 2, 3]);
    assert!(roster.has_separator());
    let news = ["b", "d"]
        .into_iter()
        .map(|l| (l.to_string(), status_of_streams(Some(vec![stream(l)]))))
        .collect();
    StatusChecker::poll(news, &mut state.status);
    let roster = Roster::new(&state);
    assert_eq!(roster.online, [1, 3]);
    assert_eq!(roster.offline, [0, 2]);
    state.status.remove("a");
    state.status.insert("a".to_string(), status_of_streams(Some(vec![stream("a")])));
    state.status.insert("c".to_string(), status_of_streams(Some(vec![stream("c")])));
    assert!(!Roster::new(&state).has_separator());
}

fn typed(text: &str) -> Input {
    Input { buffer: text.to_string(), ..Input::default() }
}

#[test]
fn sending_off_only_empties_the_line() {
    for pending in [false, true] {
        let mut input = Input { validity: Validity::Valid, pending, ..typed("#Museun") };
        assert_eq!(input.try_add_channel(), "#Museun");
        assert_eq!(input.buffer, "");
        assert_eq!(input.validity, Validity::Valid);
        assert_eq!(input.pending, pending);
    }
}

#[test]
fn validity_of_names() {
    let state = state(vec![user("1", "Museun"), user("2", "other"), user("3", "OTHER")]);
    assert_eq!(typed("").check_validity(&state), Validity::Empty);
    assert_eq!(typed("a b").check_validity(&state), Validity::ContainsSpaces);
    assert_eq!(typed(" ").check_validity(&state), Validity::ContainsSpaces);
    assert_eq!(typed("museun ").check_validity(&state), Validity::ContainsSpaces);
    assert_eq!(typed("museun").check_validity(&state), Validity::Duplicate(0));
    assert_eq!(typed("#OtHeR").check_validity(&state), Validity::Duplicate(1));
    assert_eq!(typed("someone").check_validity(&state), Validity::Valid);
}

#[test]
fn hints_and_colors() {
    assert_eq!(Validity::Empty.hint(), None);
    assert_eq!(Validity::Valid.hint(), None);
    assert_eq!(Validity::Duplicate(1).hint(), None);
    assert_eq!(Validity::ContainsSpaces.hint(), Some("The input cannot contain spaces"));
    assert_eq!(Validity::Unknown.hint(), Some("Unknown Twitch channel"));
    assert!(Validity::Empty.is_ordinary());
    assert!(Validity::Valid.is_ordinary());
    assert!(!Validity::Duplicate(1).is_ordinary());
    assert!(!Validity::ContainsSpaces.is_ordinary());
    assert!(!Validity::Unknown.is_ordinary());
    assert_eq!(Validity::default(), Validity::Empty);
}

fn frame(input: &mut Input, events: Events, state: &mut State) -> (Outcome, ListAction) {
    let mut action = ListAction::default();
    let outcome = input.display(events, &mut action, state);
    (outcome, action)
}

#[test]
fn a_channel_is_added() {
    let mut state = state(vec![user("1", "a")]);
    let mut input = typed("#B");
    let (out, action) = frame(&mut input, Events { changed: true, ..quiet() }, &mut state);
    assert_eq!(input.validity, Validity::Valid);
    assert_eq!(out.lookup, None);
    assert_eq!(action, ListAction::Nothing);

    let (out, action) = frame(&mut input, Events { submitted: true, ..quiet() }, &mut state);
    let name = out.lookup.unwrap();
    assert_eq!(name, "#B");
    assert_eq!(input.buffer, "");
    assert!(input.pending);
    assert_eq!(action, ListAction::ScrollToBottom);

    let (out, action) = frame(&mut input, quiet(), &mut state);
    assert!(input.pending);
    assert_eq!(out.watch, None);
    assert_eq!(action, ListAction::Nothing);

    let result = Input::lookup_result(name, Some(vec![user("2", "b"), user("3", "c")]));
    let (out, action) = frame(&mut input, Events { result: Some(result), ..quiet() }, &mut state);
    assert_eq!(out.watch, Some("b".to_string()));
    assert_eq!(action, ListAction::ScrollToBottom);
    assert!(!input.pending);
    assert_eq!(logins(&state), ["a", "b"]);
    assert!(!state.is_shown("b"));

    input.buffer = "B".to_string();
    let (out, action) = frame(
        &mut input,
        Events { changed: true, submitted: true, ..quiet() },
        &mut state,
    );
    assert_eq!(input.validity, Validity::Duplicate(1));
    assert_eq!(action, ListAction::Highlight(1));
    assert_eq!(out.lookup, None);
    assert_eq!(out.hint, None);
    assert_eq!(input.buffer, "B");
}

#[test]
fn a_refused_name_comes_back() {
    for reply in [None, Some(vec![])] {
        let mut state = State::default();
        let mut input = typed("nobody");
        frame(&mut input, Events { changed: true, ..quiet() }, &mut state);
        let (out, _) = frame(&mut input, Events { submitted: true, ..quiet() }, &mut state);
        input.buffer = "typed since".to_string();
        let result = Input::lookup_result(out.lookup.unwrap(), reply);
        let (out, action) =
            frame(&mut input, Events { result: Some(result), ..quiet() }, &mut state);
        assert_eq!(input.buffer, "nobody");
        assert_eq!(input.validity, Validity::Unknown);
        assert!(!input.pending);
        assert_eq!(out.hint, Some("Unknown Twitch channel"));
        assert_eq!(action, ListAction::Nothing);
        assert!(logins(&state).is_empty());
    }
}

#[test]
fn an_answer_nobody_waits_for_is_dropped() {
    let mut state = State::default();
    let mut input = typed("x");
    let result = Some(Either::Left(user("1", "a")));
    let (out, action) = frame(&mut input, Events { result, ..quiet() }, &mut state);
    assert_eq!(out.watch, None);
    assert_eq!(action, ListAction::Nothing);
    assert!(logins(&state).is_empty());
}

#[test]
fn spaces_are_pointed_out() {
    let mut state = State::default();
    let mut input = typed("a b");
    let (out, _) = frame(
        &mut input,
        Events { changed: true, submitted: true, ..quiet() },
        &mut state,
    );
    assert_eq!(out.hint, Some("The input cannot contain spaces"));
    assert_eq!(out.lookup, None);
    assert_eq!(input.buffer, "a b");
}

#[test]
fn the_list_sticks_to_its_end() {
    assert!(ListAction::Nothing.sticks_to_bottom());
    assert!(ListAction::ScrollToBottom.sticks_to_bottom());
    assert!(!ListAction::Highlight(0).sticks_to_bottom());
}

#[test]
fn entries() {
    let someone = user("12", "museun");
    let mut images = Images::<u32>::default();
    let entry = Entry { index: 3, user: &someone, action: ListAction::Highlight(3) };
    assert!(entry.is_highlighted());
    let shown = entry.display_picture_name(&images, true);
    assert!(shown.highlighted);
    assert_eq!(shown.image, None);
    let url = "https://pictures/12.png".to_string();
    assert_eq!(shown.request, Some((url.clone(), ImageKind::Static)));
    assert_eq!(shown.hint, Some("user id: 12".to_string()));
    let clicked = entry.handle_double_click(true);
    assert_eq!(clicked.open_url, Some("https://twitch.tv/museun".to_string()));
    assert_eq!(clicked.hint, Some("This channel has already been added"));

    images.add_static(url, 5);
    let entry = Entry { index: 3, user: &someone, action: ListAction::Highlight(4) };
    assert!(!entry.is_highlighted());
    let shown = entry.display_picture_name(&images, false);
    assert!(!shown.highlighted);
    assert_eq!(shown.image, Some(&5));
    assert_eq!(shown.request, None);
    assert_eq!(shown.hint, None);
    let clicked = entry.handle_double_click(false);
    assert_eq!(clicked.open_url, None);
    assert_eq!(clicked.hint, None);

    let mut to_remove = None;
    entry.handle_remove(false, &mut to_remove);
    assert_eq!(to_remove, None);
    entry.handle_remove(true, &mut to_remove);
    assert_eq!(to_remove, Some(3));
    entry.handle_remove(false, &mut to_remove);
    assert_eq!(to_remove, Some(3));
}

#[test]
fn previews_show_while_shift_is_held() {
    let mut images = Images::<u32>::default();
    let url = preview_url("a");
    let arrivals = vec![(url.clone(), ImageKind::Preview, 8, 100)];
    ImageLoader::poll(arrivals, &mut images);
    assert_eq!(hovered_preview(&images, &url, false, 100), (None, None));
    assert_eq!(hovered_preview(&images, &url, true, 100), (Some(&8), None));
}

#[test]
fn frames_of_the_program() {
    let (mut app, logins) = App::<u32>::new(state(vec![user("1", "a"), user("2", "b")]));
    assert_eq!(logins, ["a", "b"]);
    assert_eq!(app.input.buffer, "");

    let picture = "https://pictures/2.png".to_string();
    app.poll(
        vec![(picture.clone(), ImageKind::Static, 4, 0)],
        vec![("b".to_string(), status_of_streams(Some(vec![stream("b")])))],
    );
    assert_eq!(app.images.get_static(&picture).0, Some(&4));
    assert_eq!(app.roster().online, [1]);
    assert_eq!(app.roster().offline, [0]);

    app.input.buffer = "A".to_string();
    let (out, action) = app.begin_frame(Events { changed: true, ..quiet() });
    assert_eq!(action, ListAction::Highlight(0));
    assert_eq!(out.lookup, None);
    app.end_frame(None);
    app.end_frame(Some(7));
    assert_eq!(app.state.logins(), ["a", "b"]);

    app.end_frame(Some(1));
    assert_eq!(app.state.logins(), ["a"]);
    assert_eq!(app.images.get_static(&picture).0, None);
    assert!(app.roster().online.is_empty());

    app.input.buffer = "b".to_string();
    let (_, action) = app.begin_frame(Events { changed: true, ..quiet() });
    assert_eq!(action, ListAction::Nothing);
    assert_eq!(app.input.validity, Validity::Valid);
}

#[test]
fn removing_one_of_two_equal_logins_forgets_the_status_of_both() {
    let mut state = state(vec![user("1", "a"), user("2", "a")]);
    let mut images = Images::<u32>::default();
    state.remove(0, &mut images);
    assert_eq!(logins(&state), ["a"]);
    assert!(!state.status.map.contains_key("a"));
}
