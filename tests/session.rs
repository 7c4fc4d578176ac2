use bilitui::api::{
    decode_failure, search_url, strip_em_tags, video_info_url, video_page_url, videos_only,
    Owner, Stat, VideoInfo, VideoResult,
};
use bilitui::app::{next_index, prev_index, Action, App, Focusable, InputMode, Key};
use bilitui::command::{execute, parse, Command};
use bilitui::fetch::{FetchCoordinator, PendingFetch};
use bilitui::text::split_words;
use bilitui::weburl::{bvid_in_url, extract_bvid};

fn item(kind: &str, bvid: &str) -> VideoResult {
    VideoResult {
        kind: kind.to_string(),
        author: "someone".to_string(),
        bvid: bvid.to_string(),
        title: format!("title of {bvid}"),
        description: String::new(),
        play: "42".to_string(),
        like: 1,
        video_review: 2,
        duration: "3:14".to_string(),
    }
}

fn info(bvid: &str) -> VideoInfo {
    VideoInfo {
        bvid: bvid.to_string(),
        title: "A title".to_string(),
        desc: "A description".to_string(),
        owner: Owner { name: "owner".to_string() },
        stat: Stat { view: 10, like: 2, coin: 3, favorite: 4, share: 5 },
    }
}

fn type_text(app: &mut App, keys: &str) {
    for c in keys.chars() {
        let a = app.handle_key(Key::Char(c));
        if a == Action::EditCommand {
            let mut t = app.command_text.clone();
            t.push(c);
            app.set_command_text(t);
        } else if a == Action::EditSearch {
            let mut t = app.search_text.clone();
            t.push(c);
            app.set_search_text(t);
        }
    }
}

fn command_mode(app: &mut App) {
    app.handle_key(Key::Char('j'));
    app.handle_key(Key::Char('j'));
    assert_eq!(app.focused_panel, Focusable::Command);
    app.handle_key(Key::Char(':'));
    assert_eq!(app.mode, InputMode::Command);
    assert_eq!(app.command_text, ":");
}

fn search_with(app: &mut App, query: &str) -> u64 {
    app.handle_key(Key::Enter);
    assert_eq!(app.mode, InputMode::Editing);
    type_text(app, query);
    match app.handle_key(Key::Enter) {
        Action::StartSearch(q, t) => {
            assert_eq!(q, query);
            t
        }
        other => panic!("expected a search, got {other:?}"),
    }
}

#[test]
fn parse_video_command() {
    assert_eq!(
        parse(":video https://www.bilibili.com/video/BV1xx411c7mD"),
        Ok(Command::PlayUrl("https://www.bilibili.com/video/BV1xx411c7mD".to_string()))
    );
    assert_eq!(parse(":video   u  "), Ok(Command::PlayUrl("u".to_string())));
}

#[test]
fn parse_requires_colon() {
    assert_eq!(parse("video x"), Err("Commands must start with ':'".to_string()));
    assert_eq!(parse(""), Err("Commands must start with ':'".to_string()));
    assert_eq!(parse("q"), Err("Commands must start with ':'".to_string()));
    assert_eq!(parse(" :q"), Err("Commands must start with ':'".to_string()));
    assert_eq!(parse("\t:video u"), Err("Commands must start with ':'".to_string()));
}

#[test]
fn parse_other_errors() {
    assert_eq!(parse(":"), Err("No command entered".to_string()));
    assert_eq!(parse(":video"), Err("Usage: :video <url>".to_string()));
    assert_eq!(parse(":video a b"), Err("Usage: :video <url>".to_string()));
    assert_eq!(
        parse(":video-info"),
        Err("Usage: :video-info <url_or_bvid>".to_string())
    );
    assert_eq!(parse(":bogus"), Err("Unknown command: bogus".to_string()));
}

#[test]
fn parse_info_and_quit() {
    assert_eq!(parse(":video-info BV1"), Ok(Command::ShowVideoInfo("BV1".to_string())));
    assert_eq!(parse(":q"), Ok(Command::Quit));
    assert_eq!(parse(":q "), Ok(Command::Quit));
    assert_eq!(parse(":q now"), Err("Usage: :q".to_string()));
}

#[test]
fn words_split_on_unicode_whitespace() {
    assert_eq!(split_words(" a\u{3000}bc \n d "), vec!["a", "bc", "d"]);
    assert!(split_words("   ").is_empty());
}

#[test]
fn selection_cycles() {
    let n = 4usize;
    for s in 0..n {
        let mut sel = Some(s);
        for _ in 0..n {
            sel = next_index(sel, n);
        }
        assert_eq!(sel, Some(s));
    }
    assert_eq!(prev_index(Some(0), n), Some(3));
    assert_eq!(next_index(Some(3), n), Some(0));
    assert_eq!(next_index(None, n), Some(0));
    assert_eq!(next_index(None, 0), None);
    assert_eq!(prev_index(None, 0), None);
}

#[test]
fn focus_cycle() {
    assert_eq!(Focusable::Search.next(), Focusable::Results);
    assert_eq!(Focusable::Results.next(), Focusable::Command);
    assert_eq!(Focusable::Command.next(), Focusable::Search);
    assert_eq!(Focusable::Unfocused.next(), Focusable::Search);
    assert_eq!(Focusable::Search.prev(), Focusable::Command);
    assert_eq!(Focusable::Unfocused.prev(), Focusable::Command);
}

#[test]
fn unlisted_keys_do_nothing() {
    let mut app = App::new();
    for mode in [InputMode::Normal, InputMode::Detail, InputMode::ListNav, InputMode::Help] {
        app.mode = mode;
        for key in [Key::Char('x'), Key::Other] {
            let before = app.clone();
            assert_eq!(app.handle_key(key), Action::Nothing);
            assert_eq!(app, before);
        }
    }
    app.mode = InputMode::Normal;
    app.focused_panel = Focusable::Unfocused;
    let before = app.clone();
    assert_eq!(app.handle_key(Key::Enter), Action::Nothing);
    assert_eq!(app.handle_key(Key::Char(':')), Action::Nothing);
    assert_eq!(app, before);
}

#[test]
fn id_resolution() {
    assert_eq!(extract_bvid("BV1xx411c7mD"), Some("BV1xx411c7mD".to_string()));
    assert_eq!(
        extract_bvid("https://www.bilibili.com/video/BV1xx411c7mD"),
        Some("BV1xx411c7mD".to_string())
    );
    assert_eq!(extract_bvid("https://example.com/x"), None);
    assert_eq!(extract_bvid("https://example.com/video/BV1xx411c7mD"), None);
    assert_eq!(extract_bvid("not a url"), None);
    assert_eq!(extract_bvid("https://evilbilibili.com/video/BV1xx411c7mD"), None);
    assert_eq!(
        extract_bvid("https://bilibili.com/video/BV1xx411c7mD"),
        Some("BV1xx411c7mD".to_string())
    );
}

#[test]
fn id_in_url_parts() {
    let segs = vec!["video".to_string(), "BV9".to_string()];
    assert_eq!(bvid_in_url(Some("m.bilibili.com"), Some(&segs)), Some("BV9".to_string()));
    assert_eq!(bvid_in_url(Some("bilibili.org"), Some(&segs)), None);
    assert_eq!(bvid_in_url(Some("evilbilibili.com"), Some(&segs)), None);
    assert_eq!(bvid_in_url(Some("bilibili.com"), Some(&segs)), Some("BV9".to_string()));
    assert_eq!(bvid_in_url(None, Some(&segs)), None);
    assert_eq!(bvid_in_url(Some("bilibili.com"), None), None);
}

#[test]
fn search_results_open_the_list() {
    let mut app = App::new();
    app.last_error = Some("old".to_string());
    let t = search_with(&mut app, "rust");
    assert_eq!(app.mode, InputMode::Normal);
    let results = vec![item("video", "BV1"), item("video", "BV2"), item("video", "BV3")];
    app.apply_search(t, Ok(results.clone()));
    assert_eq!(app.mode, InputMode::ListNav);
    assert_eq!(app.focused_panel, Focusable::Results);
    assert_eq!(app.selected, Some(0));
    assert_eq!(app.last_error, None);
    assert_eq!(app.search_results, results);
}

#[test]
fn decode_failure_sets_banner() {
    let mut app = App::new();
    let t = search_with(&mut app, "rust");
    let before = app.clone();
    let msg = decode_failure("expected value at line 1 column 2", "{bad json");
    app.apply_search(t, Err(msg));
    let banner = app.last_error.clone().unwrap();
    assert!(banner.contains("error decoding response body"));
    assert!(banner.contains("{bad json"));
    assert_eq!(app.mode, before.mode);
    assert_eq!(app.search_results, before.search_results);
}

#[test]
fn stale_search_is_ignored() {
    let mut app = App::new();
    let first = search_with(&mut app, "a");
    app.mode = InputMode::Normal;
    app.focused_panel = Focusable::Search;
    app.set_search_text(String::new());
    let second = search_with(&mut app, "b");
    assert_ne!(first, second);
    let before = app.clone();
    app.apply_search(first, Ok(vec![item("video", "BV1")]));
    assert_eq!(app, before);
    app.apply_search(second, Ok(vec![]));
    assert_eq!(app.mode, InputMode::ListNav);
    assert_eq!(app.selected, None);
}

#[test]
fn quit_command_changes_nothing() {
    let mut app = App::new();
    command_mode(&mut app);
    type_text(&mut app, "q");
    assert_eq!(app.command_text, ":q");
    let before = app.clone();
    assert_eq!(app.handle_key(Key::Enter), Action::Quit);
    assert_eq!(app, before);
}

#[test]
fn unknown_command_sets_banner() {
    let mut app = App::new();
    command_mode(&mut app);
    type_text(&mut app, "bogus");
    assert_eq!(app.handle_key(Key::Enter), Action::Nothing);
    assert_eq!(app.mode, InputMode::Normal);
    assert_eq!(app.command_text, "");
    assert_eq!(app.last_error, Some("Unknown command: bogus".to_string()));
}

#[test]
fn video_info_command_fetches_then_shows_detail() {
    let mut app = App::new();
    command_mode(&mut app);
    type_text(&mut app, "video-info https://www.bilibili.com/video/BV7");
    let t = match app.handle_key(Key::Enter) {
        Action::FetchInfo(id, t) => {
            assert_eq!(id, "BV7");
            t
        }
        other => panic!("expected a fetch, got {other:?}"),
    };
    app.apply_info(t, Ok(info("BV7")));
    assert_eq!(app.mode, InputMode::Detail);
    assert_eq!(app.play_video(), Some("https://www.bilibili.com/video/BV7".to_string()));
    assert_eq!(app.handle_key(Key::Char('p')), Action::Launch("https://www.bilibili.com/video/BV7".to_string()));
    app.handle_key(Key::Esc);
    assert_eq!(app.mode, InputMode::ListNav);
}

#[test]
fn invalid_id_is_reported() {
    let mut app = App::new();
    let a = execute(Command::ShowVideoInfo("https://example.com/x".to_string()), &mut app);
    assert_eq!(a, Action::Nothing);
    assert_eq!(app.last_error, Some("Invalid Bilibili URL or BVID".to_string()));
    assert_eq!(app.fetch.pending, PendingFetch::NoFetch);
}

#[test]
fn play_command_and_launch_report() {
    let mut app = App::new();
    let a = execute(Command::PlayUrl("https://v/1".to_string()), &mut app);
    assert_eq!(a, Action::Launch("https://v/1".to_string()));
    app.finish_launch("https://v/1", Ok(()));
    assert_eq!(app.last_error, Some("Playing: https://v/1".to_string()));
    app.finish_launch("https://v/1", Err("not found".to_string()));
    assert_eq!(app.last_error, Some("Failed to play video: not found".to_string()));
}

#[test]
fn list_navigation_and_detail() {
    let mut app = App::new();
    let t = search_with(&mut app, "x");
    app.apply_search(t, Ok(vec![item("video", "BV1"), item("video", "BV2")]));
    app.handle_key(Key::Char('k'));
    assert_eq!(app.selected, Some(1));
    app.handle_key(Key::Char('j'));
    assert_eq!(app.selected, Some(0));
    app.handle_key(Key::Enter);
    assert_eq!(app.mode, InputMode::Detail);
    assert_eq!(app.play_video(), Some("https://www.bilibili.com/video/BV1".to_string()));
    app.handle_key(Key::Char('q'));
    assert_eq!(app.mode, InputMode::ListNav);
    app.handle_key(Key::Esc);
    assert_eq!(app.mode, InputMode::Normal);
    assert_eq!(app.selected, None);
    assert_eq!(app.focused_panel, Focusable::Unfocused);
    assert_eq!(app.handle_key(Key::Char('q')), Action::Quit);
}

#[test]
fn editing_dismiss_clears_focus() {
    let mut app = App::new();
    app.handle_key(Key::Enter);
    type_text(&mut app, "q");
    assert_eq!(app.search_text, "q");
    app.handle_key(Key::Esc);
    assert_eq!(app.mode, InputMode::Normal);
    assert_eq!(app.focused_panel, Focusable::Unfocused);
}

#[test]
fn fetch_tickets_supersede() {
    let mut f = FetchCoordinator::new();
    let a = f.submit_search();
    let b = f.submit_info();
    assert!(!f.accept_search(a));
    assert!(!f.accept_info(a));
    assert!(f.accept_info(b));
    assert_eq!(f.pending, PendingFetch::NoFetch);
    assert!(!f.accept_info(b));
}

#[test]
fn response_helpers() {
    assert_eq!(
        strip_em_tags("<em class=\"keyword\">Rust</em> in <em class=\"keyword\">10</em> min"),
        "Rust in 10 min"
    );
    assert_eq!(strip_em_tags("plain"), "plain");
    assert_eq!(
        search_url("rust"),
        "https://api.bilibili.com/x/web-interface/search/type?search_type=video&keyword=rust"
    );
    assert_eq!(video_info_url("BV1"), "https://api.bilibili.com/x/web-interface/view?bvid=BV1");
    assert_eq!(video_page_url("BV1"), "https://www.bilibili.com/video/BV1");
    assert_eq!(decode_failure("e", "b"), "error decoding response body: e. Raw response: b");
    let kept = videos_only(vec![item("video", "BV1"), item("ketang", "BV2"), item("video", "BV3")]);
    assert_eq!(kept.iter().map(|v| v.bvid.as_str()).collect::<Vec<_>>(), vec!["BV1", "BV3"]);
}

#[test]
fn list_enter_opens_fetched_details() {
    let mut app = App::new();
    let t = search_with(&mut app, "nothing");
    app.apply_search(t, Ok(vec![]));
    assert_eq!(app.selected, None);
    app.handle_key(Key::Esc);
    app.handle_key(Key::Char('k'));
    assert_eq!(app.focused_panel, Focusable::Command);
    app.handle_key(Key::Char(':'));
    type_text(&mut app, "video-info BV5");
    let t = match app.handle_key(Key::Enter) {
        Action::FetchInfo(_, t) => t,
        other => panic!("expected a fetch, got {other:?}"),
    };
    app.apply_info(t, Ok(info("BV5")));
    app.handle_key(Key::Esc);
    assert_eq!(app.mode, InputMode::ListNav);
    let before = app.clone();
    app.handle_key(Key::Enter);
    assert_eq!(app.mode, InputMode::Detail);
    assert_eq!(app.video_info, before.video_info);
    assert_eq!(app.play_video(), Some("https://www.bilibili.com/video/BV5".to_string()));
}
