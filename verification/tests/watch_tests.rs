use live_watch::cache::SharedTextCache;
use live_watch::err_tools::ErrorX;
use live_watch::get_args;
use live_watch::get_file;
use live_watch::watcher::FileWatcher;
use live_watch::LineSeparation;
use live_watch::LiveWatch;
use live_watch::RenderContent;

#[test]
fn subscription_is_made_once_and_then_ignored() {
    let mut w = FileWatcher::new(String::from("f.txt"));
    assert!(w.ensure_watching());
    assert!(!w.ensure_watching());
    assert!(!w.ensure_watching());
    assert_eq!(w.filename().as_str(), "f.txt");
}

#[test]
fn successful_reload_replaces_the_snapshot() {
    let mut w = FileWatcher::new(String::from("f.txt"));
    w.ensure_watching();
    let mut cache = SharedTextCache::new(String::from("old"));
    let refreshed = w.apply_reload(&mut cache, Ok(String::from("new")));
    assert!(refreshed);
    assert_eq!(cache.read_copy(), "new");
}

#[test]
fn failed_reload_retains_the_last_good_snapshot() {
    let mut w = FileWatcher::new(String::from("f.txt"));
    w.ensure_watching();
    let mut cache = SharedTextCache::new(String::from("last good"));
    let refreshed = w.apply_reload(&mut cache, Err(ErrorX::new_box("read failed")));
    assert!(!refreshed);
    assert_eq!(cache.read_copy(), "last good");
}

#[test]
fn rewrite_shows_up_whole_on_the_next_tick() {
    let name = String::from("f.txt");
    let initial = get_file(&name, Some(b"line1\nline2\n".to_vec())).unwrap();
    let mut lw = LiveWatch::new(name.clone(), initial);

    match lw.render_body() {
        RenderContent::Single(s) => assert_eq!(s, "line1\nline2\n"),
        _ => panic!("starting state renders one block"),
    }

    assert!(lw.watcher.ensure_watching());
    let load = get_file(&name, Some(b"line1\nline2\nline3\n".to_vec()));
    assert!(lw.watcher.apply_reload(&mut lw.file, load));

    match lw.render_body() {
        RenderContent::Single(s) => assert_eq!(s, "line1\nline2\nline3\n"),
        _ => panic!("next tick renders one block"),
    }
}

#[test]
fn viewer_starts_with_default_options() {
    let lw = LiveWatch::new(String::from("f.txt"), String::from("text"));
    assert!(lw.word_wrap);
    assert!(!lw.selectable_text_mode);
    assert!(lw.line_separation == LineSeparation::Off);
    assert_eq!(lw.font_size, 30);
    assert_eq!(lw.risky_get_fstring(), "text");
}

#[test]
fn separation_button_toggles_and_leaves_editable_mode() {
    let mut lw = LiveWatch::new(String::from("f.txt"), String::from("text"));
    lw.toggle_selectable();
    assert!(lw.selectable_text_mode);
    lw.toggle_separation(LineSeparation::AlphaNumeric);
    assert!(!lw.selectable_text_mode);
    assert!(lw.line_separation == LineSeparation::AlphaNumeric);
    lw.toggle_separation(LineSeparation::All);
    assert!(lw.line_separation == LineSeparation::All);
    lw.toggle_separation(LineSeparation::All);
    assert!(lw.line_separation == LineSeparation::Off);
}

#[test]
fn entering_editable_mode_turns_separation_off() {
    let mut lw = LiveWatch::new(String::from("f.txt"), String::from("a\nb\n"));
    lw.toggle_separation(LineSeparation::All);
    match lw.render_body() {
        RenderContent::Separated(segs) => assert_eq!(segs, vec!["a\n", "b\n"]),
        _ => panic!("separation renders segments"),
    }
    lw.toggle_selectable();
    assert!(lw.selectable_text_mode);
    assert!(lw.line_separation == LineSeparation::Off);
    match lw.render_body() {
        RenderContent::Editable(s) => assert_eq!(s, "a\nb\n"),
        _ => panic!("editable mode renders an editable field"),
    }
}

#[test]
fn word_wrap_and_font_size_are_render_side_state() {
    let mut lw = LiveWatch::new(String::from("f.txt"), String::from("text"));
    lw.toggle_word_wrap();
    assert!(!lw.word_wrap);
    lw.set_font_size(44);
    assert_eq!(lw.font_size, 44);
    assert_eq!(lw.risky_get_fstring(), "text");
}

#[test]
fn too_few_arguments_are_refused() {
    let args = vec![String::from("live_watch")];
    let err = get_args(args).unwrap_err();
    assert_eq!(err.description(), "You need to give 2 arguments if you want to pass a file!");
}

#[test]
fn enough_arguments_pass_through() {
    let args = vec![String::from("live_watch"), String::from("f.txt")];
    let got = get_args(args.clone()).unwrap();
    assert_eq!(got, args);
}

#[test]
fn error_carries_its_message() {
    let e = ErrorX::new("boom");
    assert_eq!(e.description(), "boom");
    let b = ErrorX::new_box("boxed boom");
    assert_eq!(b.description(), "boxed boom");
}
