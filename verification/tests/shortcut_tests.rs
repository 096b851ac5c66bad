use steamicon::shortcut::{
    application_id, icon_reference, Icon, ReadError, Shortcut, APPLICATION_ID_PATTERN,
    ICON_PATTERN, ICON_URL_BASE, PLACEHOLDER_APPID, PLACEHOLDER_NAME,
};

/// What Steam writes for Warframe.
const WARFRAME: &str = "[{000214A0-0000-0000-C000-000000000046}]\r\n\
Prop3=19,0\r\n\
[InternetShortcut]\r\n\
IDList=\r\n\
IconIndex=0\r\n\
URL=steam://rungameid/230410\r\n\
IconFile=C:\\Program Files (x86)\\Steam\\steam\\games\\3b8ddd969a289cdf233fafe0a77ca70655b9b2e1.ico\r\n";

const WARFRAME_ICON: &str =
    "C:\\Program Files (x86)\\Steam\\steam\\games\\3b8ddd969a289cdf233fafe0a77ca70655b9b2e1.ico";

fn text(s: &str) -> Option<String> {
    Some(s.to_string())
}

#[test]
fn test_shortcut_new() {
    let _ = Shortcut::new("tests/samples/Warframe.url".into());
}

#[test]
fn test_shortcut_read() {
    let shortcut = Shortcut::new("tests/samples/Warframe.url".into())
        .read(Some(WARFRAME))
        .unwrap();

    assert_eq!(shortcut.appid, 230410);
    assert_eq!(shortcut.name, "Warframe".to_string());
    assert_eq!(
        shortcut.icon.hash,
        Some("3b8ddd969a289cdf233fafe0a77ca70655b9b2e1".to_string())
    );
}

#[test]
fn test_shortcut_url() {
    let shortcut = Shortcut::new("tests/samples/Warframe.url".into())
        .read(Some(WARFRAME))
        .unwrap();
    let target = "https://media.steampowered.com/steamcommunity/public/images/apps/230410/3b8ddd969a289cdf233fafe0a77ca70655b9b2e1.ico";

    assert_eq!(shortcut.icon_url(), target);
}

#[test]
fn new_holds_placeholders() {
    let shortcut = Shortcut::new("tests/samples/Warframe.url".into());
    assert_eq!(shortcut.path, "tests/samples/Warframe.url");
    assert_eq!(shortcut.appid, 123);
    assert_eq!(shortcut.appid, PLACEHOLDER_APPID);
    assert_eq!(shortcut.name, "placeholder");
    assert_eq!(shortcut.name, PLACEHOLDER_NAME);
    assert_eq!(shortcut.icon.path, None);
    assert_eq!(shortcut.icon.hash, None);
}

#[test]
fn read_fills_the_receiver_and_returns_it() {
    let mut shortcut = Shortcut::new("tests/samples/Warframe.url".into());
    let returned = shortcut.read(Some(WARFRAME)).unwrap();
    assert_eq!(shortcut.path, "tests/samples/Warframe.url");
    assert_eq!(shortcut.appid, 230410);
    assert_eq!(shortcut.name, "Warframe");
    assert_eq!(shortcut.icon.path, text(WARFRAME_ICON));
    assert_eq!(shortcut.icon.hash, text("3b8ddd969a289cdf233fafe0a77ca70655b9b2e1"));
    assert_eq!(returned.path, shortcut.path);
    assert_eq!(returned.appid, shortcut.appid);
    assert_eq!(returned.name, shortcut.name);
    assert_eq!(returned.icon.path, shortcut.icon.path);
    assert_eq!(returned.icon.hash, shortcut.icon.hash);
}

#[test]
fn read_takes_unix_line_ends_and_forward_slashes() {
    let content = "URL=steam://rungameid/70\nIconFile=/home/me/.steam/icons/half_life1.ico\n";
    let shortcut = Shortcut::new("Half-Life.url".into()).read(Some(content)).unwrap();
    assert_eq!(shortcut.appid, 70);
    assert_eq!(shortcut.name, "Half-Life");
    assert_eq!(shortcut.icon.path, text("/home/me/.steam/icons/half_life1.ico"));
    assert_eq!(shortcut.icon.hash, text("half_life1"));
}

#[test]
fn read_ignores_order_and_other_lines() {
    let content = "IconFile=D:\\icons\\abc.ico\nsomething else\nURL=steam://rungameid/5\n";
    let shortcut = Shortcut::new("game.url".into()).read(Some(content)).unwrap();
    assert_eq!(shortcut.appid, 5);
    assert_eq!(shortcut.icon.hash, text("abc"));
}

#[test]
fn read_missing_file_is_not_found() {
    let mut shortcut = Shortcut::new("tests/samples/Missing.url".into());
    assert_eq!(shortcut.read(None).unwrap_err(), ReadError::NotFound);
    assert_eq!(shortcut.path, "tests/samples/Missing.url");
    assert_eq!(shortcut.appid, 123);
    assert_eq!(shortcut.name, "placeholder");
    assert_eq!(shortcut.icon.path, None);
    assert_eq!(shortcut.icon.hash, None);
}

#[test]
fn read_path_without_file_name_is_not_found() {
    let mut shortcut = Shortcut::new("..".into());
    assert_eq!(shortcut.read(Some(WARFRAME)).unwrap_err(), ReadError::NotFound);
    assert_eq!(shortcut.appid, 123);
    assert_eq!(shortcut.name, "placeholder");
}

#[test]
fn read_without_launch_address_is_malformed_application_id() {
    let content = "[InternetShortcut]\r\nIconFile=C:\\icons\\abc.ico\r\n";
    let mut shortcut = Shortcut::new("game.url".into());
    assert_eq!(
        shortcut.read(Some(content)).unwrap_err(),
        ReadError::MalformedApplicationId
    );
    assert_eq!(shortcut.appid, 123);
    assert_eq!(shortcut.name, "placeholder");
    assert_eq!(shortcut.icon.path, None);
    assert_eq!(shortcut.icon.hash, None);
}

#[test]
fn read_launch_address_without_digits_is_malformed_application_id() {
    let content = "URL=steam://rungameid/\r\nIconFile=C:\\icons\\abc.ico\r\n";
    let mut shortcut = Shortcut::new("game.url".into());
    assert_eq!(
        shortcut.read(Some(content)).unwrap_err(),
        ReadError::MalformedApplicationId
    );
}

#[test]
fn read_application_id_beyond_u32_is_malformed_application_id() {
    let content = "URL=steam://rungameid/4294967296\r\nIconFile=C:\\icons\\abc.ico\r\n";
    let mut shortcut = Shortcut::new("game.url".into());
    assert_eq!(
        shortcut.read(Some(content)).unwrap_err(),
        ReadError::MalformedApplicationId
    );
    assert_eq!(shortcut.appid, 123);

    let content = "URL=steam://rungameid/4294967295\r\nIconFile=C:\\icons\\abc.ico\r\n";
    assert_eq!(shortcut.read(Some(content)).unwrap().appid, 4294967295);
}

#[test]
fn read_application_id_in_other_digits_is_malformed_application_id() {
    let content = "URL=steam://rungameid/\u{0661}\u{0662}\r\nIconFile=C:\\icons\\abc.ico\r\n";
    let mut shortcut = Shortcut::new("game.url".into());
    assert_eq!(
        shortcut.read(Some(content)).unwrap_err(),
        ReadError::MalformedApplicationId
    );
}

#[test]
fn read_without_icon_line_is_malformed_icon_reference() {
    let content = "[InternetShortcut]\r\nURL=steam://rungameid/230410\r\n";
    let mut shortcut = Shortcut::new("game.url".into());
    assert_eq!(
        shortcut.read(Some(content)).unwrap_err(),
        ReadError::MalformedIconReference
    );
    assert_eq!(shortcut.appid, 123);
    assert_eq!(shortcut.name, "placeholder");
    assert_eq!(shortcut.icon.path, None);
    assert_eq!(shortcut.icon.hash, None);
}

#[test]
fn read_icon_line_of_another_kind_is_malformed_icon_reference() {
    let mut shortcut = Shortcut::new("game.url".into());
    let png = "URL=steam://rungameid/1\nIconFile=C:\\icons\\abc.png\n";
    assert_eq!(shortcut.read(Some(png)).unwrap_err(), ReadError::MalformedIconReference);
    let bare = "URL=steam://rungameid/1\nIconFile=abc.ico\n";
    assert_eq!(shortcut.read(Some(bare)).unwrap_err(), ReadError::MalformedIconReference);
    let dashed = "URL=steam://rungameid/1\nIconFile=C:\\icons\\a-b.ico\n";
    assert_eq!(shortcut.read(Some(dashed)).unwrap_err(), ReadError::MalformedIconReference);
}

#[test]
fn read_without_either_reports_the_application_id() {
    let mut shortcut = Shortcut::new("game.url".into());
    assert_eq!(
        shortcut.read(Some("")).unwrap_err(),
        ReadError::MalformedApplicationId
    );
}

#[test]
fn failed_read_keeps_what_an_earlier_read_found() {
    let mut shortcut = Shortcut::new("tests/samples/Warframe.url".into());
    shortcut.read(Some(WARFRAME)).unwrap();
    assert_eq!(shortcut.read(None).unwrap_err(), ReadError::NotFound);
    assert_eq!(shortcut.appid, 230410);
    assert_eq!(shortcut.name, "Warframe");
    assert_eq!(shortcut.icon.hash, text("3b8ddd969a289cdf233fafe0a77ca70655b9b2e1"));
}

#[test]
fn name_comes_from_the_path_alone() {
    let other = "URL=steam://rungameid/70\nIconFile=/icons/zzz.ico\n";
    let first = Shortcut::new("tests/samples/Warframe.url".into()).read(Some(WARFRAME)).unwrap();
    let second = Shortcut::new("tests/samples/Warframe.url".into()).read(Some(other)).unwrap();
    assert_eq!(first.name, "Warframe");
    assert_eq!(second.name, "Warframe");
    assert_ne!(first.appid, second.appid);

    let renamed = Shortcut::new("tests/samples/Portal 2.url".into()).read(Some(WARFRAME)).unwrap();
    assert_eq!(renamed.name, "Portal 2");
    assert_eq!(renamed.appid, first.appid);
}

#[test]
fn name_is_the_file_stem() {
    let read_name = |path: &str| Shortcut::new(path.into()).read(Some(WARFRAME)).unwrap().name;
    assert_eq!(read_name("Warframe"), "Warframe");
    assert_eq!(read_name("a/b/Warframe.tar.url"), "Warframe.tar");
    assert_eq!(read_name(".hidden"), ".hidden");
    assert_eq!(read_name("dir.d/Warframe.url"), "Warframe");
}

#[test]
fn read_twice_gives_the_same() {
    let mut shortcut = Shortcut::new("tests/samples/Warframe.url".into());
    let first = shortcut.read(Some(WARFRAME)).unwrap();
    let second = shortcut.read(Some(WARFRAME)).unwrap();
    assert_eq!(first.path, second.path);
    assert_eq!(first.appid, second.appid);
    assert_eq!(first.name, second.name);
    assert_eq!(first.icon.path, second.icon.path);
    assert_eq!(first.icon.hash, second.icon.hash);
    assert_eq!(shortcut.appid, 230410);
    assert_eq!(shortcut.name, "Warframe");
}

#[test]
fn populate_decides_from_the_parts() {
    let mut shortcut = Shortcut::new("x.url".into());
    let record = shortcut
        .populate(text("x"), text("440"), text("C:\\i\\tf2.ico"), text("tf2"))
        .unwrap();
    assert_eq!(record.appid, 440);
    assert_eq!(record.name, "x");
    assert_eq!(record.icon.path, text("C:\\i\\tf2.ico"));
    assert_eq!(record.icon.hash, text("tf2"));
    assert_eq!(shortcut.appid, 440);

    let mut fresh = Shortcut::new("x.url".into());
    assert_eq!(
        fresh.populate(None, text("440"), text("p"), text("h")).unwrap_err(),
        ReadError::NotFound
    );
    assert_eq!(
        fresh.populate(None, None, None, None).unwrap_err(),
        ReadError::NotFound
    );
    assert_eq!(
        fresh.populate(text("x"), None, text("p"), text("h")).unwrap_err(),
        ReadError::MalformedApplicationId
    );
    assert_eq!(
        fresh.populate(text("x"), text("44o"), text("p"), text("h")).unwrap_err(),
        ReadError::MalformedApplicationId
    );
    assert_eq!(
        fresh.populate(text("x"), None, None, None).unwrap_err(),
        ReadError::MalformedApplicationId
    );
    assert_eq!(
        fresh.populate(text("x"), text("440"), None, text("h")).unwrap_err(),
        ReadError::MalformedIconReference
    );
    assert_eq!(
        fresh.populate(text("x"), text("440"), text("p"), None).unwrap_err(),
        ReadError::MalformedIconReference
    );
    assert_eq!(fresh.appid, 123);
    assert_eq!(fresh.name, "placeholder");
    assert_eq!(fresh.icon.path, None);
    assert_eq!(fresh.icon.hash, None);
}

#[test]
fn application_id_reads_decimal_u32() {
    assert_eq!(application_id(&text("230410")), Ok(230410));
    assert_eq!(application_id(&text("0")), Ok(0));
    assert_eq!(application_id(&text("007")), Ok(7));
    assert_eq!(application_id(&text("4294967295")), Ok(4294967295));
    assert_eq!(application_id(&text("4294967296")), Err(ReadError::MalformedApplicationId));
    assert_eq!(application_id(&text("")), Err(ReadError::MalformedApplicationId));
    assert_eq!(application_id(&text("-1")), Err(ReadError::MalformedApplicationId));
    assert_eq!(application_id(&None), Err(ReadError::MalformedApplicationId));
}

#[test]
fn icon_reference_needs_both_parts() {
    let icon = icon_reference(text("C:\\i\\a.ico"), text("a")).unwrap();
    assert_eq!(icon.path, text("C:\\i\\a.ico"));
    assert_eq!(icon.hash, text("a"));
    assert_eq!(icon_reference(None, text("a")).unwrap_err(), ReadError::MalformedIconReference);
    assert_eq!(icon_reference(text("p"), None).unwrap_err(), ReadError::MalformedIconReference);
    assert_eq!(icon_reference(None, None).unwrap_err(), ReadError::MalformedIconReference);
}

#[test]
fn icon_url_of_given_records() {
    let record = Shortcut {
        path: "x.url".into(),
        appid: 0,
        name: "x".into(),
        icon: Icon { path: None, hash: text("h") },
    };
    assert_eq!(
        record.icon_url(),
        "https://media.steampowered.com/steamcommunity/public/images/apps/0/h.ico"
    );
    let record = Shortcut { appid: 4294967295, ..record };
    assert_eq!(
        record.icon_url(),
        "https://media.steampowered.com/steamcommunity/public/images/apps/4294967295/h.ico"
    );
    let record = Shortcut { appid: 1000, icon: Icon { path: None, hash: text("") }, ..record };
    assert_eq!(record.icon_url(), format!("{}1000/.ico", ICON_URL_BASE));
}

#[test]
fn patterns_are_as_documented() {
    assert_eq!(APPLICATION_ID_PATTERN, "URL=steam:\\/\\/rungameid\\/(\\d+)");
    assert_eq!(ICON_PATTERN, "IconFile=(.*[\\\\\\/]([\\d\\w]+)\\.ico)");
    assert_eq!(
        ICON_URL_BASE,
        "https://media.steampowered.com/steamcommunity/public/images/apps/"
    );
}
