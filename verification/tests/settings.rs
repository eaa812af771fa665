use config::{Config, File, FileFormat};
use cubic::settings::{Entry, Field, Settings, SettingsError};
use cubic::settings::{DEFAULT_HEIGHT, DEFAULT_VSYNC, DEFAULT_WIDTH};
use cubic::window::WindowRequest;

fn parse(text: &str) -> Config {
    Config::builder()
        .add_source(File::from_str(text, FileFormat::Toml))
        .build()
        .unwrap()
}

fn load(text: &str) -> Settings {
    Settings::load(&parse(text)).unwrap()
}

fn refused(text: &str) -> SettingsError {
    match Settings::load(&parse(text)) {
        Ok(settings) => panic!("accepted: {:?}", settings),
        Err(error) => error,
    }
}

#[test]
fn defaults_are_as_documented() {
    assert_eq!(DEFAULT_WIDTH, 1280);
    assert_eq!(DEFAULT_HEIGHT, 720);
    assert!(DEFAULT_VSYNC);
}

#[test]
fn every_field_present() {
    let settings = load("title = \"demo\"\nwidth = 800\nheight = 600\nvsync = true\n");
    assert_eq!(settings.get_title(), "demo");
    assert_eq!(settings.get_width(), 800);
    assert_eq!(settings.get_height(), 600);
    assert!(settings.get_vsync());
}

#[test]
fn every_field_absent() {
    let settings = load("");
    assert_eq!(settings.get_title(), "untitled");
    assert_eq!(settings.get_width(), 1280);
    assert_eq!(settings.get_height(), 720);
    assert!(settings.get_vsync());
}

#[test]
fn title_alone() {
    let settings = load("title = \"only a title\"\n");
    assert_eq!(settings.get_title(), "only a title");
    assert_eq!(settings.get_width(), 1280);
    assert_eq!(settings.get_height(), 720);
    assert!(settings.get_vsync());
}

#[test]
fn width_alone() {
    let settings = load("width = 1920\n");
    assert_eq!(settings.get_title(), "untitled");
    assert_eq!(settings.get_width(), 1920);
    assert_eq!(settings.get_height(), 720);
    assert!(settings.get_vsync());
}

#[test]
fn height_alone() {
    let settings = load("height = 1080\n");
    assert_eq!(settings.get_title(), "untitled");
    assert_eq!(settings.get_width(), 1280);
    assert_eq!(settings.get_height(), 1080);
    assert!(settings.get_vsync());
}

#[test]
fn vsync_alone() {
    let settings = load("vsync = false\n");
    assert_eq!(settings.get_title(), "untitled");
    assert_eq!(settings.get_width(), 1280);
    assert_eq!(settings.get_height(), 720);
    assert!(!settings.get_vsync());
}

#[test]
fn each_field_is_decided_by_its_own_key() {
    for mask in 0u32..16 {
        let mut text = String::new();
        if mask & 1 != 0 {
            text.push_str("title = \"t\"\n");
        }
        if mask & 2 != 0 {
            text.push_str("width = 11\n");
        }
        if mask & 4 != 0 {
            text.push_str("height = 22\n");
        }
        if mask & 8 != 0 {
            text.push_str("vsync = false\n");
        }
        let settings = load(&text);
        assert_eq!(settings.get_title(), if mask & 1 != 0 { "t" } else { "untitled" });
        assert_eq!(settings.get_width(), if mask & 2 != 0 { 11 } else { 1280 });
        assert_eq!(settings.get_height(), if mask & 4 != 0 { 22 } else { 720 });
        assert_eq!(settings.get_vsync(), mask & 8 == 0);
    }
}

#[test]
fn unknown_keys_are_passed_over() {
    let settings = load("width = 640\ncolour = \"red\"\n[extra]\ndepth = 3\n");
    assert_eq!(settings.get_title(), "untitled");
    assert_eq!(settings.get_width(), 640);
    assert_eq!(settings.get_height(), 720);
    assert!(settings.get_vsync());
}

#[test]
fn values_are_coerced_as_the_configuration_does() {
    let settings = load("title = 42\nwidth = \"800\"\nheight = true\nvsync = 0\n");
    assert_eq!(settings.get_title(), "42");
    assert_eq!(settings.get_width(), 800);
    assert_eq!(settings.get_height(), 1);
    assert!(!settings.get_vsync());
    let settings = load("vsync = \"on\"\n");
    assert!(settings.get_vsync());
}

#[test]
fn a_dimension_out_of_range_is_refused() {
    assert_eq!(refused("width = -1\nheight = 4294967301\n"), SettingsError::OutOfRange(Field::Width));
    assert_eq!(refused("height = 4294967301\n"), SettingsError::OutOfRange(Field::Height));
    assert_eq!(refused("width = 4294967296\n"), SettingsError::OutOfRange(Field::Width));
    assert_eq!(refused("height = -1\n"), SettingsError::OutOfRange(Field::Height));
}

#[test]
fn the_ends_of_the_range_are_taken() {
    let settings = load("width = 0\nheight = 4294967295\n");
    assert_eq!(settings.get_width(), 0);
    assert_eq!(settings.get_height(), 4294967295);
    let settings = load("width = 4294967295\nheight = 0\n");
    assert_eq!(settings.get_width(), 4294967295);
    assert_eq!(settings.get_height(), 0);
}

#[test]
fn a_coerced_number_out_of_range_is_refused() {
    assert_eq!(refused("width = \"-3\"\n"), SettingsError::OutOfRange(Field::Width));
    assert_eq!(refused("height = -0.6\n"), SettingsError::OutOfRange(Field::Height));
}

#[test]
fn the_first_field_that_cannot_be_taken_is_named() {
    assert_eq!(
        refused("title = []\nwidth = -1\n"),
        SettingsError::WrongType(Field::Title)
    );
    assert_eq!(
        refused("width = -1\nheight = \"tall\"\n"),
        SettingsError::OutOfRange(Field::Width)
    );
    assert_eq!(
        refused("width = \"wide\"\nheight = -1\n"),
        SettingsError::WrongType(Field::Width)
    );
    assert_eq!(
        refused("height = -1\nvsync = \"maybe\"\n"),
        SettingsError::OutOfRange(Field::Height)
    );
}

#[test]
fn a_title_of_the_wrong_type_is_refused() {
    assert_eq!(refused("title = [1, 2]\n"), SettingsError::WrongType(Field::Title));
    assert_eq!(refused("[title]\nname = \"x\"\n"), SettingsError::WrongType(Field::Title));
}

#[test]
fn a_width_of_the_wrong_type_is_refused() {
    assert_eq!(refused("width = \"wide\"\n"), SettingsError::WrongType(Field::Width));
    assert_eq!(refused("width = [800]\n"), SettingsError::WrongType(Field::Width));
}

#[test]
fn a_height_of_the_wrong_type_is_refused() {
    assert_eq!(refused("height = \"tall\"\n"), SettingsError::WrongType(Field::Height));
}

#[test]
fn a_vsync_of_the_wrong_type_is_refused() {
    assert_eq!(refused("vsync = \"maybe\"\n"), SettingsError::WrongType(Field::Vsync));
    assert_eq!(refused("vsync = [true]\n"), SettingsError::WrongType(Field::Vsync));
}

#[test]
fn the_first_wrong_field_is_named() {
    let text = "title = \"ok\"\nwidth = 1\nheight = \"tall\"\nvsync = \"maybe\"\n";
    assert_eq!(refused(text), SettingsError::WrongType(Field::Height));
    let text = "title = []\nwidth = \"wide\"\n";
    assert_eq!(refused(text), SettingsError::WrongType(Field::Title));
}

#[test]
fn a_wrong_field_is_refused_whatever_the_others_hold() {
    assert_eq!(
        refused("title = \"demo\"\nwidth = 800\nheight = 600\nvsync = \"perhaps\"\n"),
        SettingsError::WrongType(Field::Vsync)
    );
}

#[test]
fn settings_from_entries() {
    let settings = Settings::new(
        Entry::Present(String::from("direct")),
        Entry::Present(320),
        Entry::Absent,
        Entry::Present(false),
    );
    assert_eq!(settings.get_title(), "direct");
    assert_eq!(settings.get_width(), 320);
    assert_eq!(settings.get_height(), 720);
    assert!(!settings.get_vsync());
}

#[test]
fn settings_from_absent_entries() {
    let settings = Settings::new(Entry::Absent, Entry::Absent, Entry::Absent, Entry::Absent);
    assert_eq!(settings.get_title(), "untitled");
    assert_eq!(settings.get_width(), 1280);
    assert_eq!(settings.get_height(), 720);
    assert!(settings.get_vsync());
}

fn refused_entries(
    title: Entry<String>,
    width: Entry<i64>,
    height: Entry<i64>,
    vsync: Entry<bool>,
) -> SettingsError {
    match Settings::from_entries(title, width, height, vsync) {
        Ok(settings) => panic!("accepted: {:?}", settings),
        Err(error) => error,
    }
}

#[test]
fn entries_out_of_range_are_refused() {
    assert_eq!(
        refused_entries(Entry::Absent, Entry::Present(i64::MIN), Entry::Present(i64::MAX), Entry::Absent),
        SettingsError::OutOfRange(Field::Width)
    );
    assert_eq!(
        refused_entries(Entry::Absent, Entry::Absent, Entry::Present(i64::MAX), Entry::Absent),
        SettingsError::OutOfRange(Field::Height)
    );
    assert_eq!(
        refused_entries(Entry::Absent, Entry::Present(-4294967296 + 7), Entry::Absent, Entry::Absent),
        SettingsError::OutOfRange(Field::Width)
    );
    assert_eq!(
        refused_entries(Entry::Absent, Entry::Present(7), Entry::Present(4294967296), Entry::Absent),
        SettingsError::OutOfRange(Field::Height)
    );
    assert_eq!(
        refused_entries(Entry::Absent, Entry::Present(-1), Entry::Absent, Entry::Absent),
        SettingsError::OutOfRange(Field::Width)
    );
}

#[test]
fn entries_that_can_be_taken_give_settings() {
    let settings = Settings::from_entries(
        Entry::Present(String::from("given")),
        Entry::Present(4294967295),
        Entry::Present(0),
        Entry::Absent,
    )
    .unwrap();
    assert_eq!(settings.get_title(), "given");
    assert_eq!(settings.get_width(), 4294967295);
    assert_eq!(settings.get_height(), 0);
    assert!(settings.get_vsync());
    let settings =
        Settings::from_entries(Entry::Absent, Entry::Absent, Entry::Absent, Entry::Absent)
            .unwrap();
    assert_eq!(settings.get_title(), "untitled");
    assert_eq!(settings.get_width(), 1280);
    assert_eq!(settings.get_height(), 720);
    assert!(settings.get_vsync());
}

#[test]
fn unusable_entries_are_refused_in_order() {
    assert_eq!(
        refused_entries(Entry::Unusable, Entry::Unusable, Entry::Unusable, Entry::Unusable),
        SettingsError::WrongType(Field::Title)
    );
    assert_eq!(
        refused_entries(Entry::Absent, Entry::Unusable, Entry::Present(-1), Entry::Unusable),
        SettingsError::WrongType(Field::Width)
    );
    assert_eq!(
        refused_entries(Entry::Absent, Entry::Present(1), Entry::Unusable, Entry::Unusable),
        SettingsError::WrongType(Field::Height)
    );
    assert_eq!(
        refused_entries(Entry::Absent, Entry::Present(1), Entry::Present(1), Entry::Unusable),
        SettingsError::WrongType(Field::Vsync)
    );
    assert_eq!(
        refused_entries(Entry::Unusable, Entry::Present(-1), Entry::Absent, Entry::Absent),
        SettingsError::WrongType(Field::Title)
    );
}

#[test]
fn demo_configuration_asks_for_its_window() {
    let settings = load("title = \"demo\"\nwidth = 800\nheight = 600\nvsync = true\n");
    let request = WindowRequest::from_settings(&settings);
    assert_eq!(request.title, "demo");
    assert_eq!(request.width, 800);
    assert_eq!(request.height, 600);
    assert!(request.vsync);
    assert!(request.newest_api);
}

#[test]
fn default_configuration_asks_for_its_window() {
    let request = WindowRequest::from_settings(&load("vsync = false\n"));
    assert_eq!(request.title, "untitled");
    assert_eq!(request.width, 1280);
    assert_eq!(request.height, 720);
    assert!(!request.vsync);
    assert!(request.newest_api);
}
