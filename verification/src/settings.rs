//! The settings a run starts from: window title, window size and vertical sync.
//!
//! A built `config::Config` is read key by key. A key that the configuration lacks falls
//! back to its default. A key whose value cannot be read as the wanted type is refused, and
//! so is a width or height that is no unsigned 32-bit number.

use config::Config;
use vstd::prelude::*;

verus! {

/// What a configuration holds under one key, read as one type.
#[derive(Debug)]
pub enum Entry<T> {
    /// The key is there and its value reads as the wanted type.
    Present(T),
    /// The configuration has no such key.
    Absent,
    /// The key is there, but its value does not read as the wanted type.
    Unusable,
}

/// The four settings.
#[derive(Clone, Copy, Debug, PartialEq, Eq, Structural)]
pub enum Field {
    Title,
    Width,
    Height,
    Vsync,
}

/// Why a configuration was refused.
#[derive(Clone, Copy, Debug, PartialEq, Eq, Structural)]
pub enum SettingsError {
    /// The named setting is present with a value of the wrong type.
    WrongType(Field),
    /// The named dimension is present with a number below 0 or above `u32::MAX`.
    OutOfRange(Field),
}

/// The settings as plain values.
pub struct SettingsView {
    pub title: Seq<char>,
    pub width: u32,
    pub height: u32,
    pub vsync: bool,
}

/// Window title, logical window size and vertical sync. Fixed once made.
#[derive(Debug)]
pub struct Settings {
    title: String,
    width: u32,
    height: u32,
    vsync: bool,
}

/// The configuration type of the `config` crate. Nothing inside it is visible here: it is
/// read through `lookup_string`, `lookup_int` and `lookup_bool` alone.
#[verifier::external_type_specification]
#[verifier::external_body]
pub struct ExConfig(config::Config);

/// What `Config::get_string` makes of `key` in `conf`.
pub uninterp spec fn string_entry(conf: Config, key: Seq<char>) -> Entry<Seq<char>>;

/// What `Config::get_int` makes of `key` in `conf`.
pub uninterp spec fn int_entry(conf: Config, key: Seq<char>) -> Entry<i64>;

/// What `Config::get_bool` makes of `key` in `conf`.
pub uninterp spec fn bool_entry(conf: Config, key: Seq<char>) -> Entry<bool>;

/// A key made of lower-case ASCII letters only: one name, with no path or subscript in it.
spec fn is_plain_key(key: Seq<char>) -> bool {
    &&& key.len() > 0
    &&& forall|i: int| 0 <= i < key.len() ==> 'a' <= #[trigger] key[i] <= 'z'
}

/// The text of an entry of strings.
pub open spec fn entry_text(entry: Entry<String>) -> Entry<Seq<char>> {
    match entry {
        Entry::Present(text) => Entry::Present(text@),
        Entry::Absent => Entry::Absent,
        Entry::Unusable => Entry::Unusable,
    }
}

/// Calls `config::Config::get_string`. Trusted: the answer depends on the configuration and
/// the key alone; `Ok` is handed on as `Present`, the error `NotFound` as `Absent`, and any
/// other error, which for a plain key is a value that does not convert, as `Unusable`.
#[verifier::external_body]
fn lookup_string(conf: &Config, key: &str) -> (found: Entry<String>)
    requires
        is_plain_key(key@),
    ensures
        entry_text(found) == string_entry(*conf, key@),
{
    match conf.get_string(key) {
        Ok(text) => Entry::Present(text),
        Err(config::ConfigError::NotFound(_)) => Entry::Absent,
        Err(_) => Entry::Unusable,
    }
}

/// Calls `config::Config::get_int`. Trusted: the answer depends on the configuration and
/// the key alone; `Ok` is handed on as `Present`, the error `NotFound` as `Absent`, and any
/// other error, which for a plain key is a value that does not convert, as `Unusable`.
#[verifier::external_body]
fn lookup_int(conf: &Config, key: &str) -> (found: Entry<i64>)
    requires
        is_plain_key(key@),
    ensures
        found == int_entry(*conf, key@),
{
    match conf.get_int(key) {
        Ok(number) => Entry::Present(number),
        Err(config::ConfigError::NotFound(_)) => Entry::Absent,
        Err(_) => Entry::Unusable,
    }
}

/// Calls `config::Config::get_bool`. Trusted: the answer depends on the configuration and
/// the key alone; `Ok` is handed on as `Present`, the error `NotFound` as `Absent`, and any
/// other error, which for a plain key is a value that does not convert, as `Unusable`.
#[verifier::external_body]
fn lookup_bool(conf: &Config, key: &str) -> (found: Entry<bool>)
    requires
        is_plain_key(key@),
    ensures
        found == bool_entry(*conf, key@),
{
    match conf.get_bool(key) {
        Ok(flag) => Entry::Present(flag),
        Err(config::ConfigError::NotFound(_)) => Entry::Absent,
        Err(_) => Entry::Unusable,
    }
}

/// The title of a window whose configuration names none.
pub open spec fn default_title() -> Seq<char> {
    "untitled"@
}

/// The width of a window whose configuration gives none.
pub const DEFAULT_WIDTH: u32 = 1280;

/// The height of a window whose configuration gives none.
pub const DEFAULT_HEIGHT: u32 = 720;

/// Whether frames wait for the display where the configuration does not say.
pub const DEFAULT_VSYNC: bool = true;

/// Whether a configured number can be a window dimension.
pub open spec fn fits_extent(number: i64) -> bool {
    0 <= number <= u32::MAX
}

/// Why the entry of a dimension is refused, if it is: its value is no integer, or the
/// integer is no window dimension.
pub open spec fn extent_refusal(entry: Entry<i64>, field: Field) -> Option<SettingsError> {
    match entry {
        Entry::Unusable => Some(SettingsError::WrongType(field)),
        Entry::Present(number) => if fits_extent(number) {
            None
        } else {
            Some(SettingsError::OutOfRange(field))
        },
        Entry::Absent => None,
    }
}

/// Why four entries are refused, if they are: what is wrong with the first of them, in the
/// order title, width, height, vsync, that cannot be taken.
pub open spec fn refusal(
    title: Entry<Seq<char>>,
    width: Entry<i64>,
    height: Entry<i64>,
    vsync: Entry<bool>,
) -> Option<SettingsError> {
    if title is Unusable {
        Some(SettingsError::WrongType(Field::Title))
    } else if extent_refusal(width, Field::Width) is Some {
        extent_refusal(width, Field::Width)
    } else if extent_refusal(height, Field::Height) is Some {
        extent_refusal(height, Field::Height)
    } else if vsync is Unusable {
        Some(SettingsError::WrongType(Field::Vsync))
    } else {
        None
    }
}

/// The title that an entry gives.
pub open spec fn chosen_title(entry: Entry<Seq<char>>) -> Seq<char> {
    match entry {
        Entry::Present(text) => text,
        _ => default_title(),
    }
}

/// The dimension that an entry gives: its number where it is present, else `fallback`.
/// It is meant for entries that `extent_refusal` lets pass.
pub open spec fn chosen_extent(entry: Entry<i64>, fallback: u32) -> u32 {
    match entry {
        Entry::Present(number) => number as u32,
        _ => fallback,
    }
}

/// The vertical sync that an entry gives.
pub open spec fn chosen_vsync(entry: Entry<bool>) -> bool {
    match entry {
        Entry::Present(flag) => flag,
        _ => DEFAULT_VSYNC,
    }
}

/// The settings that four entries give: each one its entry's value where the entry is
/// present, and its default where it is absent.
pub open spec fn chosen(
    title: Entry<Seq<char>>,
    width: Entry<i64>,
    height: Entry<i64>,
    vsync: Entry<bool>,
) -> SettingsView {
    SettingsView {
        title: chosen_title(title),
        width: chosen_extent(width, DEFAULT_WIDTH),
        height: chosen_extent(height, DEFAULT_HEIGHT),
        vsync: chosen_vsync(vsync),
    }
}

/// What four entries come to: the settings they give, or why they are refused.
pub open spec fn outcome(
    title: Entry<Seq<char>>,
    width: Entry<i64>,
    height: Entry<i64>,
    vsync: Entry<bool>,
) -> Result<SettingsView, SettingsError> {
    match refusal(title, width, height, vsync) {
        Some(error) => Err(error),
        None => Ok(chosen(title, width, height, vsync)),
    }
}

/// Whether `made` is what `wanted` says: the same refusal, or settings with that view.
pub open spec fn agrees(
    made: Result<Settings, SettingsError>,
    wanted: Result<SettingsView, SettingsError>,
) -> bool {
    match wanted {
        Ok(view) => made is Ok && made->Ok_0@ == view,
        Err(error) => made == Err::<Settings, SettingsError>(error),
    }
}

impl View for Settings {
    type V = SettingsView;

    closed spec fn view(&self) -> SettingsView {
        SettingsView {
            title: self.title@,
            width: self.width,
            height: self.height,
            vsync: self.vsync,
        }
    }
}

impl Settings {
    /// The settings that four entries give. Each setting is decided by its own entry: it
    /// is the entry's value where that is present, and the default where it is absent
    /// (title "untitled", width 1280, height 720, vertical sync on).
    ///
    /// Entries that cannot be taken have no settings: an unusable one, or a width or
    /// height that is no unsigned 32-bit number. `from_entries` refuses them.
    pub fn new(
        title: Entry<String>,
        width: Entry<i64>,
        height: Entry<i64>,
        vsync: Entry<bool>,
    ) -> (settings: Settings)
        requires
            refusal(entry_text(title), width, height, vsync) is None,
        ensures
            settings@ == chosen(entry_text(title), width, height, vsync),
    {
        let title = match title {
            Entry::Present(text) => text,
            _ => "untitled".to_owned(),
        };
        let width = match width {
            Entry::Present(number) => number as u32,
            _ => DEFAULT_WIDTH,
        };
        let height = match height {
            Entry::Present(number) => number as u32,
            _ => DEFAULT_HEIGHT,
        };
        let vsync = match vsync {
            Entry::Present(flag) => flag,
            _ => DEFAULT_VSYNC,
        };
        Settings { title, width, height, vsync }
    }

    /// The settings that four entries give, or why there are none. The entries are gone
    /// through in the order title, width, height, vsync, and the first that cannot be taken
    /// is refused: as `WrongType` where it is unusable, as `OutOfRange` where it is a width
    /// or height below 0 or above `u32::MAX`. Where all four can be taken, each setting is
    /// its entry's value, or its default where the entry is absent.
    pub fn from_entries(
        title: Entry<String>,
        width: Entry<i64>,
        height: Entry<i64>,
        vsync: Entry<bool>,
    ) -> (made: Result<Settings, SettingsError>)
        ensures
            agrees(made, outcome(entry_text(title), width, height, vsync)),
    {
        if let Entry::Unusable = title {
            return Err(SettingsError::WrongType(Field::Title));
        }
        if let Some(error) = check_extent(&width, Field::Width) {
            return Err(error);
        }
        if let Some(error) = check_extent(&height, Field::Height) {
            return Err(error);
        }
        if let Entry::Unusable = vsync {
            return Err(SettingsError::WrongType(Field::Vsync));
        }
        Ok(Settings::new(title, width, height, vsync))
    }

    /// Reads the settings from a built configuration, under the keys `title`, `width`,
    /// `height` and `vsync`; other keys are not looked at. What the configuration holds
    /// under the four keys is judged as `from_entries` judges it: a key that is missing
    /// gives its default, and the first key whose value is of the wrong type, or out of
    /// range for a dimension, is refused.
    pub fn load(conf: &Config) -> (loaded: Result<Settings, SettingsError>)
        ensures
            agrees(
                loaded,
                outcome(
                    string_entry(*conf, "title"@),
                    int_entry(*conf, "width"@),
                    int_entry(*conf, "height"@),
                    bool_entry(*conf, "vsync"@),
                ),
            ),
    {
        proof {
            lemma_keys_are_plain();
        }
        let title = lookup_string(conf, "title");
        let width = lookup_int(conf, "width");
        let height = lookup_int(conf, "height");
        let vsync = lookup_bool(conf, "vsync");
        Settings::from_entries(title, width, height, vsync)
    }

    /// The window's title.
    pub fn get_title(&self) -> (title: &String)
        ensures
            title@ == self@.title,
    {
        &self.title
    }

    /// The window's width, in logical pixels.
    pub fn get_width(&self) -> (width: u32)
        ensures
            width == self@.width,
    {
        self.width
    }

    /// The window's height, in logical pixels.
    pub fn get_height(&self) -> (height: u32)
        ensures
            height == self@.height,
    {
        self.height
    }

    /// Whether presenting a frame waits for the display.
    pub fn get_vsync(&self) -> (vsync: bool)
        ensures
            vsync == self@.vsync,
    {
        self.vsync
    }
}

/// Why the entry of a dimension is refused, if it is.
fn check_extent(entry: &Entry<i64>, field: Field) -> (error: Option<SettingsError>)
    ensures
        error == extent_refusal(*entry, field),
{
    match entry {
        Entry::Unusable => Some(SettingsError::WrongType(field)),
        Entry::Present(number) => {
            if 0 <= *number && *number <= 4294967295 {
                None
            } else {
                Some(SettingsError::OutOfRange(field))
            }
        },
        Entry::Absent => None,
    }
}

/// The four keys are plain.
proof fn lemma_keys_are_plain()
    ensures
        is_plain_key("title"@),
        is_plain_key("width"@),
        is_plain_key("height"@),
        is_plain_key("vsync"@),
{
    reveal_strlit("title");
    reveal_strlit("width");
    reveal_strlit("height");
    reveal_strlit("vsync");
}

/// Every setting is decided by its own entry and by nothing else: its value is exactly
/// the entry's where the entry is present, the documented default where it is absent, and
/// the other three entries make no difference to it.
pub proof fn lemma_each_setting_follows_its_entry(
    title: Entry<Seq<char>>,
    width: Entry<i64>,
    height: Entry<i64>,
    vsync: Entry<bool>,
)
    requires
        refusal(title, width, height, vsync) is None,
    ensures
        title is Present ==> chosen(title, width, height, vsync).title == title->Present_0,
        title is Absent ==> chosen(title, width, height, vsync).title == "untitled"@,
        width is Present ==> chosen(title, width, height, vsync).width == width->Present_0,
        width is Absent ==> chosen(title, width, height, vsync).width == 1280,
        height is Present ==> chosen(title, width, height, vsync).height == height->Present_0,
        height is Absent ==> chosen(title, width, height, vsync).height == 720,
        vsync is Present ==> chosen(title, width, height, vsync).vsync == vsync->Present_0,
        vsync is Absent ==> chosen(title, width, height, vsync).vsync,
        forall|other_width: Entry<i64>, other_height: Entry<i64>, other_vsync: Entry<bool>|
            (#[trigger] chosen(title, other_width, other_height, other_vsync)).title == chosen(
                title,
                width,
                height,
                vsync,
            ).title,
        forall|other_title: Entry<Seq<char>>, other_height: Entry<i64>, other_vsync: Entry<bool>|
            (#[trigger] chosen(other_title, width, other_height, other_vsync)).width == chosen(
                title,
                width,
                height,
                vsync,
            ).width,
        forall|other_title: Entry<Seq<char>>, other_width: Entry<i64>, other_vsync: Entry<bool>|
            (#[trigger] chosen(other_title, other_width, height, other_vsync)).height == chosen(
                title,
                width,
                height,
                vsync,
            ).height,
        forall|other_title: Entry<Seq<char>>, other_width: Entry<i64>, other_height: Entry<i64>|
            (#[trigger] chosen(other_title, other_width, other_height, vsync)).vsync == chosen(
                title,
                width,
                height,
                vsync,
            ).vsync,
{
}

/// Entries are taken exactly if each of them can be: no entry is unusable, and a width or
/// height that is present lies from 0 to `u32::MAX`. A number outside that range is never
/// turned into another one.
pub proof fn lemma_entries_are_taken_or_refused(
    title: Entry<Seq<char>>,
    width: Entry<i64>,
    height: Entry<i64>,
    vsync: Entry<bool>,
)
    ensures
        outcome(title, width, height, vsync) is Ok <==> {
            &&& !(title is Unusable)
            &&& !(width is Unusable)
            &&& !(height is Unusable)
            &&& !(vsync is Unusable)
            &&& width is Present ==> fits_extent(width->Present_0)
            &&& height is Present ==> fits_extent(height->Present_0)
        },
        width is Present && !fits_extent(width->Present_0) && !(title is Unusable) ==> outcome(
            title,
            width,
            height,
            vsync,
        ) == Err::<SettingsView, SettingsError>(SettingsError::OutOfRange(Field::Width)),
        height is Present && !fits_extent(height->Present_0) && !(title is Unusable)
            && extent_refusal(width, Field::Width) is None ==> outcome(
            title,
            width,
            height,
            vsync,
        ) == Err::<SettingsView, SettingsError>(SettingsError::OutOfRange(Field::Height)),
{
}

} // verus!
