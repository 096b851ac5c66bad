//! A Steam shortcut: the record read from a `.url` file and the remote
//! address of its icon.

use vstd::prelude::*;
use vstd::string::*;
use crate::decimal::{decimal, parse_u32, parse_u32_spec, push_decimal};
use crate::paths::{file_stem, path_file_stem};
use crate::search::{capture, regex_capture};

verus! {

/// The launch address of a shortcut; its one capture group holds the digits
/// of the application id.
pub const APPLICATION_ID_PATTERN: &'static str = r"URL=steam:\/\/rungameid\/(\d+)";

/// The icon line of a shortcut; the first capture group holds the icon's
/// path as written, the second the stem of its file name.
pub const ICON_PATTERN: &'static str = r"IconFile=(.*[\\\/]([\d\w]+)\.ico)";

/// Where the icons of all applications are served from.
pub const ICON_URL_BASE: &'static str =
    "https://media.steampowered.com/steamcommunity/public/images/apps/";

/// The application id of a record that was not read yet.
pub const PLACEHOLDER_APPID: u32 = 123;

/// The display name of a record that was not read yet.
pub const PLACEHOLDER_NAME: &'static str = "placeholder";

/// Why a shortcut could not be read.
#[derive(Clone, Copy, Debug, PartialEq, Eq, Structural)]
pub enum ReadError {
    /// The path does not name an existing file.
    NotFound,
    /// The content holds no launch address with an application id.
    MalformedApplicationId,
    /// The content holds no icon reference.
    MalformedIconReference,
}

/// The icon that a shortcut refers to.
#[derive(Clone, Debug)]
pub struct Icon {
    /// The icon's path on disk, as the shortcut writes it.
    pub path: Option<String>,
    /// The stem of the icon's file name, under which the icon is served.
    pub hash: Option<String>,
}

/// The mathematical value of an [`Icon`].
pub struct IconView {
    pub path: Option<Seq<char>>,
    pub hash: Option<Seq<char>>,
}

impl View for Icon {
    type V = IconView;

    open spec fn view(&self) -> IconView {
        IconView { path: self.path.deep_view(), hash: self.hash.deep_view() }
    }
}

impl Icon {
    /// Path and hash come from one match: both are there or neither is.
    pub open spec fn wf(&self) -> bool {
        self.path is Some <==> self.hash is Some
    }
}

/// One shortcut file and what was read from it.
#[derive(Clone, Debug)]
pub struct Shortcut {
    /// The path of the shortcut file; a read never changes it.
    pub path: String,
    /// The application id; a placeholder until the shortcut is read.
    pub appid: u32,
    /// The display name; a placeholder until the shortcut is read.
    pub name: String,
    /// The icon reference; empty until the shortcut is read.
    pub icon: Icon,
}

/// The mathematical value of a [`Shortcut`].
pub struct ShortcutView {
    pub path: Seq<char>,
    pub appid: u32,
    pub name: Seq<char>,
    pub icon: IconView,
}

impl View for Shortcut {
    type V = ShortcutView;

    open spec fn view(&self) -> ShortcutView {
        ShortcutView {
            path: self.path@,
            appid: self.appid,
            name: self.name@,
            icon: self.icon@,
        }
    }
}

/// The record of a shortcut at `path` before anything is read.
pub open spec fn unread(path: Seq<char>) -> ShortcutView {
    ShortcutView {
        path,
        appid: PLACEHOLDER_APPID,
        name: PLACEHOLDER_NAME@,
        icon: IconView { path: None, hash: None },
    }
}

/// The application id that the captured digits `digits` give.
pub open spec fn application_id_spec(digits: Option<Seq<char>>) -> Result<u32, ReadError> {
    match digits {
        Some(text) => match parse_u32_spec(text) {
            Some(appid) => Ok(appid),
            None => Err(ReadError::MalformedApplicationId),
        },
        None => Err(ReadError::MalformedApplicationId),
    }
}

/// The icon that the captured path and file stem give.
pub open spec fn icon_reference_spec(path: Option<Seq<char>>, hash: Option<Seq<char>>) -> Result<
    IconView,
    ReadError,
> {
    if path is Some && hash is Some {
        Ok(IconView { path, hash })
    } else {
        Err(ReadError::MalformedIconReference)
    }
}

/// The record that the parts found for the shortcut at `path` give: the stem
/// of its file name, and what the two patterns captured in its content.
pub open spec fn populated(
    path: Seq<char>,
    stem: Option<Seq<char>>,
    digits: Option<Seq<char>>,
    icon_path: Option<Seq<char>>,
    icon_hash: Option<Seq<char>>,
) -> Result<ShortcutView, ReadError> {
    match stem {
        None => Err(ReadError::NotFound),
        Some(name) => match application_id_spec(digits) {
            Err(e) => Err(e),
            Ok(appid) => match icon_reference_spec(icon_path, icon_hash) {
                Err(e) => Err(e),
                Ok(icon) => Ok(ShortcutView { path, appid, name, icon }),
            },
        },
    }
}

/// What reading the shortcut at `path` gives, `file` being the content of
/// the file there, or `None` where there is no such file.
pub open spec fn read_spec(path: Seq<char>, file: Option<Seq<char>>) -> Result<
    ShortcutView,
    ReadError,
> {
    match file {
        None => Err(ReadError::NotFound),
        Some(content) => populated(
            path,
            path_file_stem(path),
            regex_capture(APPLICATION_ID_PATTERN@, content, 1),
            regex_capture(ICON_PATTERN@, content, 1),
            regex_capture(ICON_PATTERN@, content, 2),
        ),
    }
}

/// The record `before` after one attempt to read it: the populated record
/// where the read succeeds, `before` itself where it fails.
pub open spec fn after_read(before: ShortcutView, file: Option<Seq<char>>) -> ShortcutView {
    match read_spec(before.path, file) {
        Ok(record) => record,
        Err(_) => before,
    }
}

/// An outcome with the value it holds, if any, replaced by its view.
pub open spec fn outcome_view<T: View>(r: Result<T, ReadError>) -> Result<T::V, ReadError> {
    match r {
        Ok(value) => Ok(value@),
        Err(e) => Err(e),
    }
}

/// The address under which the icon `hash` of application `appid` is served.
pub open spec fn icon_url_spec(appid: u32, hash: Seq<char>) -> Seq<char> {
    ICON_URL_BASE@ + decimal(appid as nat) + "/"@ + hash + ".ico"@
}

/// Tells the application id from the digits captured after the launch
/// address: a decimal `u32`. Missing or unreadable digits are a malformed
/// application id.
pub fn application_id(digits: &Option<String>) -> (r: Result<u32, ReadError>)
    ensures
        r == application_id_spec(digits.deep_view()),
{
    match digits {
        Some(text) => match parse_u32(text.as_str()) {
            Some(appid) => Ok(appid),
            None => Err(ReadError::MalformedApplicationId),
        },
        None => Err(ReadError::MalformedApplicationId),
    }
}

/// Builds the icon reference from the captured path and file stem. Unless
/// both were captured, the icon reference is malformed.
pub fn icon_reference(path: Option<String>, hash: Option<String>) -> (r: Result<Icon, ReadError>)
    ensures
        outcome_view(r) == icon_reference_spec(path.deep_view(), hash.deep_view()),
        r matches Ok(icon) ==> icon.wf(),
{
    if path.is_some() && hash.is_some() {
        Ok(Icon { path, hash })
    } else {
        Err(ReadError::MalformedIconReference)
    }
}

/// A copy of a text that may be absent.
fn copy_text(text: &Option<String>) -> (r: Option<String>)
    ensures
        r == *text,
{
    match text {
        Some(t) => Some(t.clone()),
        None => None,
    }
}

impl Shortcut {
    /// A record for the shortcut file at `path`, with placeholders for all
    /// that a read will find. Touches no file.
    pub fn new(path: String) -> (r: Shortcut)
        ensures
            r@ == unread(path@),
            r.icon.wf(),
    {
        Shortcut {
            path,
            appid: PLACEHOLDER_APPID,
            name: String::from_str(PLACEHOLDER_NAME),
            icon: Icon { path: None, hash: None },
        }
    }

    /// A copy of this record.
    fn duplicate(&self) -> (r: Shortcut)
        ensures
            r == *self,
    {
        Shortcut {
            path: self.path.clone(),
            appid: self.appid,
            name: self.name.clone(),
            icon: Icon { path: copy_text(&self.icon.path), hash: copy_text(&self.icon.hash) },
        }
    }

    /// Fills the record from the parts found for its file: `stem`, the stem
    /// of the file's name, `digits`, the digits captured after the launch
    /// address, `icon_path` and `icon_hash`, the two captures of the icon
    /// line. Unless all parts are there and the digits are a `u32`, nothing
    /// is filled in: a path without a stem names no file, and the
    /// application id is looked at before the icon. On success the
    /// populated record is also returned.
    pub fn populate(
        &mut self,
        stem: Option<String>,
        digits: Option<String>,
        icon_path: Option<String>,
        icon_hash: Option<String>,
    ) -> (r: Result<Shortcut, ReadError>)
        ensures
            outcome_view(r) == populated(
                old(self)@.path,
                stem.deep_view(),
                digits.deep_view(),
                icon_path.deep_view(),
                icon_hash.deep_view(),
            ),
            final(self).path == old(self).path,
            r matches Ok(record) ==> *final(self) == record && record.icon.wf(),
            r is Err ==> *final(self) == *old(self),
    {
        let name = match stem {
            Some(name) => name,
            None => {
                return Err(ReadError::NotFound);
            },
        };
        let appid = match application_id(&digits) {
            Ok(appid) => appid,
            Err(e) => {
                return Err(e);
            },
        };
        let icon = match icon_reference(icon_path, icon_hash) {
            Ok(icon) => icon,
            Err(e) => {
                return Err(e);
            },
        };
        self.appid = appid;
        self.name = name;
        self.icon = icon;
        Ok(self.duplicate())
    }

    /// Reads the shortcut from `file`: the content of the file at the
    /// record's path, or `None` where no file exists there. A missing file is
    /// `NotFound`; content without a launch address that carries a decimal
    /// `u32` is `MalformedApplicationId`; content with one, but without an
    /// icon line, is `MalformedIconReference`. On success the record holds
    /// the application id, the icon reference and, as its name, the stem of
    /// the file's name, and is also returned. On failure it is left as it
    /// was.
    pub fn read(&mut self, file: Option<&str>) -> (r: Result<Shortcut, ReadError>)
        ensures
            outcome_view(r) == read_spec(old(self)@.path, file.deep_view()),
            final(self)@ == after_read(old(self)@, file.deep_view()),
            final(self).path == old(self).path,
            r matches Ok(record) ==> *final(self) == record && record.icon.wf(),
            r is Err ==> *final(self) == *old(self),
    {
        let content = match file {
            Some(content) => content,
            None => {
                return Err(ReadError::NotFound);
            },
        };
        let stem = file_stem(self.path.as_str());
        let digits = capture(APPLICATION_ID_PATTERN, content, 1);
        let icon_path = capture(ICON_PATTERN, content, 1);
        let icon_hash = capture(ICON_PATTERN, content, 2);
        self.populate(stem, digits, icon_path, icon_hash)
    }

    /// The address from which the icon of this shortcut can be fetched. The
    /// record must hold an icon hash, as every record does that was read.
    pub fn icon_url(&self) -> (url: String)
        requires
            self.icon.hash is Some,
        ensures
            url@ == icon_url_spec(self.appid, self.icon.hash->0@),
    {
        let mut url = String::from_str(ICON_URL_BASE);
        push_decimal(&mut url, self.appid);
        url.append("/");
        match &self.icon.hash {
            Some(hash) => url.append(hash.as_str()),
            None => {},
        }
        url.append(".ico");
        url
    }
}

/// Where no file exists at the path, a read fails with `NotFound` and the
/// record keeps every value it had, its placeholders among them.
pub proof fn lemma_missing_file_is_not_found(before: ShortcutView)
    ensures
        read_spec(before.path, None) == Err::<ShortcutView, ReadError>(ReadError::NotFound),
        after_read(before, None) == before,
{
}

/// Content in which the launch address is not found fails with
/// `MalformedApplicationId`, whatever else it holds. This is said of a path
/// that has a file name, as the path of every existing file has.
pub proof fn lemma_missing_application_id(path: Seq<char>, content: Seq<char>)
    requires
        path_file_stem(path) is Some,
        regex_capture(APPLICATION_ID_PATTERN@, content, 1) is None,
    ensures
        read_spec(path, Some(content)) == Err::<ShortcutView, ReadError>(
            ReadError::MalformedApplicationId,
        ),
{
}

/// Content in which the icon line is not found fails with
/// `MalformedIconReference`, provided that its application id was read: a
/// malformed application id is reported first.
pub proof fn lemma_missing_icon_reference(path: Seq<char>, content: Seq<char>)
    requires
        path_file_stem(path) is Some,
        application_id_spec(regex_capture(APPLICATION_ID_PATTERN@, content, 1)) is Ok,
        regex_capture(ICON_PATTERN@, content, 1) is None || regex_capture(
            ICON_PATTERN@,
            content,
            2,
        ) is None,
    ensures
        read_spec(path, Some(content)) == Err::<ShortcutView, ReadError>(
            ReadError::MalformedIconReference,
        ),
{
}

/// A read never commits half a record: whenever it succeeds, the name is the
/// stem of the file's name, the application id is the number captured after
/// the launch address, and the icon's path and hash are both there.
pub proof fn lemma_read_is_complete(path: Seq<char>, content: Seq<char>)
    ensures
        read_spec(path, Some(content)) matches Ok(record) ==> {
            &&& record.path == path
            &&& path_file_stem(path) == Some(record.name)
            &&& application_id_spec(regex_capture(APPLICATION_ID_PATTERN@, content, 1)) == Ok::<
                u32,
                ReadError,
            >(record.appid)
            &&& record.icon.path is Some
            &&& record.icon.path == regex_capture(ICON_PATTERN@, content, 1)
            &&& record.icon.hash is Some
            &&& record.icon.hash == regex_capture(ICON_PATTERN@, content, 2)
        },
{
}

/// The display name depends on the path alone: two contents that can both be
/// read at one path give the same name, the stem of the file's name.
pub proof fn lemma_name_independent_of_content(
    path: Seq<char>,
    content: Seq<char>,
    other: Seq<char>,
)
    ensures
        read_spec(path, Some(content)) matches Ok(first) ==> (read_spec(
            path,
            Some(other),
        ) matches Ok(second) ==> first.name == second.name),
{
}

/// Reading is idempotent: a second read of the same file gives the outcome
/// of the first, and leaves the record as the first read left it.
pub proof fn lemma_read_is_idempotent(before: ShortcutView, file: Option<Seq<char>>)
    ensures
        read_spec(after_read(before, file).path, file) == read_spec(before.path, file),
        after_read(after_read(before, file), file) == after_read(before, file),
{
}

} // verus!
