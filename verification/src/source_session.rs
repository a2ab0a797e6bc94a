//! The session of the source application: what it answers when asked for
//! its open document, what of a session folder is listed, and how a
//! session's size and images are told.

use vstd::prelude::*;
use vstd::string::StringExecFns;
use crate::format::{push_scaled, rounded_hundredths, two_decimals, KB, MB};
use crate::invocation::{session_folder, session_folder_of};
use crate::platform::{
    final_component, first_word, first_word_of, lowercase_of, parent_folder, to_lowercase, trim,
    trimmed_of,
};
use crate::text::{
    chars_of, decimal_digits, decimal_value, ends_with_chars, first_index_of, has_suffix,
    lemma_first_index_of, parse_decimal, push_decimal, same_text, saturated, segment_from,
    string_of, strip_suffix_run, up_to, without_suffix_run,
};

verus! {

/// The session that is open in the source application.
#[derive(Clone, Debug)]
pub struct SessionInfo {
    pub name: String,
    pub path: String,
    pub size: String,
    pub image_count: u32,
}

/// One entry of a session folder.
#[derive(Clone, Debug)]
pub struct SessionItem {
    pub id: String,
    pub label: String,
    /// `folder` or `file`.
    pub item_type: String,
}

/// The mathematical content of a [`SessionItem`].
pub struct SessionItemModel {
    pub id: Seq<char>,
    pub label: Seq<char>,
    pub item_type: Seq<char>,
}

impl DeepView for SessionItem {
    type V = SessionItemModel;

    open spec fn deep_view(&self) -> SessionItemModel {
        SessionItemModel { id: self.id@, label: self.label@, item_type: self.item_type@ }
    }
}

/// The document that the source application says is open.
#[derive(Clone, Debug)]
pub struct SessionReply {
    /// The path of the document.
    pub path: String,
    /// The name of the session: the document's name without its extension.
    pub name: String,
}

/// Why the source application named no session.
#[derive(Clone, Debug)]
pub enum SessionLookupError {
    /// No document is open.
    NoSession,
    /// The application does not run.
    NotRunning,
    /// The application reported an error.
    Script { message: String },
    /// The answer does not have the form of path, bar and name.
    InvalidFormat,
}

/// The mathematical content of what [`parse_session_reply`] gives.
pub enum SessionReplyModel {
    Found { path: Seq<char>, name: Seq<char> },
    NoSession,
    NotRunning,
    Script { message: Seq<char> },
    InvalidFormat,
}

/// The content of `reply`.
pub open spec fn reply_model(reply: Result<SessionReply, SessionLookupError>) -> SessionReplyModel {
    match reply {
        Ok(found) => SessionReplyModel::Found { path: found.path@, name: found.name@ },
        Err(SessionLookupError::NoSession) => SessionReplyModel::NoSession,
        Err(SessionLookupError::NotRunning) => SessionReplyModel::NotRunning,
        Err(SessionLookupError::Script { message }) => SessionReplyModel::Script {
            message: message@,
        },
        Err(SessionLookupError::InvalidFormat) => SessionReplyModel::InvalidFormat,
    }
}

/// The extension of a session's document.
pub const SESSION_DOCUMENT: &'static str = ".cosessiondb";

/// The extension of a catalog.
pub const CATALOG_DOCUMENT: &'static str = ".cocatalog";

/// What stands in `answer` after its first bar, up to the next; nothing if
/// it holds no bar.
pub open spec fn second_field(answer: Seq<char>) -> Option<Seq<char>> {
    let bar = first_index_of(answer, '|');
    if bar < answer.len() {
        Some(up_to(answer.skip(bar + 1), '|'))
    } else {
        None
    }
}

/// The name of the session whose document is called `document`.
pub open spec fn session_name_of(document: Seq<char>) -> Seq<char> {
    without_suffix_run(without_suffix_run(document, SESSION_DOCUMENT@), CATALOG_DOCUMENT@)
}

/// What an answer of the source application means. Its fields are parted
/// by bars. A first field of `NO_SESSION`, `NOT_RUNNING` or `ERROR` tells
/// why there is no session, the error with the second field as its message;
/// any other first field is the document's path, and the second field its
/// name.
pub open spec fn answer_meaning(answer: Seq<char>) -> SessionReplyModel {
    let first = up_to(answer, '|');
    if first == "NO_SESSION"@ {
        SessionReplyModel::NoSession
    } else if first == "NOT_RUNNING"@ {
        SessionReplyModel::NotRunning
    } else if first == "ERROR"@ {
        SessionReplyModel::Script {
            message: match second_field(answer) {
                Some(message) => message,
                None => "Unknown error"@,
            },
        }
    } else {
        match second_field(answer) {
            Some(document) => SessionReplyModel::Found {
                path: first,
                name: session_name_of(document),
            },
            None => SessionReplyModel::InvalidFormat,
        }
    }
}

/// Reads an answer of the source application that has no white space
/// around it.
pub fn read_session_answer(answer: &str) -> (reply: Result<SessionReply, SessionLookupError>)
    ensures
        reply_model(reply) == answer_meaning(answer@),
{
    let chars = chars_of(answer);
    let first = segment_from(&chars, 0, '|');
    assert(chars@.skip(0) =~= chars@);
    proof {
        lemma_first_index_of(chars@, '|');
    }
    let second: Option<Vec<char>> = if first.len() < chars.len() {
        Some(segment_from(&chars, first.len() + 1, '|'))
    } else {
        None
    };
    let first_text = string_of(&first);
    if same_text(first_text.as_str(), "NO_SESSION") {
        Err(SessionLookupError::NoSession)
    } else if same_text(first_text.as_str(), "NOT_RUNNING") {
        Err(SessionLookupError::NotRunning)
    } else if same_text(first_text.as_str(), "ERROR") {
        let message = match second {
            Some(message) => string_of(&message),
            None => String::from_str("Unknown error"),
        };
        Err(SessionLookupError::Script { message })
    } else {
        match second {
            Some(mut document) => {
                strip_suffix_run(&mut document, &chars_of(SESSION_DOCUMENT));
                strip_suffix_run(&mut document, &chars_of(CATALOG_DOCUMENT));
                Ok(SessionReply { path: first_text, name: string_of(&document) })
            },
            None => Err(SessionLookupError::InvalidFormat),
        }
    }
}

/// Reads what the source application wrote, white space around it set
/// aside.
pub fn parse_session_reply(output: &str) -> (reply: Result<SessionReply, SessionLookupError>)
    ensures
        reply_model(reply) == answer_meaning(trimmed_of(output@)),
{
    read_session_answer(trim(output))
}

/// The start of the message for an error that the application reported.
pub const SCRIPT_ERROR: &'static str = "Capture One error: ";

impl SessionLookupError {
    /// The error in words.
    pub fn message(&self) -> (text: String)
        ensures
            text@ == match *self {
                SessionLookupError::NoSession => "No active Capture One session"@,
                SessionLookupError::NotRunning => "Capture One is not running"@,
                SessionLookupError::Script { message } => SCRIPT_ERROR@ + message@,
                SessionLookupError::InvalidFormat => "Invalid session response format"@,
            },
    {
        match self {
            SessionLookupError::NoSession => String::from_str("No active Capture One session"),
            SessionLookupError::NotRunning => String::from_str("Capture One is not running"),
            SessionLookupError::Script { message } => {
                let mut text = String::from_str(SCRIPT_ERROR);
                text.append(message.as_str());
                text
            },
            SessionLookupError::InvalidFormat => String::from_str(
                "Invalid session response format",
            ),
        }
    }
}

/// The folder in which the session of the document at `path` is looked
/// for: the document itself where it is a folder; else the folder that
/// holds it, which is `parent`, or the path itself where it has none.
pub open spec fn base_folder(path: Seq<char>, is_folder: bool, parent: Option<Seq<char>>) -> Seq<
    char,
> {
    if is_folder {
        path
    } else {
        match parent {
            Some(folder) => folder,
            None => path,
        }
    }
}

/// The folder in which the session of the document at `path` is looked
/// for, `parent` being the folder that holds the document.
pub fn choose_base_folder(path: &str, is_folder: bool, parent: Option<String>) -> (folder: String)
    ensures
        folder@ == base_folder(path@, is_folder, parent.deep_view()),
{
    if is_folder {
        String::from_str(path)
    } else {
        match parent {
            Some(folder) => folder,
            None => String::from_str(path),
        }
    }
}

/// The folder in which the session of the document at `path` is looked
/// for. A document that is a folder is its own session folder; for any
/// other the platform says which folder holds it.
pub fn session_base_folder(path: &str, is_folder: bool) -> (folder: String)
    ensures
        is_folder ==> folder@ == path@,
        exists|parent: Option<Seq<char>>| folder@ == base_folder(path@, is_folder, parent),
{
    let parent = parent_folder(path);
    choose_base_folder(path, is_folder, parent)
}

/// The folder to look at before `folder` is taken for the session called
/// `session_name`: where `folder` is not itself called so, the folder of
/// that name below it. `folder_name` is the last component of `folder`; a
/// folder without one counts as having an empty name.
pub open spec fn named_subfolder(
    folder: Seq<char>,
    folder_name: Option<Seq<char>>,
    session_name: Seq<char>,
) -> Option<Seq<char>> {
    let own_name = match folder_name {
        Some(name) => name,
        None => Seq::empty(),
    };
    if own_name != session_name {
        Some(session_folder(folder, session_name))
    } else {
        None
    }
}

/// The folder below `folder` that may hold the session, if `folder` does
/// not bear the session's name already.
pub fn choose_named_subfolder(
    folder: &str,
    folder_name: Option<String>,
    session_name: &str,
) -> (candidate: Option<String>)
    ensures
        candidate.deep_view() == named_subfolder(folder@, folder_name.deep_view(), session_name@),
{
    let differs = match folder_name {
        Some(name) => !same_text(name.as_str(), session_name),
        None => !same_text("", session_name),
    };
    proof {
        reveal_strlit("");
        assert(""@ =~= Seq::<char>::empty());
    }
    if differs {
        Some(session_folder_of(folder, session_name))
    } else {
        None
    }
}

/// The folder below `folder` that may hold the session. The caller looks
/// whether it is there and, if so, takes it for the session folder.
pub fn session_subfolder(folder: &str, session_name: &str) -> (candidate: Option<String>)
    ensures
        exists|folder_name: Option<Seq<char>>|
            candidate.deep_view() == named_subfolder(folder@, folder_name, session_name@),
        candidate matches Some(path) ==> path@ == session_folder(folder@, session_name@),
{
    let folder_name = final_component(folder);
    choose_named_subfolder(folder, folder_name, session_name)
}

/// Whether `name` is one of the folders that every session has.
pub open spec fn is_standard_folder(name: Seq<char>) -> bool {
    name == "Capture"@ || name == "Selects"@ || name == "Output"@ || name == "Trash"@
}

/// The entry of `directory` called `name`, as it is listed: a folder, one
/// of the standard names, or a session document; nothing else is listed.
pub open spec fn listed_item(directory: Seq<char>, name: Seq<char>, is_folder: bool) -> Option<
    SessionItemModel,
> {
    if is_standard_folder(name) || has_suffix(name, SESSION_DOCUMENT@) || is_folder {
        Some(
            SessionItemModel {
                id: directory + "/"@ + name,
                label: name,
                item_type: if is_folder {
                    "folder"@
                } else {
                    "file"@
                },
            },
        )
    } else {
        None
    }
}

/// The entry of `directory` called `name`, if it is listed.
pub fn session_item(directory: &str, name: String, is_folder: bool) -> (item: Option<SessionItem>)
    ensures
        item.deep_view() == listed_item(directory@, name@, is_folder),
{
    let standard = same_text(name.as_str(), "Capture") || same_text(name.as_str(), "Selects")
        || same_text(name.as_str(), "Output") || same_text(name.as_str(), "Trash");
    let document = ends_with_chars(&chars_of(name.as_str()), &chars_of(SESSION_DOCUMENT));
    if standard || document || is_folder {
        let mut id = String::from_str(directory);
        id.append("/");
        id.append(name.as_str());
        let item_type = if is_folder {
            String::from_str("folder")
        } else {
            String::from_str("file")
        };
        Some(SessionItem { id, label: name, item_type })
    } else {
        None
    }
}

/// The kilobytes that the disk-usage tool reports: the number that the
/// first word of its output spells, held at the largest `u64`; zero where
/// the first word is no whole number.
pub open spec fn reported_kilobytes(first: Option<Seq<char>>) -> nat {
    match first {
        Some(word) => match decimal_value(word) {
            Some(value) => saturated(value),
            None => 0,
        },
        None => 0,
    }
}

/// A size of `kilobytes` kilobytes as text: in GB with two decimals above a
/// gigabyte, in MB with two decimals above a megabyte, else in whole KB.
pub open spec fn size_label(kilobytes: nat) -> Seq<char> {
    if kilobytes > MB {
        two_decimals(rounded_hundredths(kilobytes, MB as nat)) + " GB"@
    } else if kilobytes > KB {
        two_decimals(rounded_hundredths(kilobytes, KB as nat)) + " MB"@
    } else {
        decimal_digits(kilobytes) + " KB"@
    }
}

/// The kilobytes that the first word of the disk-usage tool's output
/// spells.
pub fn kilobytes_from(first: &Option<String>) -> (kilobytes: u64)
    ensures
        kilobytes == reported_kilobytes(first.deep_view()),
{
    match first {
        Some(word) => match parse_decimal(word.as_str()) {
            Some(value) => value,
            None => 0,
        },
        None => 0,
    }
}

/// A size in kilobytes as text.
pub fn format_kilobytes(kilobytes: u64) -> (text: String)
    ensures
        text@ == size_label(kilobytes as nat),
{
    let mut digits: Vec<char> = Vec::new();
    let unit_name: &str = if kilobytes > MB {
        push_scaled(&mut digits, kilobytes, MB);
        " GB"
    } else if kilobytes > KB {
        push_scaled(&mut digits, kilobytes, KB);
        " MB"
    } else {
        push_decimal(&mut digits, kilobytes);
        " KB"
    };
    let mut text = string_of(&digits);
    text.append(unit_name);
    text
}

/// The size of a folder as text, from what the disk-usage tool wrote when
/// asked for the size in kilobytes.
pub fn folder_size_label(output: &str) -> (text: String)
    ensures
        text@ == size_label(reported_kilobytes(first_word_of(output@))),
{
    let first = first_word(output);
    format_kilobytes(kilobytes_from(&first))
}

/// The extensions of the files that count as images, in lowercase.
pub open spec fn image_extensions() -> Seq<Seq<char>> {
    seq![
        "cr3"@,
        "cr2"@,
        "nef"@,
        "arw"@,
        "raf"@,
        "dng"@,
        "iiq"@,
        "eip"@,
        "jpg"@,
        "jpeg"@,
        "tif"@,
        "tiff"@,
        "mos"@,
        "3fr"@,
        "ari"@,
        "sr2"@,
        "srf"@,
        "rw2"@,
    ]
}

/// The extensions of the files that count as images.
fn known_extensions() -> (known: Vec<&'static str>)
    ensures
        known.deep_view() == image_extensions(),
{
    let known = vec![
        "cr3",
        "cr2",
        "nef",
        "arw",
        "raf",
        "dng",
        "iiq",
        "eip",
        "jpg",
        "jpeg",
        "tif",
        "tiff",
        "mos",
        "3fr",
        "ari",
        "sr2",
        "srf",
        "rw2",
    ];
    known
}

/// Whether an extension in lowercase is that of an image.
pub fn is_image_extension(lowered: &str) -> (image: bool)
    ensures
        image == image_extensions().contains(lowered@),
{
    let known = known_extensions();
    let mut i: usize = 0;
    while i < known.len()
        invariant
            i <= known.len(),
            known.deep_view() == image_extensions(),
            forall|j: int| 0 <= j < i ==> image_extensions()[j] != lowered@,
        decreases known.len() - i,
    {
        if same_text(known[i], lowered) {
            return true;
        }
        i = i + 1;
    }
    false
}

/// Whether a file with the extension `extension` counts as an image: its
/// lowercase form is one of the image extensions.
pub fn counts_as_image(extension: &str) -> (image: bool)
    ensures
        image == image_extensions().contains(lowercase_of(extension@)),
{
    let lowered = to_lowercase(extension);
    is_image_extension(lowered.as_str())
}

/// How many of `extensions`, the extensions of the files of a folder, are
/// those of images.
pub open spec fn image_count_of(extensions: Seq<Seq<char>>) -> nat
    decreases extensions.len(),
{
    if extensions.len() == 0 {
        0
    } else {
        image_count_of(extensions.drop_last()) + if image_extensions().contains(
            lowercase_of(extensions.last()),
        ) {
            1nat
        } else {
            0nat
        }
    }
}

/// How many of the files with the extensions `extensions` are images; the
/// count is held at the largest `u32`.
pub fn count_images(extensions: &Vec<String>) -> (count: u32)
    ensures
        count == if image_count_of(extensions.deep_view()) > u32::MAX {
            u32::MAX as nat
        } else {
            image_count_of(extensions.deep_view())
        },
{
    let mut count: u32 = 0;
    let mut i: usize = 0;
    while i < extensions.len()
        invariant
            i <= extensions.len(),
            count == if image_count_of(extensions.deep_view().take(i as int)) > u32::MAX {
                u32::MAX as nat
            } else {
                image_count_of(extensions.deep_view().take(i as int))
            },
        decreases extensions.len() - i,
    {
        let ghost all = extensions.deep_view();
        assert(all.take(i + 1).drop_last() =~= all.take(i as int));
        if counts_as_image(extensions[i].as_str()) && count < u32::MAX {
            count = count + 1;
        }
        i = i + 1;
    }
    assert(extensions.deep_view().take(extensions.len() as int) =~= extensions.deep_view());
    count
}

} // verus!
