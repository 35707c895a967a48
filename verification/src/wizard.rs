//! The choices that the setup makes besides the schedule, and its errors.

use vstd::prelude::*;
use crate::text::str_eq;

verus! {

/// `std::io::Error`, the error with which std reports that a file could not
/// be read or written. It is carried as it is: nothing is said of what it
/// holds.
#[verifier::external_type_specification]
#[verifier::external_body]
pub struct ExIoError(std::io::Error);

/// `std::num::ParseIntError`, the error with which std reports that a text
/// is no number. It is carried as it is: nothing is said of what it holds.
#[verifier::external_type_specification]
#[verifier::external_body]
pub struct ExParseIntError(std::num::ParseIntError);

/// What can go wrong while the setup is read or written.
#[derive(Debug)]
pub enum MTError {
    FileError(std::io::Error),
    ParseError(std::num::ParseIntError),
    InvalidInput(String),
}

impl From<std::io::Error> for MTError {
    /// The error of a file that could not be read or written.
    fn from(error: std::io::Error) -> (e: MTError)
        ensures
            e == MTError::FileError(error),
    {
        MTError::FileError(error)
    }
}

impl vstd::std_specs::convert::FromSpecImpl<std::io::Error> for MTError {
    open spec fn obeys_from_spec() -> bool {
        true
    }

    open spec fn from_spec(error: std::io::Error) -> MTError {
        MTError::FileError(error)
    }
}

impl From<std::num::ParseIntError> for MTError {
    /// The error of a text that is no number.
    fn from(error: std::num::ParseIntError) -> (e: MTError)
        ensures
            e == MTError::ParseError(error),
    {
        MTError::ParseError(error)
    }
}

impl vstd::std_specs::convert::FromSpecImpl<std::num::ParseIntError> for MTError {
    open spec fn obeys_from_spec() -> bool {
        true
    }

    open spec fn from_spec(error: std::num::ParseIntError) -> MTError {
        MTError::ParseError(error)
    }
}

/// The kind of thing that is played.
#[derive(Clone, Copy, Debug, PartialEq, Eq, Structural)]
pub enum ProcType {
    Video,
    Audio,
    Image,
    Slideshow,
    Browser,
    Executable,
}

/// Whether what is played starts again when it has ended.
#[derive(Clone, Copy, Debug, PartialEq, Eq, Structural)]
pub enum Autoloop {
    Yes,
    No,
}

/// Whether a weekly schedule is used.
#[derive(Clone, Copy, Debug, PartialEq, Eq, Structural)]
pub enum AdvancedSchedule {
    Yes,
    No,
}

/// Whether the machine is restarted when the setup is done.
#[derive(Clone, Copy, Debug, PartialEq, Eq, Structural)]
pub enum Reboot {
    Yes,
    No,
}

/// The name of a kind of thing that is played.
pub open spec fn proc_type_name(proc_type: ProcType) -> Seq<char> {
    match proc_type {
        ProcType::Video => "Video"@,
        ProcType::Audio => "Audio"@,
        ProcType::Image => "Image"@,
        ProcType::Slideshow => "Slideshow"@,
        ProcType::Browser => "Browser"@,
        ProcType::Executable => "Executable"@,
    }
}

/// The word by which a kind of thing that is played is kept.
pub open spec fn proc_type_value(proc_type: ProcType) -> Seq<char> {
    match proc_type {
        ProcType::Video => "video"@,
        ProcType::Audio => "audio"@,
        ProcType::Image => "image"@,
        ProcType::Slideshow => "slideshow"@,
        ProcType::Browser => "browser"@,
        ProcType::Executable => "executable"@,
    }
}

/// The kind that is kept by the word `value`; video for any other word.
pub open spec fn proc_type_of_value(value: Seq<char>) -> ProcType {
    if value == "audio"@ {
        ProcType::Audio
    } else if value == "image"@ {
        ProcType::Image
    } else if value == "slideshow"@ {
        ProcType::Slideshow
    } else if value == "browser"@ {
        ProcType::Browser
    } else if value == "executable"@ {
        ProcType::Executable
    } else {
        ProcType::Video
    }
}

/// The word for yes or no.
pub open spec fn yes_no(yes: bool) -> Seq<char> {
    if yes {
        "Yes"@
    } else {
        "No"@
    }
}

impl ProcType {
    /// The name of the kind.
    pub fn as_str(&self) -> (name: &'static str)
        ensures
            name@ == proc_type_name(*self),
    {
        match self {
            ProcType::Video => "Video",
            ProcType::Audio => "Audio",
            ProcType::Image => "Image",
            ProcType::Slideshow => "Slideshow",
            ProcType::Browser => "Browser",
            ProcType::Executable => "Executable",
        }
    }

    /// The name of the kind.
    pub fn to_string(&self) -> (name: String)
        ensures
            name@ == proc_type_name(*self),
    {
        self.as_str().to_owned()
    }

    /// The word by which the kind is kept.
    pub fn value(&self) -> (word: &'static str)
        ensures
            word@ == proc_type_value(*self),
    {
        match self {
            ProcType::Video => "video",
            ProcType::Audio => "audio",
            ProcType::Image => "image",
            ProcType::Slideshow => "slideshow",
            ProcType::Browser => "browser",
            ProcType::Executable => "executable",
        }
    }

    /// The kind that is kept by the word `value`; video for any other
    /// word.
    pub fn from_value(value: &str) -> (proc_type: ProcType)
        ensures
            proc_type == proc_type_of_value(value@),
    {
        if str_eq(value, "audio") {
            ProcType::Audio
        } else if str_eq(value, "image") {
            ProcType::Image
        } else if str_eq(value, "slideshow") {
            ProcType::Slideshow
        } else if str_eq(value, "browser") {
            ProcType::Browser
        } else if str_eq(value, "executable") {
            ProcType::Executable
        } else {
            ProcType::Video
        }
    }
}

impl Autoloop {
    /// Yes for the word `true`, no for any other.
    pub fn from_value(value: &str) -> (choice: Autoloop)
        ensures
            choice == if value@ == "true"@ {
                Autoloop::Yes
            } else {
                Autoloop::No
            },
    {
        if str_eq(value, "true") {
            Autoloop::Yes
        } else {
            Autoloop::No
        }
    }

    /// The word for the choice.
    pub fn to_string(&self) -> (name: String)
        ensures
            name@ == yes_no(*self == Autoloop::Yes),
    {
        match self {
            Autoloop::Yes => "Yes".to_owned(),
            Autoloop::No => "No".to_owned(),
        }
    }
}

impl AdvancedSchedule {
    /// Yes for the word `true`, no for any other.
    pub fn from_value(value: &str) -> (choice: AdvancedSchedule)
        ensures
            choice == if value@ == "true"@ {
                AdvancedSchedule::Yes
            } else {
                AdvancedSchedule::No
            },
    {
        if str_eq(value, "true") {
            AdvancedSchedule::Yes
        } else {
            AdvancedSchedule::No
        }
    }

    /// The word for the choice.
    pub fn to_string(&self) -> (name: String)
        ensures
            name@ == yes_no(*self == AdvancedSchedule::Yes),
    {
        match self {
            AdvancedSchedule::Yes => "Yes".to_owned(),
            AdvancedSchedule::No => "No".to_owned(),
        }
    }
}

impl Reboot {
    /// The word for the choice.
    pub fn to_string(&self) -> (name: String)
        ensures
            name@ == yes_no(*self == Reboot::Yes),
    {
        match self {
            Reboot::Yes => "Yes".to_owned(),
            Reboot::No => "No".to_owned(),
        }
    }
}

/// Takes a message for the log. Nothing is recorded: the message is
/// dropped.
pub fn log_info(message: &str) {
}

/// Takes a warning for the log. Nothing is recorded: the message is
/// dropped.
pub fn log_warn(message: &str) {
}

/// Takes an error message for the log. Nothing is recorded: the message is
/// dropped.
pub fn log_error(message: &str) {
}

} // verus!
