//! The error type of the library.

use vstd::prelude::*;
use vstd::std_specs::convert::FromSpecImpl;
use vstd::string::StringExecFns;

verus! {

/// What can go wrong while driving a button grid.
#[derive(Debug, PartialEq, Eq)]
pub enum Error {
    /// The requested device was not found.
    DeviceNotFound,
    /// Communicating with the device failed.
    DeviceError(String),
    /// A cell could not be rendered.
    RenderError(String),
    /// A button index lies outside the grid.
    ButtonIndexOutOfBounds(usize),
    /// The device driver reported a failure; the text is the driver's own.
    ElgatoError(String),
    /// Image processing failed.
    ImageError(String),
    /// An input or output operation failed; the text is the system's own.
    IoError(String),
    /// Any other failure, with its message.
    Custom(String),
}

/// The decimal digit `d` as a character.
pub open spec fn digit_char(d: nat) -> char
    recommends
        d < 10,
{
    if d == 0 {
        '0'
    } else if d == 1 {
        '1'
    } else if d == 2 {
        '2'
    } else if d == 3 {
        '3'
    } else if d == 4 {
        '4'
    } else if d == 5 {
        '5'
    } else if d == 6 {
        '6'
    } else if d == 7 {
        '7'
    } else if d == 8 {
        '8'
    } else {
        '9'
    }
}

/// The decimal numeral of `n`, without leading zeros.
pub open spec fn decimal(n: nat) -> Seq<char>
    decreases n,
{
    if n < 10 {
        seq![digit_char(n)]
    } else {
        decimal(n / 10).push(digit_char(n % 10))
    }
}

/// The one-character string of the digit `d`.
fn digit_str(d: usize) -> (s: &'static str)
    requires
        d < 10,
    ensures
        s@ == seq![digit_char(d as nat)],
{
    proof {
        reveal_strlit("0");
        reveal_strlit("1");
        reveal_strlit("2");
        reveal_strlit("3");
        reveal_strlit("4");
        reveal_strlit("5");
        reveal_strlit("6");
        reveal_strlit("7");
        reveal_strlit("8");
        reveal_strlit("9");
    }
    let s = if d == 0 {
        "0"
    } else if d == 1 {
        "1"
    } else if d == 2 {
        "2"
    } else if d == 3 {
        "3"
    } else if d == 4 {
        "4"
    } else if d == 5 {
        "5"
    } else if d == 6 {
        "6"
    } else if d == 7 {
        "7"
    } else if d == 8 {
        "8"
    } else {
        "9"
    };
    assert(s@ =~= seq![digit_char(d as nat)]);
    s
}

/// Writes `n` as a decimal numeral.
pub fn decimal_string(n: usize) -> (s: String)
    ensures
        s@ == decimal(n as nat),
    decreases n,
{
    if n < 10 {
        String::from_str(digit_str(n))
    } else {
        let mut s = decimal_string(n / 10);
        s.append(digit_str(n % 10));
        assert(s@ =~= decimal(n as nat));
        s
    }
}

impl Error {
    /// The text that describes this error.
    pub open spec fn message(self) -> Seq<char> {
        match self {
            Error::DeviceNotFound => "Stream Deck device not found"@,
            Error::DeviceError(msg) => "Device error: "@ + msg@,
            Error::RenderError(msg) => "Render error: "@ + msg@,
            Error::ButtonIndexOutOfBounds(index) => "Button index "@ + decimal(index as nat)
                + " is out of bounds"@,
            Error::ElgatoError(msg) => "Elgato Stream Deck error: "@ + msg@,
            Error::ImageError(msg) => "Image error: "@ + msg@,
            Error::IoError(msg) => "I/O error: "@ + msg@,
            Error::Custom(msg) => msg@,
        }
    }

    /// Whether this is the error without a kind of its own whose message is `text`.
    pub open spec fn is_custom(self, text: Seq<char>) -> bool {
        self matches Error::Custom(msg) && msg@ == text
    }

    /// Describes this error in words.
    pub fn to_string(&self) -> (text: String)
        ensures
            text@ == self.message(),
    {
        match self {
            Error::DeviceNotFound => String::from_str("Stream Deck device not found"),
            Error::DeviceError(msg) => String::from_str("Device error: ").concat(msg.as_str()),
            Error::RenderError(msg) => String::from_str("Render error: ").concat(msg.as_str()),
            Error::ButtonIndexOutOfBounds(index) => {
                let number = decimal_string(*index);
                String::from_str("Button index ").concat(number.as_str()).concat(
                    " is out of bounds",
                )
            },
            Error::ElgatoError(msg) => String::from_str("Elgato Stream Deck error: ").concat(
                msg.as_str(),
            ),
            Error::ImageError(msg) => String::from_str("Image error: ").concat(msg.as_str()),
            Error::IoError(msg) => String::from_str("I/O error: ").concat(msg.as_str()),
            Error::Custom(msg) => msg.clone(),
        }
    }
}

impl From<String> for Error {
    fn from(msg: String) -> (error: Self) {
        Error::Custom(msg)
    }
}

impl FromSpecImpl<String> for Error {
    open spec fn obeys_from_spec() -> bool {
        true
    }

    open spec fn from_spec(msg: String) -> Self {
        Error::Custom(msg)
    }
}

impl From<&str> for Error {
    fn from(msg: &str) -> (error: Self)
        ensures
            error matches Error::Custom(text) && text@ == msg@,
    {
        Error::Custom(String::from_str(msg))
    }
}

impl FromSpecImpl<&str> for Error {
    /// No string value can be named from a slice alone, so the conversion is
    /// stated on `from` itself, over the views.
    open spec fn obeys_from_spec() -> bool {
        false
    }

    open spec fn from_spec(msg: &str) -> Self {
        arbitrary()
    }
}

/// The result type of the library's fallible operations.
pub type Result<T> = std::result::Result<T, Error>;

} // verus!
