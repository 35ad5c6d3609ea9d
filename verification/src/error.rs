//! Errors of CUDA, NVCUVID, NVENC and of this library itself.

use vstd::prelude::*;

use crate::sys;

verus! {

/// A piece of text in an error.
#[derive(Debug)]
pub enum Text {
    /// A text known when the library was built.
    Static(&'static str),
    /// A text that the driver supplied.
    Owned(String),
    /// The report that a stream needs more decode surfaces than the configured limit.
    SurfaceLimit { min: u32, max: u32 },
}

/// The decimal digit `d`.
pub open spec fn digit(d: nat) -> char {
    (48 + d) as char
}

/// `n` written in decimal.
pub open spec fn decimal(n: nat) -> Seq<char>
    decreases n,
{
    if n < 10 {
        seq![digit(n)]
    } else {
        decimal(n / 10).push(digit(n % 10))
    }
}

impl View for Text {
    type V = Seq<char>;

    open spec fn view(&self) -> Seq<char> {
        match *self {
            Text::Static(text) => text@,
            Text::Owned(text) => text@,
            Text::SurfaceLimit { min, max } => "min_num_decode_surfaces ("@ + decimal(min as nat)
                + ") exceeds max_num_decode_surfaces ("@ + decimal(max as nat) + ")"@,
        }
    }
}

impl Clone for Text {
    fn clone(&self) -> (copy: Self)
        ensures
            copy@ == self@,
    {
        match self {
            Text::Static(text) => Text::Static(text),
            Text::Owned(text) => Text::Owned(text.clone()),
            Text::SurfaceLimit { min, max } => Text::SurfaceLimit { min: *min, max: *max },
        }
    }
}

fn digit_text(d: u32) -> (text: &'static str)
    requires
        d < 10,
    ensures
        text@ == seq![digit(d as nat)],
{
    proof {
        reveal_strlit("0");
        reveal_strlit("1");
        reveal_strlit("2");
        reveal_strlit("3");
        reveal_strlit("4");
        reveal_strlit("5");
        reveal_strlit("6");
        reveal_strlit("7");
        reveal_strlit("8");
        reveal_strlit("9");
    }
    match d {
        0 => "0",
        1 => "1",
        2 => "2",
        3 => "3",
        4 => "4",
        5 => "5",
        6 => "6",
        7 => "7",
        8 => "8",
        _ => "9",
    }
}

fn append_decimal(out: &mut String, n: u32)
    ensures
        final(out)@ == old(out)@ + decimal(n as nat),
    decreases n,
{
    if n >= 10 {
        append_decimal(out, n / 10);
    }
    out.append(digit_text(n % 10));
}

fn append_text(out: &mut String, text: &Text)
    ensures
        final(out)@ == old(out)@ + text@,
{
    match text {
        Text::Static(s) => out.append(s),
        Text::Owned(s) => out.append(s.as_str()),
        Text::SurfaceLimit { min, max } => {
            out.append("min_num_decode_surfaces (");
            append_decimal(out, *min);
            out.append(") exceeds max_num_decode_surfaces (");
            append_decimal(out, *max);
            out.append(")");
        },
    }
}

/// What went wrong, and where.
#[derive(Debug)]
pub struct Error {
    /// Name of the function that failed.
    pub function: &'static str,
    /// Status code of the CUDA or NVENC call, if one was made.
    pub status_code: Option<u32>,
    /// Name of the status code.
    pub status_name: Option<Text>,
    /// Description of what happened.
    pub status_message: Option<Text>,
}

/// The characters of an optional text.
pub open spec fn optional_chars(text: Option<Text>) -> Option<Seq<char>> {
    match text {
        Some(text) => Some(text@),
        None => None,
    }
}

/// What an [`Error`] says.
#[verifier::ext_equal]
pub struct ErrorView {
    pub function: Seq<char>,
    pub status_code: Option<u32>,
    pub status_name: Option<Seq<char>>,
    pub status_message: Option<Seq<char>>,
}

impl View for Error {
    type V = ErrorView;

    open spec fn view(&self) -> ErrorView {
        ErrorView {
            function: self.function@,
            status_code: self.status_code,
            status_name: optional_chars(self.status_name),
            status_message: optional_chars(self.status_message),
        }
    }
}

/// The error of a function of this library.
pub open spec fn custom(function: &'static str, message: &'static str) -> Error {
    Error {
        function,
        status_code: None,
        status_name: None,
        status_message: Some(Text::Static(message)),
    }
}

/// Name of an NVENC status code.
pub open spec fn nvenc_name(status: u32) -> Option<Text> {
    match nvenc_status_text(status) {
        Some((name, _)) => Some(Text::Static(name)),
        None => None,
    }
}

/// Description of an NVENC status code.
pub open spec fn nvenc_message(status: u32) -> Option<Text> {
    match nvenc_status_text(status) {
        Some((_, message)) => Some(Text::Static(message)),
        None => None,
    }
}

/// Name and description of each NVENC status code.
pub open spec fn nvenc_status_text(status: u32) -> Option<(&'static str, &'static str)> {
    if status == 1 {
        Some(("NV_ENC_ERR_NO_ENCODE_DEVICE", "No encode capable devices were detected"))
    } else if status == 2 {
        Some(("NV_ENC_ERR_UNSUPPORTED_DEVICE", "The device passed by the client is not supported"))
    } else if status == 3 {
        Some(("NV_ENC_ERR_INVALID_ENCODERDEVICE", "The encoder device supplied by the client is not valid"))
    } else if status == 4 {
        Some(("NV_ENC_ERR_INVALID_DEVICE", "The device passed to the API call is invalid"))
    } else if status == 5 {
        Some(("NV_ENC_ERR_DEVICE_NOT_EXIST", "The device passed to the API call is no longer available"))
    } else if status == 6 {
        Some(("NV_ENC_ERR_INVALID_PTR", "One or more of the pointers passed to the API call is invalid"))
    } else if status == 7 {
        Some(("NV_ENC_ERR_INVALID_EVENT", "The completion event passed to the API call is invalid"))
    } else if status == 8 {
        Some(("NV_ENC_ERR_INVALID_PARAM", "One or more of the parameter passed to the API call is invalid"))
    } else if status == 9 {
        Some(("NV_ENC_ERR_INVALID_CALL", "An API call was made in wrong sequence or order"))
    } else if status == 10 {
        Some(("NV_ENC_ERR_OUT_OF_MEMORY", "The API call was unable to allocate enough memory"))
    } else if status == 11 {
        Some(("NV_ENC_ERR_ENCODER_NOT_INITIALIZED", "The encoder has not been initialized"))
    } else if status == 12 {
        Some(("NV_ENC_ERR_UNSUPPORTED_PARAM", "An unsupported parameter was passed by the client"))
    } else if status == 13 {
        Some(("NV_ENC_ERR_LOCK_BUSY", "The output buffer could not be locked"))
    } else if status == 14 {
        Some(("NV_ENC_ERR_NOT_ENOUGH_BUFFER", "The size of the user buffer is insufficient"))
    } else if status == 15 {
        Some(("NV_ENC_ERR_INVALID_VERSION", "An invalid struct version was used by the client"))
    } else if status == 16 {
        Some(("NV_ENC_ERR_MAP_FAILED", "The client provided input resource could not be mapped"))
    } else if status == 17 {
        Some(("NV_ENC_ERR_NEED_MORE_INPUT", "The encode driver requires more input buffers"))
    } else if status == 18 {
        Some(("NV_ENC_ERR_ENCODER_BUSY", "The hardware encoder is busy encoding"))
    } else if status == 19 {
        Some(("NV_ENC_ERR_EVENT_NOT_REGISTERD", "The completion event has not been registered"))
    } else if status == 20 {
        Some(("NV_ENC_ERR_GENERIC", "An unknown internal error has occurred"))
    } else if status == 21 {
        Some(("NV_ENC_ERR_INCOMPATIBLE_CLIENT_KEY", "The feature is not available for the license type"))
    } else if status == 22 {
        Some(("NV_ENC_ERR_UNIMPLEMENTED", "The feature is not implemented for the current version"))
    } else if status == 23 {
        Some(("NV_ENC_ERR_RESOURCE_REGISTER_FAILED", "The resource could not be registered"))
    } else if status == 24 {
        Some(("NV_ENC_ERR_RESOURCE_NOT_REGISTERED", "The resource has not been registered"))
    } else if status == 25 {
        Some(("NV_ENC_ERR_RESOURCE_NOT_MAPPED", "The resource has not been mapped"))
    } else if status == 26 {
        Some(("NV_ENC_ERR_NEED_MORE_OUTPUT", "The encode driver requires more output buffers"))
    } else {
        None
    }
}

fn find_nvenc_status_text(status: u32) -> (text: Option<(&'static str, &'static str)>)
    ensures
        text == nvenc_status_text(status),
{
    match status {
        1 => Some(("NV_ENC_ERR_NO_ENCODE_DEVICE", "No encode capable devices were detected")),
        2 => Some(("NV_ENC_ERR_UNSUPPORTED_DEVICE", "The device passed by the client is not supported")),
        3 => Some(("NV_ENC_ERR_INVALID_ENCODERDEVICE", "The encoder device supplied by the client is not valid")),
        4 => Some(("NV_ENC_ERR_INVALID_DEVICE", "The device passed to the API call is invalid")),
        5 => Some(("NV_ENC_ERR_DEVICE_NOT_EXIST", "The device passed to the API call is no longer available")),
        6 => Some(("NV_ENC_ERR_INVALID_PTR", "One or more of the pointers passed to the API call is invalid")),
        7 => Some(("NV_ENC_ERR_INVALID_EVENT", "The completion event passed to the API call is invalid")),
        8 => Some(("NV_ENC_ERR_INVALID_PARAM", "One or more of the parameter passed to the API call is invalid")),
        9 => Some(("NV_ENC_ERR_INVALID_CALL", "An API call was made in wrong sequence or order")),
        10 => Some(("NV_ENC_ERR_OUT_OF_MEMORY", "The API call was unable to allocate enough memory")),
        11 => Some(("NV_ENC_ERR_ENCODER_NOT_INITIALIZED", "The encoder has not been initialized")),
        12 => Some(("NV_ENC_ERR_UNSUPPORTED_PARAM", "An unsupported parameter was passed by the client")),
        13 => Some(("NV_ENC_ERR_LOCK_BUSY", "The output buffer could not be locked")),
        14 => Some(("NV_ENC_ERR_NOT_ENOUGH_BUFFER", "The size of the user buffer is insufficient")),
        15 => Some(("NV_ENC_ERR_INVALID_VERSION", "An invalid struct version was used by the client")),
        16 => Some(("NV_ENC_ERR_MAP_FAILED", "The client provided input resource could not be mapped")),
        17 => Some(("NV_ENC_ERR_NEED_MORE_INPUT", "The encode driver requires more input buffers")),
        18 => Some(("NV_ENC_ERR_ENCODER_BUSY", "The hardware encoder is busy encoding")),
        19 => Some(("NV_ENC_ERR_EVENT_NOT_REGISTERD", "The completion event has not been registered")),
        20 => Some(("NV_ENC_ERR_GENERIC", "An unknown internal error has occurred")),
        21 => Some(("NV_ENC_ERR_INCOMPATIBLE_CLIENT_KEY", "The feature is not available for the license type")),
        22 => Some(("NV_ENC_ERR_UNIMPLEMENTED", "The feature is not implemented for the current version")),
        23 => Some(("NV_ENC_ERR_RESOURCE_REGISTER_FAILED", "The resource could not be registered")),
        24 => Some(("NV_ENC_ERR_RESOURCE_NOT_REGISTERED", "The resource has not been registered")),
        25 => Some(("NV_ENC_ERR_RESOURCE_NOT_MAPPED", "The resource has not been mapped")),
        26 => Some(("NV_ENC_ERR_NEED_MORE_OUTPUT", "The encode driver requires more output buffers")),
        _ => None,
    }
}

/// The outcome of a CUDA or NVCUVID call that returned `status`, for which the driver has the
/// given name and description.
pub open spec fn cuda_outcome(
    status: u32,
    function: &'static str,
    name: Option<String>,
    message: Option<String>,
) -> Result<(), Error> {
    if status == sys::CUDA_SUCCESS {
        Ok(())
    } else {
        Err(
            Error {
                function,
                status_code: Some(status),
                status_name: match name {
                    Some(text) => Some(Text::Owned(text)),
                    None => None,
                },
                status_message: match message {
                    Some(text) => Some(Text::Owned(text)),
                    None => None,
                },
            },
        )
    }
}

/// The outcome of an NVENC call that returned `status`.
pub open spec fn nvenc_outcome(status: u32, function: &'static str) -> Result<(), Error> {
    if status == sys::NV_ENC_SUCCESS {
        Ok(())
    } else {
        Err(
            Error {
                function,
                status_code: Some(status),
                status_name: nvenc_name(status),
                status_message: nvenc_message(status),
            },
        )
    }
}

impl Error {
    /// The error of a function of this library.
    pub fn new_custom(function: &'static str, message: &'static str) -> (error: Self)
        ensures
            error == custom(function, message),
    {
        Error {
            function,
            status_code: None,
            status_name: None,
            status_message: Some(Text::Static(message)),
        }
    }

    /// Judges a CUDA or NVCUVID status code; `name` and `message` are what the driver says of it.
    pub fn check_cuda(
        status: u32,
        function: &'static str,
        name: Option<String>,
        message: Option<String>,
    ) -> (outcome: Result<(), Error>)
        ensures
            outcome == cuda_outcome(status, function, name, message),
    {
        if status == sys::CUDA_SUCCESS {
            return Ok(());
        }
        let status_name = match name {
            Some(text) => Some(Text::Owned(text)),
            None => None,
        };
        let status_message = match message {
            Some(text) => Some(Text::Owned(text)),
            None => None,
        };
        Err(Error { function, status_code: Some(status), status_name, status_message })
    }

    /// Judges an NVENC status code.
    pub fn check_nvenc(status: u32, function: &'static str) -> (outcome: Result<(), Error>)
        ensures
            outcome == nvenc_outcome(status, function),
    {
        if status == sys::NV_ENC_SUCCESS {
            return Ok(());
        }
        let (status_name, status_message) = match find_nvenc_status_text(status) {
            Some((name, message)) => (Some(Text::Static(name)), Some(Text::Static(message))),
            None => (None, None),
        };
        Err(Error { function, status_code: Some(status), status_name, status_message })
    }

    /// The error as a line of text.
    pub fn to_string(&self) -> (line: String)
        ensures
            line@ == rendered(self@),
    {
        let mut line = String::new();
        line.append(self.function);
        line.append("() failed");
        if let Some(code) = self.status_code {
            line.append("[status=");
            append_decimal(&mut line, code);
            line.append("]");
        }
        if let Some(message) = &self.status_message {
            line.append(": ");
            append_text(&mut line, message);
        }
        if let Some(name) = &self.status_name {
            line.append(" (");
            append_text(&mut line, name);
            line.append(")");
        }
        proof {
            assert(line@ =~= rendered(self@));
        }
        line
    }
}

impl Clone for Error {
    fn clone(&self) -> (copy: Self)
        ensures
            copy@ == self@,
    {
        let status_name = match &self.status_name {
            Some(text) => Some(text.clone()),
            None => None,
        };
        let status_message = match &self.status_message {
            Some(text) => Some(text.clone()),
            None => None,
        };
        Error { function: self.function, status_code: self.status_code, status_name, status_message }
    }
}

/// How an error reads: the function, the status code where there is one, the description, and
/// the name of the status code.
pub open spec fn rendered(error: ErrorView) -> Seq<char> {
    error.function + "() failed"@ + (match error.status_code {
        Some(code) => "[status="@ + decimal(code as nat) + "]"@,
        None => Seq::<char>::empty(),
    }) + (match error.status_message {
        Some(message) => ": "@ + message,
        None => Seq::<char>::empty(),
    }) + (match error.status_name {
        Some(name) => " ("@ + name + ")"@,
        None => Seq::<char>::empty(),
    })
}

/// Each status code of NVENC has the name and the description that NVENC has for it, and other
/// codes have neither.
pub proof fn nvenc_status_codes_are_named(status: u32)
    ensures
        nvenc_name(status) is Some <==> 1 <= status <= 26,
        nvenc_message(status) is Some <==> 1 <= status <= 26,
        status == 1 ==> nvenc_name(status)->0@ == "NV_ENC_ERR_NO_ENCODE_DEVICE"@ && nvenc_message(status)->0@
            == "No encode capable devices were detected"@,
        status == 2 ==> nvenc_name(status)->0@ == "NV_ENC_ERR_UNSUPPORTED_DEVICE"@ && nvenc_message(status)->0@
            == "The device passed by the client is not supported"@,
        status == 3 ==> nvenc_name(status)->0@ == "NV_ENC_ERR_INVALID_ENCODERDEVICE"@ && nvenc_message(status)->0@
            == "The encoder device supplied by the client is not valid"@,
        status == 4 ==> nvenc_name(status)->0@ == "NV_ENC_ERR_INVALID_DEVICE"@ && nvenc_message(status)->0@
            == "The device passed to the API call is invalid"@,
        status == 5 ==> nvenc_name(status)->0@ == "NV_ENC_ERR_DEVICE_NOT_EXIST"@ && nvenc_message(status)->0@
            == "The device passed to the API call is no longer available"@,
        status == 6 ==> nvenc_name(status)->0@ == "NV_ENC_ERR_INVALID_PTR"@ && nvenc_message(status)->0@
            == "One or more of the pointers passed to the API call is invalid"@,
        status == 7 ==> nvenc_name(status)->0@ == "NV_ENC_ERR_INVALID_EVENT"@ && nvenc_message(status)->0@
            == "The completion event passed to the API call is invalid"@,
        status == 8 ==> nvenc_name(status)->0@ == "NV_ENC_ERR_INVALID_PARAM"@ && nvenc_message(status)->0@
            == "One or more of the parameter passed to the API call is invalid"@,
        status == 9 ==> nvenc_name(status)->0@ == "NV_ENC_ERR_INVALID_CALL"@ && nvenc_message(status)->0@
            == "An API call was made in wrong sequence or order"@,
        status == 10 ==> nvenc_name(status)->0@ == "NV_ENC_ERR_OUT_OF_MEMORY"@ && nvenc_message(status)->0@
            == "The API call was unable to allocate enough memory"@,
        status == 11 ==> nvenc_name(status)->0@ == "NV_ENC_ERR_ENCODER_NOT_INITIALIZED"@ && nvenc_message(status)->0@
            == "The encoder has not been initialized"@,
        status == 12 ==> nvenc_name(status)->0@ == "NV_ENC_ERR_UNSUPPORTED_PARAM"@ && nvenc_message(status)->0@
            == "An unsupported parameter was passed by the client"@,
        status == 13 ==> nvenc_name(status)->0@ == "NV_ENC_ERR_LOCK_BUSY"@ && nvenc_message(status)->0@
            == "The output buffer could not be locked"@,
        status == 14 ==> nvenc_name(status)->0@ == "NV_ENC_ERR_NOT_ENOUGH_BUFFER"@ && nvenc_message(status)->0@
            == "The size of the user buffer is insufficient"@,
        status == 15 ==> nvenc_name(status)->0@ == "NV_ENC_ERR_INVALID_VERSION"@ && nvenc_message(status)->0@
            == "An invalid struct version was used by the client"@,
        status == 16 ==> nvenc_name(status)->0@ == "NV_ENC_ERR_MAP_FAILED"@ && nvenc_message(status)->0@
            == "The client provided input resource could not be mapped"@,
        status == 17 ==> nvenc_name(status)->0@ == "NV_ENC_ERR_NEED_MORE_INPUT"@ && nvenc_message(status)->0@
            == "The encode driver requires more input buffers"@,
        status == 18 ==> nvenc_name(status)->0@ == "NV_ENC_ERR_ENCODER_BUSY"@ && nvenc_message(status)->0@
            == "The hardware encoder is busy encoding"@,
        status == 19 ==> nvenc_name(status)->0@ == "NV_ENC_ERR_EVENT_NOT_REGISTERD"@ && nvenc_message(status)->0@
            == "The completion event has not been registered"@,
        status == 20 ==> nvenc_name(status)->0@ == "NV_ENC_ERR_GENERIC"@ && nvenc_message(status)->0@
            == "An unknown internal error has occurred"@,
        status == 21 ==> nvenc_name(status)->0@ == "NV_ENC_ERR_INCOMPATIBLE_CLIENT_KEY"@ && nvenc_message(status)->0@
            == "The feature is not available for the license type"@,
        status == 22 ==> nvenc_name(status)->0@ == "NV_ENC_ERR_UNIMPLEMENTED"@ && nvenc_message(status)->0@
            == "The feature is not implemented for the current version"@,
        status == 23 ==> nvenc_name(status)->0@ == "NV_ENC_ERR_RESOURCE_REGISTER_FAILED"@ && nvenc_message(status)->0@
            == "The resource could not be registered"@,
        status == 24 ==> nvenc_name(status)->0@ == "NV_ENC_ERR_RESOURCE_NOT_REGISTERED"@ && nvenc_message(status)->0@
            == "The resource has not been registered"@,
        status == 25 ==> nvenc_name(status)->0@ == "NV_ENC_ERR_RESOURCE_NOT_MAPPED"@ && nvenc_message(status)->0@
            == "The resource has not been mapped"@,
        status == 26 ==> nvenc_name(status)->0@ == "NV_ENC_ERR_NEED_MORE_OUTPUT"@ && nvenc_message(status)->0@
            == "The encode driver requires more output buffers"@,
{
}

/// A call has succeeded just where its status is 0. Otherwise the error names the function and the
/// status.
pub proof fn a_status_other_than_zero_is_an_error(
    status: u32,
    function: &'static str,
    name: Option<String>,
    message: Option<String>,
)
    ensures
        cuda_outcome(status, function, name, message) is Ok <==> status == 0,
        cuda_outcome(status, function, name, message) matches Err(error) ==> error.function
            == function && error.status_code == Some(status),
        nvenc_outcome(status, function) is Ok <==> status == 0,
        nvenc_outcome(status, function) matches Err(error) ==> error.function == function
            && error.status_code == Some(status) && error.status_name == nvenc_name(status)
            && error.status_message == nvenc_message(status),
{
}

/// How errors read. One of this library names its function and says what happened; one of a driver
/// gives the status code, what happened, and the name of the status code, as far as they are known.
pub proof fn errors_say_where_and_what(
    function: &'static str,
    message: &'static str,
    code: u32,
    name: Seq<char>,
    description: Seq<char>,
)
    ensures
        rendered(custom(function, message)@) == function@ + "() failed: "@ + message@,
        rendered(
            ErrorView {
                function: function@,
                status_code: Some(code),
                status_name: Some(name),
                status_message: Some(description),
            },
        ) == function@ + "() failed[status="@ + decimal(code as nat) + "]: "@ + description
            + " ("@ + name + ")"@,
        rendered(
            ErrorView {
                function: function@,
                status_code: Some(code),
                status_name: None,
                status_message: None,
            },
        ) == function@ + "() failed[status="@ + decimal(code as nat) + "]"@,
{
    reveal_strlit("() failed");
    reveal_strlit("() failed: ");
    reveal_strlit("() failed[status=");
    reveal_strlit("[status=");
    reveal_strlit("]");
    reveal_strlit("]: ");
    reveal_strlit(": ");
    assert("() failed"@ + ": "@ =~= "() failed: "@);
    assert("() failed"@ + "[status="@ =~= "() failed[status="@);
    assert("]"@ + ": "@ =~= "]: "@);
    assert(rendered(custom(function, message)@) =~= function@ + "() failed: "@ + message@);
    let full = ErrorView {
        function: function@,
        status_code: Some(code),
        status_name: Some(name),
        status_message: Some(description),
    };
    assert(rendered(full) =~= function@ + "() failed[status="@ + decimal(code as nat) + "]: "@
        + description + " ("@ + name + ")"@);
    let bare = ErrorView { status_name: None, status_message: None, ..full };
    assert(rendered(bare) =~= function@ + "() failed[status="@ + decimal(code as nat) + "]"@);
}

/// The number that digits make.
pub open spec fn value_of(digits: Seq<char>) -> nat
    decreases digits.len(),
{
    if digits.len() == 0 {
        0
    } else {
        value_of(digits.drop_last()) * 10 + (digits.last() as nat - '0' as nat) as nat
    }
}

/// A number that is written out can be read back: its digits are decimal digits, and make just
/// that number.
pub proof fn numbers_read_back(n: nat)
    ensures
        value_of(decimal(n)) == n,
        decimal(n).len() > 0,
        forall|i: int| 0 <= i < decimal(n).len() ==> '0' <= #[trigger] decimal(n)[i] <= '9',
        n >= 10 ==> decimal(n)[0] != '0',
    decreases n,
{
    if n < 10 {
        assert(decimal(n).drop_last() =~= Seq::empty());
        assert(value_of(decimal(n).drop_last()) == 0);
    } else {
        numbers_read_back(n / 10);
        assert(decimal(n).drop_last() =~= decimal(n / 10));
        if n / 10 < 10 {
            assert(decimal(n / 10)[0] == digit(n / 10));
        }
        assert(decimal(n)[0] == decimal(n / 10)[0]);
    }
}

} // verus!
