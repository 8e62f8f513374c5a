use core::num::NonZeroU32;
use vstd::prelude::*;
use vstd::std_specs::cmp::PartialEqSpec;

verus! {

#[verifier::external_type_specification]
#[verifier::external_body]
pub struct ExIoError(std::io::Error);

/// A `NonZeroU32`, held opaquely: Verus cannot declare `NonZero<T>`, whose
/// bound is an unstable trait. Its layout, and so the niche at zero, is that
/// of `NonZeroU32`.
#[verifier::external_body]
pub struct NonZeroCode(NonZeroU32);

impl Clone for NonZeroCode {
    fn clone(&self) -> (r: NonZeroCode)
        ensures
            r == *self,
    {
        *self
    }
}

impl Copy for NonZeroCode {
}

/// The value that a `NonZeroCode` holds.
pub uninterp spec fn nonzero_value(n: NonZeroCode) -> u32;

/// Relies on `NonZeroU32::new`: a value exactly when `n` is non-zero, and
/// that value holds `n`.
#[verifier::external_body]
fn nonzero_new(n: u32) -> (r: Option<NonZeroCode>)
    ensures
        r is Some <==> n != 0,
        r matches Some(v) ==> nonzero_value(v) == n,
{
    NonZeroU32::new(n).map(NonZeroCode)
}

/// Relies on `NonZeroU32::get`: returns the held value, which is never zero.
#[verifier::external_body]
fn nonzero_get(n: NonZeroCode) -> (r: u32)
    ensures
        r == nonzero_value(n),
        r != 0,
{
    n.0.get()
}

/// Relies on `String::push`: appends one character.
#[verifier::external_body]
fn push_char(s: &mut String, c: char)
    ensures
        final(s)@ == old(s)@.push(c),
{
    s.push(c)
}

/// The OS error number that an I/O error carries, if any.
pub uninterp spec fn raw_os_error_of(e: std::io::Error) -> Option<i32>;

/// Relies on `io::Error::raw_os_error`: the OS error number it carries, if
/// any.
#[verifier::external_body]
fn io_raw_os_error(err: &std::io::Error) -> (r: Option<i32>)
    ensures
        r == raw_os_error_of(*err),
{
    err.raw_os_error()
}

/// Relies on `io::Error::new` with `ErrorKind::Other`: an error that carries
/// `msg` as its text and no OS error number.
#[verifier::external_body]
fn io_error_with_msg(msg: &'static str) -> (r: std::io::Error)
    ensures
        raw_os_error_of(r) is None,
{
    std::io::Error::new(std::io::ErrorKind::Other, msg)
}

/// Relies on `io::Error::from_raw_os_error`: an error that carries `code` as
/// its OS error number.
#[verifier::external_body]
fn io_error_from_os(code: i32) -> (r: std::io::Error)
    ensures
        raw_os_error_of(r) == Some(code),
{
    std::io::Error::from_raw_os_error(code)
}

/// The upper sixteen bits shared by every code that this library defines.
pub const CODE_PREFIX: u32 = 0x57f40000;

/// The code of [`error_unknown`].
pub const CODE_UNKNOWN: u32 = CODE_PREFIX | 0;

/// The code of [`error_unavailable`].
pub const CODE_UNAVAILABLE: u32 = CODE_PREFIX | 1;

/// Text of the library's "unknown" code.
pub const MSG_UNKNOWN: &'static str = "getrandom: unknown error";

/// Text of the library's "unavailable" code.
pub const MSG_UNAVAILABLE: &'static str = "getrandom: unavailable";

/// Whether `code` lies in the part of the code space that this library
/// defines: its upper sixteen bits are the library prefix.
pub open spec fn is_library_code(code: u32) -> bool {
    code & 0xffff0000u32 == CODE_PREFIX
}

/// The message for `code`: the platform's text `platform` where it gave one,
/// else the built-in text of the library's two codes, else none.
pub open spec fn resolve_msg(code: u32, platform: Option<&'static str>) -> Option<&'static str> {
    match platform {
        Some(m) => Some(m),
        None => if code == CODE_UNKNOWN {
            Some(MSG_UNKNOWN)
        } else if code == CODE_UNAVAILABLE {
            Some(MSG_UNAVAILABLE)
        } else {
            None
        },
    }
}

/// The upper-case hexadecimal digit of `d`, for `d < 16`.
pub open spec fn hex_digit(d: u32) -> char {
    if d == 0 {
        '0'
    } else if d == 1 {
        '1'
    } else if d == 2 {
        '2'
    } else if d == 3 {
        '3'
    } else if d == 4 {
        '4'
    } else if d == 5 {
        '5'
    } else if d == 6 {
        '6'
    } else if d == 7 {
        '7'
    } else if d == 8 {
        '8'
    } else if d == 9 {
        '9'
    } else if d == 10 {
        'A'
    } else if d == 11 {
        'B'
    } else if d == 12 {
        'C'
    } else if d == 13 {
        'D'
    } else if d == 14 {
        'E'
    } else {
        'F'
    }
}

/// The four bits of `code` that the `i`-th hex digit stands for, counted from
/// the most significant.
pub open spec fn nibble(code: u32, i: int) -> u32 {
    (code >> ((28 - 4 * i) as u32)) & 0xfu32
}

/// `code` as exactly eight upper-case hex digits, zero-padded.
pub open spec fn hex8(code: u32) -> Seq<char> {
    Seq::new(8, |i: int| hex_digit(nibble(code, i)))
}

/// What the display form of `code` reads, where `msg` is its resolved message.
pub open spec fn display_text(code: u32, msg: Option<&'static str>) -> Seq<char> {
    match msg {
        Some(m) => m@,
        None => "getrandom: unknown code 0x"@ + hex8(code),
    }
}

/// What the debug form of `code` reads, where `msg` is its resolved message.
pub open spec fn debug_text(code: u32, msg: Option<&'static str>) -> Seq<char> {
    match msg {
        Some(m) => "Error(\""@ + m@ + "\")"@,
        None => "Error(0x"@ + hex8(code) + ")"@,
    }
}

/// The code that an OS error number `raw` (if any) stands for: the number
/// itself, read as unsigned, unless it is absent or zero.
pub open spec fn code_of_os_error(raw: Option<i32>) -> u32 {
    match raw {
        Some(n) => if n as u32 != 0 {
            n as u32
        } else {
            CODE_UNKNOWN
        },
        None => CODE_UNKNOWN,
    }
}

/// How an error is handed to the platform's I/O error type.
pub enum IoRepr {
    /// An error that carries this text.
    Message(&'static str),
    /// An error that carries this OS error number.
    Os(i32),
}

/// The form in which `code` is handed to the platform's I/O error type, where
/// `platform` is what the platform's own lookup gave for it.
pub open spec fn io_repr_of(code: u32, platform: Option<&'static str>) -> IoRepr {
    match resolve_msg(code, platform) {
        Some(m) => IoRepr::Message(m),
        None => IoRepr::Os(code as i32),
    }
}

/// The upper-case hex digit of `d`.
fn hex_digit_char(d: u32) -> (c: char)
    requires
        d < 16,
    ensures
        c == hex_digit(d),
{
    if d < 8 {
        if d < 4 {
            if d == 0 { '0' } else if d == 1 { '1' } else if d == 2 { '2' } else { '3' }
        } else {
            if d == 4 { '4' } else if d == 5 { '5' } else if d == 6 { '6' } else { '7' }
        }
    } else if d < 12 {
        if d == 8 { '8' } else if d == 9 { '9' } else if d == 10 { 'A' } else { 'B' }
    } else {
        if d == 12 { 'C' } else if d == 13 { 'D' } else if d == 14 { 'E' } else { 'F' }
    }
}

/// Appends the eight hex digits of `code` to `s`.
fn push_hex8(s: &mut String, code: u32)
    ensures
        final(s)@ == old(s)@ + hex8(code),
{
    let ghost start = s@;
    let mut i: u32 = 0;
    while i < 8
        invariant
            i <= 8,
            s@ == start + hex8(code).take(i as int),
        decreases 8 - i,
    {
        let shift: u32 = 28 - 4 * i;
        let d: u32 = (code >> shift) & 0xf;
        assert(d < 16) by (bit_vector)
            requires
                d == (code >> shift) & 0xf,
        ;
        let c = hex_digit_char(d);
        push_char(s, c);
        assert(hex8(code).take(i as int + 1) =~= hex8(code).take(i as int).push(c));
        i = i + 1;
    }
    assert(hex8(code).take(8) =~= hex8(code));
}

/// An error that the library cannot describe more closely.
///
/// Its code is `CODE_PREFIX | 0`.
pub fn error_unknown() -> (r: Error)
    ensures
        r@ == CODE_UNKNOWN,
{
    assert(CODE_PREFIX | 0 != 0) by (bit_vector);
    Error(nonzero_new(CODE_UNKNOWN).unwrap())
}

/// No generator is available.
///
/// Its code is `CODE_PREFIX | 1`.
pub fn error_unavailable() -> (r: Error)
    ensures
        r@ == CODE_UNAVAILABLE,
{
    assert(CODE_PREFIX | 1 != 0) by (bit_vector);
    Error(nonzero_new(CODE_UNAVAILABLE).unwrap())
}

/// The error type: a non-zero 32-bit code.
///
/// Codes whose upper sixteen bits are `CODE_PREFIX` are defined by this
/// library; every other code is an error number of the platform.
#[derive(Copy, Clone)]
pub struct Error(NonZeroCode);

impl View for Error {
    type V = u32;

    closed spec fn view(&self) -> u32 {
        nonzero_value(self.0)
    }
}

impl PartialEq for Error {
    fn eq(&self, other: &Error) -> (r: bool) {
        nonzero_get(self.0) == nonzero_get(other.0)
    }
}

impl Eq for Error {
}

impl vstd::std_specs::cmp::PartialEqSpecImpl for Error {
    open spec fn obeys_eq_spec() -> bool {
        true
    }

    open spec fn eq_spec(&self, other: &Error) -> bool {
        self@ == other@
    }
}

impl Error {
    /// The code of this error, unchanged.
    ///
    /// It is either one of the codes that this library defines or an error
    /// number of the platform.
    pub fn code(&self) -> (r: u32)
        ensures
            r == self@,
            r != 0,
    {
        nonzero_get(self.0)
    }

    /// The error with code `code`, which is not zero.
    pub fn from_code(code: u32) -> (r: Error)
        requires
            code != 0,
        ensures
            r@ == code,
    {
        Error(nonzero_new(code).unwrap())
    }

    /// The message for this error, where `platform` is what the platform's
    /// own lookup gave for its code: that text is taken first, then the text
    /// of the library's own codes.
    pub fn msg_with(&self, platform: Option<&'static str>) -> (r: Option<&'static str>)
        ensures
            r == resolve_msg(self@, platform),
    {
        match platform {
            Some(m) => Some(m),
            None => {
                let code = nonzero_get(self.0);
                if code == CODE_UNKNOWN {
                    Some(MSG_UNKNOWN)
                } else if code == CODE_UNAVAILABLE {
                    Some(MSG_UNAVAILABLE)
                } else {
                    None
                }
            },
        }
    }

    /// The message for this error. The hosted platforms have no text of
    /// their own for a code, so only the library's own codes have one.
    pub fn msg(&self) -> (r: Option<&'static str>)
        ensures
            r == resolve_msg(self@, None),
    {
        self.msg_with(None)
    }

    /// The display form, where `platform` is what the platform's own lookup
    /// gave for the code: the message where there is one, else the code in
    /// eight hex digits after `getrandom: unknown code 0x`.
    pub fn display_with(&self, platform: Option<&'static str>) -> (r: String)
        ensures
            r@ == display_text(self@, resolve_msg(self@, platform)),
    {
        match self.msg_with(platform) {
            Some(m) => String::from_str(m),
            None => {
                let mut s = String::from_str("getrandom: unknown code 0x");
                push_hex8(&mut s, nonzero_get(self.0));
                s
            },
        }
    }

    /// The display form on the hosted platforms, whose lookup knows no text
    /// for a code.
    pub fn to_string(&self) -> (r: String)
        ensures
            r@ == display_text(self@, resolve_msg(self@, None)),
    {
        self.display_with(None)
    }

    /// The debug form, where `platform` is what the platform's own lookup
    /// gave for the code: `Error("<message>")` where there is a message, else
    /// `Error(0x<code in eight hex digits>)`.
    pub fn debug_with(&self, platform: Option<&'static str>) -> (r: String)
        ensures
            r@ == debug_text(self@, resolve_msg(self@, platform)),
    {
        match self.msg_with(platform) {
            Some(m) => {
                let mut s = String::from_str("Error(\"");
                s.append(m);
                s.append("\")");
                s
            },
            None => {
                let mut s = String::from_str("Error(0x");
                push_hex8(&mut s, nonzero_get(self.0));
                s.append(")");
                s
            },
        }
    }

    /// The debug form on the hosted platforms, whose lookup knows no text
    /// for a code.
    pub fn to_debug_string(&self) -> (r: String)
        ensures
            r@ == debug_text(self@, resolve_msg(self@, None)),
    {
        self.debug_with(None)
    }

    /// The error for an OS error number `raw`, where the platform's error
    /// carried one: that number read as unsigned, or the "unknown" code
    /// where there is none or it is zero.
    pub fn from_raw_os_error(raw: Option<i32>) -> (r: Error)
        ensures
            r@ == code_of_os_error(raw),
    {
        match raw {
            Some(n) => match nonzero_new(n as u32) {
                Some(code) => Error(code),
                None => error_unknown(),
            },
            None => error_unknown(),
        }
    }

    /// The form in which this error is handed to the platform's I/O error
    /// type, where `platform` is what the platform's own lookup gave for the
    /// code: its message where it has one, else its code as an OS error
    /// number.
    pub fn io_repr_with(&self, platform: Option<&'static str>) -> (r: IoRepr)
        ensures
            r == io_repr_of(self@, platform),
    {
        match self.msg_with(platform) {
            Some(m) => IoRepr::Message(m),
            None => IoRepr::Os(nonzero_get(self.0) as i32),
        }
    }

    /// The form in which this error is handed to the I/O error type of the
    /// hosted platforms, whose lookup knows no text for a code.
    pub fn io_repr(&self) -> (r: IoRepr)
        ensures
            r == io_repr_of(self@, None),
    {
        self.io_repr_with(None)
    }
}

/// The library's two codes are `CODE_PREFIX | 0` and `CODE_PREFIX | 1`: they
/// differ, neither is zero, and both lie in the library's part of the code
/// space.
pub proof fn lemma_library_codes()
    ensures
        CODE_UNKNOWN == CODE_PREFIX | 0,
        CODE_UNAVAILABLE == CODE_PREFIX | 1,
        CODE_UNKNOWN == 0x57f40000u32,
        CODE_UNAVAILABLE == 0x57f40001u32,
        CODE_UNKNOWN != CODE_UNAVAILABLE,
        CODE_UNKNOWN != 0,
        CODE_UNAVAILABLE != 0,
        is_library_code(CODE_UNKNOWN),
        is_library_code(CODE_UNAVAILABLE),
{
    assert(CODE_PREFIX | 0 == 0x57f40000u32) by (bit_vector);
    assert(CODE_PREFIX | 1 == 0x57f40001u32) by (bit_vector);
    assert(CODE_PREFIX | 0 != 0) by (bit_vector);
    assert(CODE_PREFIX | 1 != 0) by (bit_vector);
    assert((CODE_PREFIX | 0) & 0xffff0000u32 == CODE_PREFIX) by (bit_vector);
    assert((CODE_PREFIX | 1) & 0xffff0000u32 == CODE_PREFIX) by (bit_vector);
}

/// An OS error number `n`, taken into an error and handed back to the
/// platform, comes back either as the same number, where the error has no
/// message, or as the error's message, where it has one; which of the two is
/// decided by the message alone, whatever text `platform` the platform's
/// own lookup gave.
pub proof fn lemma_os_error_round_trip(n: i32, platform: Option<&'static str>)
    ensures
        ({
            let code = code_of_os_error(Some(n));
            match io_repr_of(code, platform) {
                IoRepr::Os(k) => k == n && resolve_msg(code, platform) is None,
                IoRepr::Message(m) => resolve_msg(code, platform) == Some(m),
            }
        }),
{
    assert((n as u32) as i32 == n) by (bit_vector);
}

/// A platform error that carries no OS error number becomes the "unknown"
/// error, which is handed back to the platform as its message.
pub proof fn lemma_no_os_error_is_unknown()
    ensures
        code_of_os_error(None) == CODE_UNKNOWN,
        io_repr_of(code_of_os_error(None), None) == IoRepr::Message(MSG_UNKNOWN),
{
    lemma_library_codes();
}

/// Equality of errors is equality of their codes, and so is reflexive,
/// symmetric and transitive, and tells every two distinct codes apart.
pub proof fn lemma_eq_is_code_eq(a: Error, b: Error, c: Error)
    ensures
        a.eq_spec(&b) <==> a@ == b@,
        a.eq_spec(&a),
        a.eq_spec(&b) ==> b.eq_spec(&a),
        a.eq_spec(&b) && b.eq_spec(&c) ==> a.eq_spec(&c),
{
}

impl From<std::io::Error> for Error {
    /// The error for the OS error number that `err` carries, or the
    /// "unknown" code where it carries none or zero.
    fn from(err: std::io::Error) -> (r: Error)
        ensures
            r@ == code_of_os_error(raw_os_error_of(err)),
    {
        Error::from_raw_os_error(io_raw_os_error(&err))
    }
}

impl vstd::std_specs::convert::FromSpecImpl<std::io::Error> for Error {
    open spec fn obeys_from_spec() -> bool {
        false
    }

    open spec fn from_spec(err: std::io::Error) -> Error {
        arbitrary()
    }
}

impl From<Error> for std::io::Error {
    /// An error with the message of `err` where it has one, else one that
    /// carries its code as an OS error number.
    fn from(err: Error) -> (r: std::io::Error)
        ensures
            raw_os_error_of(r) == (match io_repr_of(err@, None) {
                IoRepr::Os(n) => Some(n),
                IoRepr::Message(_) => None,
            }),
    {
        match err.io_repr() {
            IoRepr::Message(m) => io_error_with_msg(m),
            IoRepr::Os(n) => io_error_from_os(n),
        }
    }
}

impl vstd::std_specs::convert::FromSpecImpl<Error> for std::io::Error {
    open spec fn obeys_from_spec() -> bool {
        false
    }

    open spec fn from_spec(err: Error) -> std::io::Error {
        arbitrary()
    }
}

} // verus!
