//! Status codes and the error value that the library returns.
use vstd::prelude::*;
use vstd::string::*;

verus! {

/// The canonical uProtocol status codes.
#[allow(non_camel_case_types)]
#[derive(Clone, Copy, Debug, PartialEq, Eq, Structural)]
pub enum UCode {
    OK,
    CANCELLED,
    UNKNOWN,
    INVALID_ARGUMENT,
    DEADLINE_EXCEEDED,
    NOT_FOUND,
    ALREADY_EXISTS,
    PERMISSION_DENIED,
    RESOURCE_EXHAUSTED,
    FAILED_PRECONDITION,
    ABORTED,
    OUT_OF_RANGE,
    UNIMPLEMENTED,
    INTERNAL,
    UNAVAILABLE,
    DATA_LOSS,
    UNAUTHENTICATED,
}

/// The number that stands for a status code.
pub open spec fn code_value(code: UCode) -> u8 {
    match code {
        UCode::OK => 0,
        UCode::CANCELLED => 1,
        UCode::UNKNOWN => 2,
        UCode::INVALID_ARGUMENT => 3,
        UCode::DEADLINE_EXCEEDED => 4,
        UCode::NOT_FOUND => 5,
        UCode::ALREADY_EXISTS => 6,
        UCode::PERMISSION_DENIED => 7,
        UCode::RESOURCE_EXHAUSTED => 8,
        UCode::FAILED_PRECONDITION => 9,
        UCode::ABORTED => 10,
        UCode::OUT_OF_RANGE => 11,
        UCode::UNIMPLEMENTED => 12,
        UCode::INTERNAL => 13,
        UCode::UNAVAILABLE => 14,
        UCode::DATA_LOSS => 15,
        UCode::UNAUTHENTICATED => 16,
    }
}

/// The status code that a number stands for, if any.
pub open spec fn code_of_value(value: u8) -> Option<UCode> {
    if value == 0 {
        Some(UCode::OK)
    } else if value == 1 {
        Some(UCode::CANCELLED)
    } else if value == 2 {
        Some(UCode::UNKNOWN)
    } else if value == 3 {
        Some(UCode::INVALID_ARGUMENT)
    } else if value == 4 {
        Some(UCode::DEADLINE_EXCEEDED)
    } else if value == 5 {
        Some(UCode::NOT_FOUND)
    } else if value == 6 {
        Some(UCode::ALREADY_EXISTS)
    } else if value == 7 {
        Some(UCode::PERMISSION_DENIED)
    } else if value == 8 {
        Some(UCode::RESOURCE_EXHAUSTED)
    } else if value == 9 {
        Some(UCode::FAILED_PRECONDITION)
    } else if value == 10 {
        Some(UCode::ABORTED)
    } else if value == 11 {
        Some(UCode::OUT_OF_RANGE)
    } else if value == 12 {
        Some(UCode::UNIMPLEMENTED)
    } else if value == 13 {
        Some(UCode::INTERNAL)
    } else if value == 14 {
        Some(UCode::UNAVAILABLE)
    } else if value == 15 {
        Some(UCode::DATA_LOSS)
    } else if value == 16 {
        Some(UCode::UNAUTHENTICATED)
    } else {
        None
    }
}

impl UCode {
    /// The number of this status code.
    pub fn as_u8(self) -> (r: u8)
        ensures
            r == code_value(self),
    {
        match self {
            UCode::OK => 0,
            UCode::CANCELLED => 1,
            UCode::UNKNOWN => 2,
            UCode::INVALID_ARGUMENT => 3,
            UCode::DEADLINE_EXCEEDED => 4,
            UCode::NOT_FOUND => 5,
            UCode::ALREADY_EXISTS => 6,
            UCode::PERMISSION_DENIED => 7,
            UCode::RESOURCE_EXHAUSTED => 8,
            UCode::FAILED_PRECONDITION => 9,
            UCode::ABORTED => 10,
            UCode::OUT_OF_RANGE => 11,
            UCode::UNIMPLEMENTED => 12,
            UCode::INTERNAL => 13,
            UCode::UNAVAILABLE => 14,
            UCode::DATA_LOSS => 15,
            UCode::UNAUTHENTICATED => 16,
        }
    }

    /// The status code with the given number, if there is one.
    pub fn from_u8(value: u8) -> (r: Option<UCode>)
        ensures
            r == code_of_value(value),
    {
        if value == 0 {
            Some(UCode::OK)
        } else if value == 1 {
            Some(UCode::CANCELLED)
        } else if value == 2 {
            Some(UCode::UNKNOWN)
        } else if value == 3 {
            Some(UCode::INVALID_ARGUMENT)
        } else if value == 4 {
            Some(UCode::DEADLINE_EXCEEDED)
        } else if value == 5 {
            Some(UCode::NOT_FOUND)
        } else if value == 6 {
            Some(UCode::ALREADY_EXISTS)
        } else if value == 7 {
            Some(UCode::PERMISSION_DENIED)
        } else if value == 8 {
            Some(UCode::RESOURCE_EXHAUSTED)
        } else if value == 9 {
            Some(UCode::FAILED_PRECONDITION)
        } else if value == 10 {
            Some(UCode::ABORTED)
        } else if value == 11 {
            Some(UCode::OUT_OF_RANGE)
        } else if value == 12 {
            Some(UCode::UNIMPLEMENTED)
        } else if value == 13 {
            Some(UCode::INTERNAL)
        } else if value == 14 {
            Some(UCode::UNAVAILABLE)
        } else if value == 15 {
            Some(UCode::DATA_LOSS)
        } else if value == 16 {
            Some(UCode::UNAUTHENTICATED)
        } else {
            None
        }
    }
}

/// Reading back the number of a status code gives the code.
pub proof fn lemma_code_value_round_trip(code: UCode)
    ensures
        code_of_value(code_value(code)) == Some(code),
{
}

/// A failed outcome: a status code and a description.
#[derive(Clone, Debug, PartialEq, Eq)]
pub struct UStatus {
    pub code: UCode,
    pub message: String,
}

impl UStatus {
    /// A failure with the given code and description.
    pub fn fail_with_code(code: UCode, message: &str) -> (r: UStatus)
        ensures
            r.code == code,
            r.message@ == message@,
    {
        UStatus { code, message: message.to_owned() }
    }

    /// A failure with the given code and a description made of a text, a number in decimal and
    /// another text.
    pub fn fail_with_code_and_number(code: UCode, before: &str, number: u64, after: &str) -> (r: UStatus)
        ensures
            r.code == code,
            r.message@ == before@ + decimal(number as nat) + after@,
    {
        let digits = decimal_text(number);
        UStatus { code, message: String::from_str(before).concat(digits.as_str()).concat(after) }
    }

    /// The status code of this failure.
    pub fn code(&self) -> (r: UCode)
        ensures
            r == self.code,
    {
        self.code
    }

    /// The status code of this failure.
    pub fn get_code(&self) -> (r: UCode)
        ensures
            r == self.code,
    {
        self.code
    }
}

/// The decimal digit for a number below ten.
pub open spec fn digit_char(d: nat) -> char {
    (d + 48) as char
}

/// The decimal digits of a number, without leading zeros.
pub open spec fn decimal(n: nat) -> Seq<char>
    decreases n,
{
    if n < 10 {
        seq![digit_char(n)]
    } else {
        decimal(n / 10).push(digit_char(n % 10))
    }
}

fn digit_text(d: u64) -> (r: &'static str)
    requires
        d < 10,
    ensures
        r@ == seq![digit_char(d as nat)],
{
    proof {
        reveal_strlit("0");
        reveal_strlit("1");
        reveal_strlit("2");
        reveal_strlit("3");
        reveal_strlit("4");
        reveal_strlit("5");
        reveal_strlit("6");
        reveal_strlit("7");
        reveal_strlit("8");
        reveal_strlit("9");
    }
    let r = match d {
        0 => "0",
        1 => "1",
        2 => "2",
        3 => "3",
        4 => "4",
        5 => "5",
        6 => "6",
        7 => "7",
        8 => "8",
        _ => "9",
    };
    assert(r@ =~= seq![digit_char(d as nat)]);
    r
}

/// A number in decimal, without leading zeros.
pub fn decimal_text(n: u64) -> (r: String)
    ensures
        r@ == decimal(n as nat),
{
    let mut rest: u64 = n;
    let mut text = String::new();
    while rest >= 10
        invariant
            decimal(n as nat) == decimal(rest as nat) + text@,
        decreases rest,
    {
        let digit = digit_text(rest % 10);
        let ghost before = text@;
        text = String::from_str(digit).concat(text.as_str());
        proof {
            assert(decimal(rest as nat) == decimal((rest / 10) as nat).push(digit_char((rest % 10) as nat)));
            assert(decimal((rest / 10) as nat).push(digit_char((rest % 10) as nat)) + before
                =~= decimal((rest / 10) as nat) + text@);
        }
        rest = rest / 10;
    }
    let ghost before = text@;
    let text = String::from_str(digit_text(rest)).concat(text.as_str());
    assert(decimal(rest as nat) + before =~= text@);
    text
}

} // verus!
