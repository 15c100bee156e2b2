//! The helpers of the lesson on error handling: the checks made on a new
//! user, and on a number that was typed in.

use crate::decimal::{
    all_digits, decimal, digits, is_digit, lemma_digits_are_digits, lemma_digits_value,
    numeral_value,
};
use std::num::ParseIntError;
use vstd::prelude::*;
use vstd::string::StringSliceAdditionalSpecFns;

verus! {

/// The error of std's integer parser. Nothing is known of what it holds; it is
/// only carried along.
#[verifier::external_type_specification]
#[verifier::external_body]
pub struct ExParseIntError(std::num::ParseIntError);

/// Why a piece of input was not accepted.
#[derive(Debug, PartialEq, Eq)]
pub enum CustomError {
    /// The input is not a number of 32 bits.
    ParseError(ParseIntError),
    /// The input breaks a rule, which the text names.
    InvalidInput(String),
}

/// Why a piece of data was not accepted.
#[derive(Debug, PartialEq, Eq)]
pub enum DataError {
    /// The data is not a number of 32 bits.
    Parse(ParseIntError),
    /// The data breaks a rule, which the text names.
    Validation(String),
}

/// The number that `text` denotes as a signed decimal numeral of 32 bits: an
/// optional `+` or `-`, then one digit or more and nothing else, the value
/// within the range of `i32`. `None` where `text` is no such numeral.
pub open spec fn i32_numeral(text: Seq<char>) -> Option<int> {
    let signed = text.len() > 0 && (text[0] == '-' || text[0] == '+');
    let body = if signed {
        text.drop_first()
    } else {
        text
    };
    let value = if signed && text[0] == '-' {
        -numeral_value(body)
    } else {
        numeral_value(body)
    };
    if body.len() > 0 && all_digits(body) && i32::MIN <= value <= i32::MAX {
        Some(value)
    } else {
        None
    }
}

/// A number of 32 bits, written out in decimal, denotes itself.
pub proof fn law_written_number_reads_back(i: int)
    requires
        i32::MIN <= i <= i32::MAX,
    ensures
        i32_numeral(decimal(i)) == Some(i),
{
    let text = decimal(i);
    if i < 0 {
        let body = digits((-i) as nat);
        lemma_digits_are_digits((-i) as nat);
        lemma_digits_value((-i) as nat);
        assert(text[0] == '-');
        assert(text.drop_first() =~= body);
    } else {
        lemma_digits_are_digits(i as nat);
        lemma_digits_value(i as nat);
        assert(is_digit(text[0]));
    }
}

/// Calls `str::parse::<i32>` of std. Believed of it, as its documentation
/// says: it succeeds exactly on an optional sign followed by digits alone
/// whose value fits in an `i32`, and then returns that value; on every other
/// text, the empty one included, it returns an error.
#[verifier::external_body]
fn parse_i32(text: &str) -> (parsed: Result<i32, ParseIntError>)
    ensures
        parsed matches Ok(n) ==> i32_numeral(text@) == Some(n as int),
        parsed is Err ==> i32_numeral(text@) is None,
{
    text.parse::<i32>()
}

/// The complaint about an empty input.
pub open spec fn empty_input() -> Seq<char> {
    "输入不能为空"@
}

/// The complaint about a negative input.
pub open spec fn negative_input() -> Seq<char> {
    "输入必须为正数"@
}

/// The complaint about negative data.
pub open spec fn negative_data() -> Seq<char> {
    "数值必须为正数"@
}

/// Reads a number that is not negative from `input`. An empty input and a
/// negative number are reported as invalid input, each with its own text;
/// anything else that is no number of 32 bits is reported with the parser's
/// own error.
pub fn process_input(input: &str) -> (result: Result<i32, CustomError>)
    ensures
        input@.len() == 0 ==> (result matches Err(CustomError::InvalidInput(text)) && text@
            == empty_input()),
        input@.len() > 0 ==> match i32_numeral(input@) {
            None => result matches Err(CustomError::ParseError(_)),
            Some(n) => if n < 0 {
                result matches Err(CustomError::InvalidInput(text)) && text@ == negative_input()
            } else {
                result matches Ok(number) && number == n
            },
        },
{
    if input.is_empty() {
        return Err(CustomError::InvalidInput(String::from_str("输入不能为空")));
    }
    match parse_i32(input) {
        Err(error) => Err(CustomError::ParseError(error)),
        Ok(number) => {
            if number < 0 {
                Err(CustomError::InvalidInput(String::from_str("输入必须为正数")))
            } else {
                Ok(number)
            }
        },
    }
}

/// Reads a number that is not negative from `data`. A negative number is
/// reported as failing validation; anything that is no number of 32 bits, the
/// empty text included, is reported with the parser's own error.
pub fn parse_data(data: &str) -> (result: Result<i32, DataError>)
    ensures
        match i32_numeral(data@) {
            None => result matches Err(DataError::Parse(_)),
            Some(n) => if n < 0 {
                result matches Err(DataError::Validation(text)) && text@ == negative_data()
            } else {
                result matches Ok(number) && number == n
            },
        },
{
    match parse_i32(data) {
        Err(error) => Err(DataError::Parse(error)),
        Ok(number) => {
            if number < 0 {
                Err(DataError::Validation(String::from_str("数值必须为正数")))
            } else {
                Ok(number)
            }
        },
    }
}

/// Why a user cannot be created.
#[derive(Debug, PartialEq, Eq)]
pub enum UserError {
    /// The user name, which is given back, is shorter than three bytes.
    InvalidUsername(String),
    /// The password is shorter than eight bytes.
    InvalidPasswordLength,
}

/// The least length of a user name, in bytes.
pub const MIN_USERNAME_LEN: usize = 3;

/// The least length of a password, in bytes.
pub const MIN_PASSWORD_LEN: usize = 8;

/// What an error says to the user.
pub open spec fn message_of(error: UserError) -> Seq<char> {
    match error {
        UserError::InvalidUsername(name) => "无效的用户名: '"@ + name@
            + "'. 用户名必须至少包含 3 个字符."@,
        UserError::InvalidPasswordLength => "无效的密码长度. 密码必须至少包含 8 个字符."@,
    }
}

impl UserError {
    /// Writes the error out for the user.
    pub fn message(&self) -> (text: String)
        ensures
            text@ == message_of(*self),
    {
        match self {
            UserError::InvalidUsername(name) => {
                let mut text: String = String::from_str("无效的用户名: '");
                text.append(name.as_str());
                text.append("'. 用户名必须至少包含 3 个字符.");
                text
            },
            UserError::InvalidPasswordLength => String::from_str(
                "无效的密码长度. 密码必须至少包含 8 个字符.",
            ),
        }
    }
}

/// Checks a user name and a password. The name is looked at first: a name
/// that is too short is the error even where the password is too short as
/// well. Lengths are counted in bytes.
pub fn create_user(username: &str, password: &str) -> (result: Result<(), UserError>)
    ensures
        username.spec_bytes().len() < MIN_USERNAME_LEN ==> (result matches Err(
            UserError::InvalidUsername(name),
        ) && name@ == username@),
        username.spec_bytes().len() >= MIN_USERNAME_LEN && password.spec_bytes().len()
            < MIN_PASSWORD_LEN ==> result == Err::<(), UserError>(
            UserError::InvalidPasswordLength,
        ),
        username.spec_bytes().len() >= MIN_USERNAME_LEN && password.spec_bytes().len()
            >= MIN_PASSWORD_LEN ==> result is Ok,
{
    if username.as_bytes().len() < MIN_USERNAME_LEN {
        return Err(UserError::InvalidUsername(String::from_str(username)));
    }
    if password.as_bytes().len() < MIN_PASSWORD_LEN {
        return Err(UserError::InvalidPasswordLength);
    }
    Ok(())
}

} // verus!
