//! The types and helpers of the lesson on enums: a message with four shapes,
//! the line of text that stands for a value of each enum, coins and their
//! worth, and a division that reports a zero divisor.

use crate::decimal::{decimal, digits, signed_text, unsigned_text};
use vstd::prelude::*;

verus! {

/// A message with one of four shapes.
#[derive(Debug, PartialEq, Eq)]
pub enum Message {
    /// Nothing but the request to quit.
    Quit,
    /// A move to a point.
    Move { x: i32, y: i32 },
    /// A text to write.
    Write(String),
    /// A colour by its red, green and blue parts.
    ChangeColor(i32, i32, i32),
}

/// What a message is described as.
pub open spec fn description_of(message: Message) -> Seq<char> {
    match message {
        Message::Quit => "退出消息"@,
        Message::Move { x, y } => "移动到坐标 ("@ + decimal(x as int) + ", "@ + decimal(y as int)
            + ")"@,
        Message::Write(text) => "写入文本: "@ + text@,
        Message::ChangeColor(r, g, b) => "更改为 RGB 颜色("@ + decimal(r as int) + ", "@ + decimal(
            g as int,
        ) + ", "@ + decimal(b as int) + ")"@,
    }
}

impl Message {
    /// Describes the message in a sentence that names its shape and carries
    /// what it holds.
    pub fn description(&self) -> (sentence: String)
        ensures
            sentence@ == description_of(*self),
    {
        match self {
            Message::Quit => String::from_str("退出消息"),
            Message::Move { x, y } => {
                let mut sentence: String = String::from_str("移动到坐标 (");
                sentence.append(signed_text(*x as i64).as_str());
                sentence.append(", ");
                sentence.append(signed_text(*y as i64).as_str());
                sentence.append(")");
                sentence
            },
            Message::Write(text) => {
                let mut sentence: String = String::from_str("写入文本: ");
                sentence.append(text.as_str());
                sentence
            },
            Message::ChangeColor(r, g, b) => {
                let mut sentence: String = String::from_str("更改为 RGB 颜色(");
                sentence.append(signed_text(*r as i64).as_str());
                sentence.append(", ");
                sentence.append(signed_text(*g as i64).as_str());
                sentence.append(", ");
                sentence.append(signed_text(*b as i64).as_str());
                sentence.append(")");
                sentence
            },
        }
    }
}

/// One of the four directions of the compass.
#[derive(Clone, Copy, Debug, PartialEq, Eq, Structural)]
pub enum Direction {
    North,
    East,
    South,
    West,
}

/// An address of the internet protocol, of the fourth or of the sixth version.
#[derive(Debug, PartialEq, Eq)]
pub enum IpAddr {
    /// The four bytes of the address.
    V4(u8, u8, u8, u8),
    /// The address as it is written.
    V6(String),
}

/// Something a user has entered.
#[derive(Debug, PartialEq, Eq)]
pub enum Input {
    Number(i32),
    Text(String),
    Boolean(bool),
}

/// `true` or `false`, as it is written.
pub open spec fn truth_of(b: bool) -> Seq<char> {
    if b {
        "true"@
    } else {
        "false"@
    }
}

/// The line that names a direction.
pub open spec fn direction_line(direction: Direction) -> Seq<char> {
    match direction {
        Direction::North => "向北"@,
        Direction::East => "向东"@,
        Direction::South => "向南"@,
        Direction::West => "向西"@,
    }
}

/// The line that names the shape of a message, whatever the message holds.
pub open spec fn message_type_line(message: Message) -> Seq<char> {
    match message {
        Message::Quit => "消息类型: Quit"@,
        Message::Move { .. } => "消息类型: Move"@,
        Message::Write(_) => "消息类型: Write"@,
        Message::ChangeColor(_, _, _) => "消息类型: ChangeColor"@,
    }
}

/// The line that shows an address: the four bytes in decimal with full stops
/// between them, or the sixth version's text as it is.
pub open spec fn ip_address_line(address: IpAddr) -> Seq<char> {
    match address {
        IpAddr::V4(a, b, c, d) => "IPv4 地址: "@ + digits(a as nat) + "."@ + digits(b as nat)
            + "."@ + digits(c as nat) + "."@ + digits(d as nat),
        IpAddr::V6(text) => "IPv6 地址: "@ + text@,
    }
}

/// The line that shows what a user has entered, and of which kind it is.
pub open spec fn input_line(input: Input) -> Seq<char> {
    match input {
        Input::Number(n) => "数字输入: "@ + decimal(n as int),
        Input::Text(text) => "文本输入: "@ + text@,
        Input::Boolean(b) => "布尔输入: "@ + truth_of(b),
    }
}

/// The line that shows a number that may be missing.
pub open spec fn option_line(option: Option<i32>) -> Seq<char> {
    match option {
        Some(value) => "有值: "@ + decimal(value as int),
        None => "无值"@,
    }
}

/// The line that shows a text that may be missing.
pub open spec fn option_string_line(option: Option<String>) -> Seq<char> {
    match option {
        Some(value) => "有字符串值: "@ + value@,
        None => "无值"@,
    }
}

/// Names a direction.
pub fn direction_text(direction: Direction) -> (line: &'static str)
    ensures
        line@ == direction_line(direction),
{
    match direction {
        Direction::North => "向北",
        Direction::East => "向东",
        Direction::South => "向南",
        Direction::West => "向西",
    }
}

/// Names the shape of a message.
pub fn message_type_text(message: &Message) -> (line: &'static str)
    ensures
        line@ == message_type_line(*message),
{
    match message {
        Message::Quit => "消息类型: Quit",
        Message::Move { .. } => "消息类型: Move",
        Message::Write(_) => "消息类型: Write",
        Message::ChangeColor(_, _, _) => "消息类型: ChangeColor",
    }
}

/// Writes an address out.
pub fn ip_address_text(address: &IpAddr) -> (line: String)
    ensures
        line@ == ip_address_line(*address),
{
    match address {
        IpAddr::V4(a, b, c, d) => {
            let mut line: String = String::from_str("IPv4 地址: ");
            line.append(unsigned_text(*a as u64).as_str());
            line.append(".");
            line.append(unsigned_text(*b as u64).as_str());
            line.append(".");
            line.append(unsigned_text(*c as u64).as_str());
            line.append(".");
            line.append(unsigned_text(*d as u64).as_str());
            line
        },
        IpAddr::V6(text) => {
            let mut line: String = String::from_str("IPv6 地址: ");
            line.append(text.as_str());
            line
        },
    }
}

/// Writes out what a user has entered.
pub fn input_text(input: &Input) -> (line: String)
    ensures
        line@ == input_line(*input),
{
    match input {
        Input::Number(n) => {
            let mut line: String = String::from_str("数字输入: ");
            line.append(signed_text(*n as i64).as_str());
            line
        },
        Input::Text(text) => {
            let mut line: String = String::from_str("文本输入: ");
            line.append(text.as_str());
            line
        },
        Input::Boolean(b) => {
            let mut line: String = String::from_str("布尔输入: ");
            if *b {
                line.append("true");
            } else {
                line.append("false");
            }
            line
        },
    }
}

/// Writes out a number that may be missing.
pub fn option_text(option: Option<i32>) -> (line: String)
    ensures
        line@ == option_line(option),
{
    match option {
        Some(value) => {
            let mut line: String = String::from_str("有值: ");
            line.append(signed_text(value as i64).as_str());
            line
        },
        None => String::from_str("无值"),
    }
}

/// Writes out a text that may be missing.
pub fn option_string_text(option: &Option<String>) -> (line: String)
    ensures
        line@ == option_string_line(*option),
{
    match option {
        Some(value) => {
            let mut line: String = String::from_str("有字符串值: ");
            line.append(value.as_str());
            line
        },
        None => String::from_str("无值"),
    }
}

/// A coin of the United States.
#[derive(Clone, Copy, Debug, PartialEq, Eq, Structural)]
pub enum Coin {
    Penny,
    Nickel,
    Dime,
    Quarter,
}

/// What a coin is worth, in cents.
pub open spec fn cents_of(coin: Coin) -> int {
    match coin {
        Coin::Penny => 1,
        Coin::Nickel => 5,
        Coin::Dime => 10,
        Coin::Quarter => 25,
    }
}

/// Says what `coin` is worth, in cents.
pub fn value_in_cents(coin: Coin) -> (cents: u8)
    ensures
        cents == cents_of(coin),
{
    match coin {
        Coin::Penny => 1,
        Coin::Nickel => 5,
        Coin::Dime => 10,
        Coin::Quarter => 25,
    }
}

/// The quotient of `a` by `b` with the fraction cut off, so that it is
/// rounded towards zero.
pub open spec fn quotient(a: int, b: int) -> int
    recommends
        b != 0,
{
    let size = (if a < 0 {
        -a
    } else {
        a
    }) / (if b < 0 {
        -b
    } else {
        b
    });
    if (a < 0) == (b < 0) {
        size
    } else {
        -size
    }
}

/// What is left when `quotient(a, b)` times `b` is taken from `a` is smaller
/// in size than `b` and never has the sign opposite to that of `a`: the
/// quotient is rounded towards zero.
pub proof fn law_quotient_rounds_towards_zero(a: int, b: int)
    requires
        b != 0,
    ensures
        a >= 0 ==> 0 <= a - quotient(a, b) * b,
        a <= 0 ==> a - quotient(a, b) * b <= 0,
        -b < a - quotient(a, b) * b < b || b < a - quotient(a, b) * b < -b,
{
    let x: int = if a < 0 {
        -a
    } else {
        a
    };
    let y: int = if b < 0 {
        -b
    } else {
        b
    };
    let size = x / y;
    let rest = x % y;
    vstd::arithmetic::div_mod::lemma_fundamental_div_mod(x, y);
    vstd::arithmetic::div_mod::lemma_mod_pos_bound(x, y);
    assert(x == y * size + rest);
    assert(0 <= rest < y);
    let q = quotient(a, b);
    assert(q * b == if a < 0 {
        -(y * size)
    } else {
        y * size
    }) by (nonlinear_arith)
        requires
            q == (if (a < 0) == (b < 0) {
                size
            } else {
                -size
            }),
            y == (if b < 0 {
                -b
            } else {
                b
            }),
    ;
}

/// Dividing by a negative number gives the quotient by its size, negated.
proof fn lemma_divide_by_negative(x: int, y: int)
    requires
        0 <= x,
        0 < y,
    ensures
        x / (-y) == -(x / y),
{
    assert(x / (-y) == -(x / y)) by (nonlinear_arith)
        requires
            0 <= x,
            0 < y,
    ;
}

/// The complaint about a divisor that is zero.
pub open spec fn zero_divisor() -> Seq<char> {
    "除数不能为零"@
}

/// Whether the result is `expected`, the error compared by its text.
pub open spec fn yields(result: Result<i32, String>, expected: Result<int, Seq<char>>) -> bool {
    match (result, expected) {
        (Ok(value), Ok(wanted)) => value == wanted,
        (Err(text), Err(wanted)) => text@ == wanted,
        _ => false,
    }
}

/// Divides `a` by `b`, rounding towards zero. A zero divisor is an error.
pub fn divide(a: i32, b: i32) -> (result: Result<i32, String>)
    requires
        !(a == i32::MIN && b == -1),
    ensures
        b == 0 ==> yields(result, Err(zero_divisor())),
        b != 0 ==> yields(result, Ok(quotient(a as int, b as int))),
{
    if b == 0 {
        Err(String::from_str("除数不能为零"))
    } else {
        let q: i32 = a / b;
        proof {
            let x: int = if a < 0 {
                -(a as int)
            } else {
                a as int
            };
            let y: int = if b < 0 {
                -(b as int)
            } else {
                b as int
            };
            lemma_divide_by_negative(x, y);
            assert(0 <= x / y <= x) by (nonlinear_arith)
                requires
                    0 <= x,
                    0 < y,
            ;
            assert(y >= 2 ==> 2 * (x / y) <= x) by (nonlinear_arith)
                requires
                    0 <= x,
                    0 < y,
            ;
            assert(q == quotient(a as int, b as int));
        }
        Ok(q)
    }
}

/// Twice the quotient of `a` by `b`. A zero divisor is an error.
pub fn calculate(a: i32, b: i32) -> (result: Result<i32, String>)
    requires
        b != 0 ==> i32::MIN <= 2 * quotient(a as int, b as int) <= i32::MAX,
    ensures
        b == 0 ==> yields(result, Err(zero_divisor())),
        b != 0 ==> yields(result, Ok(2 * quotient(a as int, b as int))),
{
    match divide(a, b) {
        Ok(intermediate) => Ok(intermediate * 2),
        Err(complaint) => Err(complaint),
    }
}

} // verus!
