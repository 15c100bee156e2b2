use rustlearn::enums::{
    calculate, direction_text, divide, input_text, ip_address_text, message_type_text,
    option_string_text, option_text, value_in_cents, Coin, Direction, Input, IpAddr, Message,
};
use rustlearn::error_handling::{create_user, UserError};
use rustlearn::functions::{
    calculate_sum, calculate_sum_and_product, describe_number, find_max, increment, multiply,
    square,
};
use rustlearn::generics::Container;
use rustlearn::lifetimes::{first_word, longest};
use rustlearn::pattern_matching::grade;
use rustlearn::structs::Rectangle;
use rustlearn::variables::add;

#[test]
fn add_sums_two_numbers() {
    assert_eq!(add(10, 20), 30);
    assert_eq!(add(-5, 5), 0);
    assert_eq!(add(i32::MAX, 0), i32::MAX);
    assert_eq!(add(i32::MIN, i32::MAX), -1);
}

#[test]
fn calculate_sum_sums_two_numbers() {
    assert_eq!(calculate_sum(5, 10), 15);
    assert_eq!(calculate_sum(-7, 3), -4);
}

#[test]
fn multiply_gives_the_product() {
    assert_eq!(multiply(3, 4), 12);
    assert_eq!(multiply(-3, 4), -12);
    assert_eq!(multiply(0, i32::MIN), 0);
    assert_eq!(multiply(46340, 46340), 2147395600);
}

#[test]
fn describe_number_says_large_or_not() {
    assert_eq!(describe_number(42, true), "42 是一个很大的数字");
    assert_eq!(describe_number(42, false), "42 是一个不大的数字");
    assert_eq!(describe_number(-3, false), "-3 是一个不大的数字");
    assert_eq!(describe_number(0, true), "0 是一个很大的数字");
    assert_eq!(describe_number(i32::MIN, true), "-2147483648 是一个很大的数字");
    assert_eq!(describe_number(i32::MAX, false), format!("{} 是一个不大的数字", i32::MAX));
}

#[test]
fn increment_raises_the_value_in_place() {
    let mut value = 10;
    increment(&mut value, 5);
    assert_eq!(value, 15);
    increment(&mut value, -20);
    assert_eq!(value, -5);
    increment(&mut value, 0);
    assert_eq!(value, -5);
}

#[test]
fn square_multiplies_a_number_by_itself() {
    assert_eq!(square(5), 25);
    assert_eq!(square(-5), 25);
    assert_eq!(square(0), 0);
    assert_eq!(square(46340), 2147395600);
}

#[test]
fn find_max_picks_the_larger() {
    assert_eq!(find_max(10, 20), 20);
    assert_eq!(find_max(20, 10), 20);
    assert_eq!(find_max(7, 7), 7);
    assert_eq!(find_max(-1, -2), -1);
    assert_eq!(find_max(i32::MIN, i32::MAX), i32::MAX);
}

#[test]
fn sum_and_product_come_in_that_order() {
    assert_eq!(calculate_sum_and_product(3, 7), (10, 21));
    assert_eq!(calculate_sum_and_product(-2, 5), (3, -10));
}

#[test]
fn rectangle_area_is_width_times_height() {
    assert_eq!(Rectangle { width: 30, height: 50 }.area(), 1500);
    assert_eq!(Rectangle { width: 0, height: 50 }.area(), 0);
    assert_eq!(Rectangle { width: 65535, height: 65537 }.area(), u32::MAX);
}

#[test]
fn rectangle_holds_what_is_no_wider_and_no_higher() {
    let large = Rectangle { width: 30, height: 50 };
    let small = Rectangle { width: 20, height: 40 };
    let wide = Rectangle { width: 40, height: 10 };
    assert!(large.can_hold(&small));
    assert!(!small.can_hold(&large));
    assert!(!large.can_hold(&wide));
    assert!(!wide.can_hold(&large));
    assert!(large.can_hold(&large));
}

#[test]
fn rectangle_resize_sets_both_sides() {
    let mut r = Rectangle { width: 10, height: 20 };
    assert_eq!(r.area(), 200);
    r.resize(15, 25);
    assert_eq!(r, Rectangle { width: 15, height: 25 });
    assert_eq!(r.area(), 375);
}

#[test]
fn rectangle_square_and_default() {
    let s = Rectangle::square(20);
    assert_eq!((s.width, s.height, s.area()), (20, 20, 400));
    let d = Rectangle::default();
    assert_eq!((d.width, d.height, d.area()), (100, 100, 10000));
}

#[test]
fn message_description_names_shape_and_contents() {
    assert_eq!(Message::Quit.description(), "退出消息");
    assert_eq!(Message::Move { x: 10, y: 20 }.description(), "移动到坐标 (10, 20)");
    assert_eq!(
        Message::Write(String::from("Hello, Rust!")).description(),
        "写入文本: Hello, Rust!"
    );
    assert_eq!(Message::ChangeColor(255, 0, 0).description(), "更改为 RGB 颜色(255, 0, 0)");
    assert_eq!(Message::Move { x: -1, y: i32::MIN }.description(), "移动到坐标 (-1, -2147483648)");
    assert_eq!(Message::Write(String::new()).description(), "写入文本: ");
    assert_eq!(Message::ChangeColor(-1, -20, 300).description(), "更改为 RGB 颜色(-1, -20, 300)");
}

#[test]
fn vec_is_a_container() {
    let mut v: Vec<i32> = Vec::new();
    assert_eq!(Container::get(&v, 0), None);
    Container::add(&mut v, 10);
    Container::add(&mut v, 20);
    Container::add(&mut v, 30);
    assert_eq!(v, vec![10, 20, 30]);
    assert_eq!(Container::get(&v, 0), Some(&10));
    assert_eq!(Container::get(&v, 1), Some(&20));
    assert_eq!(Container::get(&v, 2), Some(&30));
    assert_eq!(Container::get(&v, 3), None);
    assert_eq!(Container::get(&v, usize::MAX), None);
}

#[test]
fn coins_are_worth_their_cents() {
    assert_eq!(value_in_cents(Coin::Penny), 1);
    assert_eq!(value_in_cents(Coin::Nickel), 5);
    assert_eq!(value_in_cents(Coin::Dime), 10);
    assert_eq!(value_in_cents(Coin::Quarter), 25);
}

#[test]
fn divide_rounds_towards_zero() {
    assert_eq!(divide(10, 2), Ok(5));
    assert_eq!(divide(7, 2), Ok(3));
    assert_eq!(divide(-7, 2), Ok(-3));
    assert_eq!(divide(7, -2), Ok(-3));
    assert_eq!(divide(-7, -2), Ok(3));
    assert_eq!(divide(0, 5), Ok(0));
    assert_eq!(divide(1, i32::MIN), Ok(0));
    assert_eq!(divide(i32::MIN, 1), Ok(i32::MIN));
    assert_eq!(divide(i32::MIN, 2), Ok(-1073741824));
    assert_eq!(divide(i32::MAX, -1), Ok(-i32::MAX));
}

#[test]
fn divide_by_zero_is_an_error() {
    assert_eq!(divide(10, 0), Err(String::from("除数不能为零")));
    assert_eq!(divide(0, 0), Err(String::from("除数不能为零")));
    assert_eq!(divide(i32::MIN, 0), Err(String::from("除数不能为零")));
}

#[test]
fn calculate_doubles_the_quotient() {
    assert_eq!(calculate(10, 2), Ok(10));
    assert_eq!(calculate(10, 0), Err(String::from("除数不能为零")));
    assert_eq!(calculate(-9, 2), Ok(-8));
    assert_eq!(calculate(9, -2), Ok(-8));
    assert_eq!(calculate(i32::MAX, 2), Ok(2147483646));
}

#[test]
fn grade_names_each_band() {
    assert_eq!(grade(50), "不及格");
    assert_eq!(grade(75), "及格");
    assert_eq!(grade(85), "良好");
    assert_eq!(grade(95), "优秀");
    assert_eq!(grade(101), "无效成绩");
    assert_eq!(grade(0), "不及格");
    assert_eq!(grade(59), "不及格");
    assert_eq!(grade(60), "及格");
    assert_eq!(grade(79), "及格");
    assert_eq!(grade(80), "良好");
    assert_eq!(grade(89), "良好");
    assert_eq!(grade(90), "优秀");
    assert_eq!(grade(100), "优秀");
    assert_eq!(grade(u32::MAX), "无效成绩");
}

#[test]
fn create_user_checks_name_then_password() {
    assert_eq!(create_user("alice", "password123"), Ok(()));
    assert_eq!(
        create_user("bo", "password123"),
        Err(UserError::InvalidUsername(String::from("bo")))
    );
    assert_eq!(create_user("charlie", "pass"), Err(UserError::InvalidPasswordLength));
    assert_eq!(create_user("", ""), Err(UserError::InvalidUsername(String::new())));
    assert_eq!(create_user("bo", "pass"), Err(UserError::InvalidUsername(String::from("bo"))));
    assert_eq!(create_user("abc", "12345678"), Ok(()));
    assert_eq!(create_user("abc", "1234567"), Err(UserError::InvalidPasswordLength));
}

#[test]
fn create_user_counts_bytes() {
    assert_eq!(create_user("李", "密码密码密"), Ok(()));
    assert_eq!(create_user("é", "12345678"), Err(UserError::InvalidUsername(String::from("é"))));
    assert_eq!(create_user("abc", "密码1"), Err(UserError::InvalidPasswordLength));
}

#[test]
fn user_error_messages() {
    assert_eq!(
        UserError::InvalidUsername(String::from("bo")).message(),
        "无效的用户名: 'bo'. 用户名必须至少包含 3 个字符."
    );
    assert_eq!(
        UserError::InvalidPasswordLength.message(),
        "无效的密码长度. 密码必须至少包含 8 个字符."
    );
}

#[test]
fn longest_prefers_the_second_on_a_tie() {
    assert_eq!(longest("abcd", "xyz"), "abcd");
    assert_eq!(longest("hello", "world"), "world");
    assert_eq!(longest("", "a"), "a");
    assert_eq!(longest("a", ""), "a");
    assert_eq!(longest("", ""), "");
    assert_eq!(longest("生", "ab"), "生");
    let x = String::from("same");
    let y = String::from("size");
    assert!(std::ptr::eq(longest(&x, &y), y.as_str()));
}

#[test]
fn first_word_stops_at_the_first_space() {
    assert_eq!(first_word("hello world"), "hello");
    assert_eq!(first_word("hello"), "hello");
    assert_eq!(first_word(""), "");
    assert_eq!(first_word(" hello"), "");
    assert_eq!(first_word("a b c"), "a");
    assert_eq!(first_word("tab\tnot space"), "tab\tnot");
    assert_eq!(first_word("生命 周期"), "生命");
    assert_eq!(first_word("wide\u{3000}gap end"), "wide\u{3000}gap");
}

#[test]
fn directions_have_their_names() {
    assert_eq!(direction_text(Direction::North), "向北");
    assert_eq!(direction_text(Direction::East), "向东");
    assert_eq!(direction_text(Direction::South), "向南");
    assert_eq!(direction_text(Direction::West), "向西");
}

#[test]
fn message_type_names_the_shape_only() {
    assert_eq!(message_type_text(&Message::Quit), "消息类型: Quit");
    assert_eq!(message_type_text(&Message::Move { x: 10, y: 20 }), "消息类型: Move");
    assert_eq!(message_type_text(&Message::Move { x: -1, y: 0 }), "消息类型: Move");
    assert_eq!(message_type_text(&Message::Write(String::from("Hello, Rust!"))), "消息类型: Write");
    assert_eq!(message_type_text(&Message::ChangeColor(255, 0, 0)), "消息类型: ChangeColor");
}

#[test]
fn ip_addresses_are_written_out() {
    assert_eq!(ip_address_text(&IpAddr::V4(127, 0, 0, 1)), "IPv4 地址: 127.0.0.1");
    assert_eq!(ip_address_text(&IpAddr::V4(255, 255, 255, 255)), "IPv4 地址: 255.255.255.255");
    assert_eq!(ip_address_text(&IpAddr::V4(0, 10, 100, 9)), "IPv4 地址: 0.10.100.9");
    assert_eq!(ip_address_text(&IpAddr::V6(String::from("::1"))), "IPv6 地址: ::1");
    assert_eq!(ip_address_text(&IpAddr::V6(String::new())), "IPv6 地址: ");
}

#[test]
fn inputs_are_written_out_by_kind() {
    assert_eq!(input_text(&Input::Number(42)), "数字输入: 42");
    assert_eq!(input_text(&Input::Number(-42)), "数字输入: -42");
    assert_eq!(input_text(&Input::Text(String::from("Hello"))), "文本输入: Hello");
    assert_eq!(input_text(&Input::Boolean(true)), "布尔输入: true");
    assert_eq!(input_text(&Input::Boolean(false)), "布尔输入: false");
}

#[test]
fn options_are_written_out() {
    assert_eq!(option_text(Some(5)), "有值: 5");
    assert_eq!(option_text(Some(-5)), "有值: -5");
    assert_eq!(option_text(None), "无值");
    assert_eq!(option_string_text(&Some(String::from("Hello"))), "有字符串值: Hello");
    assert_eq!(option_string_text(&Some(String::new())), "有字符串值: ");
    assert_eq!(option_string_text(&None), "无值");
}
