use rustlearn::catalog::{catalog, Lesson};
use rustlearn::dispatcher::Notice;
use rustlearn::menu::{entry_text, menu_text};

#[test]
fn menu_lists_the_catalog_in_order() {
    let expected = vec![
        "=== Rust 学习示例程序 ===",
        "请选择您想学习的知识点:",
        "1. 变量和数据类型 (Variables and Data Types)",
        "2. 函数和流程控制 (Functions and Control Flow)",
        "3. 结构体 (Structs)",
        "4. 枚举 (Enums)",
        "5. 模式匹配 (Pattern Matching)",
        "6. 常见集合及其操作 (Collections)",
        "7. 包和模块 (Packages and Modules)",
        "8. 错误处理 (Error Handling)",
        "9. 泛型 (Generics)",
        "10. 生命周期 (Lifetimes)",
        "q. 退出程序",
    ];
    assert_eq!(menu_text(), expected);
}

#[test]
fn menu_is_the_same_every_time() {
    let first = Notice::Menu.lines();
    for _ in 0..5 {
        assert_eq!(Notice::Menu.lines(), first);
    }
    assert_eq!(first, menu_text());
}

#[test]
fn catalog_order_is_fixed() {
    let expected = vec![
        Lesson::Variables,
        Lesson::Functions,
        Lesson::Structs,
        Lesson::Enums,
        Lesson::PatternMatching,
        Lesson::Collections,
        Lesson::Modules,
        Lesson::ErrorHandling,
        Lesson::Generics,
        Lesson::Lifetimes,
    ];
    assert_eq!(catalog(), expected);
    assert_eq!(catalog(), catalog());
    for (place, lesson) in expected.iter().enumerate() {
        assert_eq!(lesson.number(), place as u64 + 1);
    }
}

#[test]
fn identifiers_are_unique() {
    let all = catalog();
    for a in &all {
        for b in &all {
            assert_eq!(a.identifier() == b.identifier(), a == b);
        }
    }
}

#[test]
fn entry_line_joins_identifier_and_title() {
    assert_eq!(entry_text(Lesson::Enums), "4. 枚举 (Enums)");
    assert_eq!(Lesson::Enums.title(), "枚举 (Enums)");
    assert_eq!(Lesson::Lifetimes.identifier(), "10");
}

#[test]
fn other_notices_read_as_written() {
    assert_eq!(Notice::ContinuePrompt.lines(), vec!["", "按回车键继续..."]);
    assert_eq!(Notice::InvalidChoice.lines(), vec!["无效的选择，请重新输入。", ""]);
    assert_eq!(Notice::Farewell.lines(), vec!["感谢使用 Rust 学习示例程序！再见！"]);
}
