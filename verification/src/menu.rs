//! The text of each notice, line by line.
//!
//! A notice is a fixed text: it does not depend on what was typed before, so
//! the menu reads the same every time it is shown.

use crate::catalog::{catalog, catalog_order, Lesson, LESSON_COUNT};
use crate::dispatcher::{lines_of, Notice};
use vstd::prelude::*;

verus! {

/// The line that heads the menu.
pub open spec fn banner() -> Seq<char> {
    "=== Rust 学习示例程序 ==="@
}

/// The line that asks the reader to choose.
pub open spec fn invitation() -> Seq<char> {
    "请选择您想学习的知识点:"@
}

/// The line that offers the quit token.
pub open spec fn quit_entry() -> Seq<char> {
    "q. 退出程序"@
}

/// The line that offers lesson `l`: identifier, full stop, space, title.
pub open spec fn entry_line(l: Lesson) -> Seq<char> {
    l.identifier_spec() + ". "@ + l.title_spec()
}

/// The lines that offer the lessons `order`, one line each, in that order.
pub open spec fn entry_lines(order: Seq<Lesson>) -> Seq<Seq<char>> {
    Seq::new(order.len(), |i: int| entry_line(order[i]))
}

/// The menu: banner, invitation, one line per lesson in catalog order, and
/// the quit entry.
pub open spec fn menu_lines() -> Seq<Seq<char>> {
    seq![banner(), invitation()] + entry_lines(catalog_order()) + seq![quit_entry()]
}

/// The lines of a notice. An empty sequence is a blank line.
pub open spec fn notice_lines(notice: Notice) -> Seq<Seq<char>> {
    match notice {
        Notice::Menu => menu_lines(),
        Notice::ContinuePrompt => seq![Seq::empty(), "按回车键继续..."@],
        Notice::InvalidChoice => seq!["无效的选择，请重新输入。"@, Seq::empty()],
        Notice::Farewell => seq!["感谢使用 Rust 学习示例程序！再见！"@],
    }
}

/// The menu has a line for every lesson, at the place the catalog gives it,
/// between the two heading lines and the quit entry.
pub proof fn law_menu_follows_catalog(i: int)
    requires
        0 <= i < LESSON_COUNT,
    ensures
        menu_lines().len() == LESSON_COUNT + 3,
        menu_lines()[0] == banner(),
        menu_lines()[1] == invitation(),
        menu_lines()[2 + i] == entry_line(catalog_order()[i]),
        menu_lines()[LESSON_COUNT + 2] == quit_entry(),
{
}

/// Writes the line that offers `lesson`.
pub fn entry_text(lesson: Lesson) -> (line: String)
    ensures
        line@ == entry_line(lesson),
{
    let mut line: String = String::from_str(lesson.identifier());
    line.append(". ");
    line.append(lesson.title());
    line
}

/// Writes the menu.
pub fn menu_text() -> (lines: Vec<String>)
    ensures
        lines_of(lines@) == menu_lines(),
{
    let all: Vec<Lesson> = catalog();
    let mut lines: Vec<String> = Vec::new();
    lines.push(String::from_str("=== Rust 学习示例程序 ==="));
    lines.push(String::from_str("请选择您想学习的知识点:"));
    let mut i: usize = 0;
    while i < all.len()
        invariant
            i <= all.len(),
            all@ == catalog_order(),
            lines@.len() == 2 + i,
            lines@[0]@ == banner(),
            lines@[1]@ == invitation(),
            forall|k: int| 0 <= k < i ==> (#[trigger] lines@[2 + k])@ == entry_line(all@[k]),
        decreases all.len() - i,
    {
        lines.push(entry_text(all[i]));
        i = i + 1;
    }
    let ghost listed = lines@;
    lines.push(String::from_str("q. 退出程序"));
    proof {
        let shown = lines_of(lines@);
        assert(shown.len() == menu_lines().len());
        assert forall|j: int| 0 <= j < shown.len() implies shown[j] == menu_lines()[j] by {
            if 2 <= j < 2 + LESSON_COUNT {
                assert(lines@[j] == listed[2 + (j - 2)]);
                assert(menu_lines()[j] == entry_lines(catalog_order())[j - 2]);
            } else if j < 2 {
                assert(lines@[j] == listed[j]);
            }
        }
        assert(shown =~= menu_lines());
    }
    lines
}

impl Notice {
    /// Writes the notice, one string per line, without line terminators.
    pub fn lines(&self) -> (lines: Vec<String>)
        ensures
            lines_of(lines@) == notice_lines(*self),
    {
        match self {
            Notice::Menu => menu_text(),
            Notice::ContinuePrompt => {
                let lines: Vec<String> = vec![String::new(), String::from_str("按回车键继续...")];
                assert(lines_of(lines@) =~= notice_lines(*self));
                lines
            },
            Notice::InvalidChoice => {
                let lines: Vec<String> = vec![
                    String::from_str("无效的选择，请重新输入。"),
                    String::new(),
                ];
                assert(lines_of(lines@) =~= notice_lines(*self));
                lines
            },
            Notice::Farewell => {
                let lines: Vec<String> = vec![
                    String::from_str("感谢使用 Rust 学习示例程序！再见！"),
                ];
                assert(lines_of(lines@) =~= notice_lines(*self));
                lines
            },
        }
    }
}

} // verus!
