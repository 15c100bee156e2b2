//! The fixed catalog of lessons: which lessons there are, in which order they
//! are listed, and under which identifier and title each one is offered.

use crate::decimal::{digits, lemma_digits_injective};
use crate::text::same_text;
use vstd::prelude::*;

verus! {

/// One lesson of the catalog. The set is closed: the caller maps each variant
/// to the procedure that presents it.
#[derive(Clone, Copy, Debug, PartialEq, Eq, Structural)]
pub enum Lesson {
    Variables,
    Functions,
    Structs,
    Enums,
    PatternMatching,
    Collections,
    Modules,
    ErrorHandling,
    Generics,
    Lifetimes,
}

/// How many lessons the catalog lists.
pub const LESSON_COUNT: usize = 10;

/// The lessons in the order in which the catalog lists them.
pub open spec fn catalog_order() -> Seq<Lesson> {
    seq![
        Lesson::Variables,
        Lesson::Functions,
        Lesson::Structs,
        Lesson::Enums,
        Lesson::PatternMatching,
        Lesson::Collections,
        Lesson::Modules,
        Lesson::ErrorHandling,
        Lesson::Generics,
        Lesson::Lifetimes,
    ]
}

impl Lesson {
    /// The lesson's number: its place in the catalog, counted from one.
    pub open spec fn number_spec(self) -> nat {
        match self {
            Lesson::Variables => 1,
            Lesson::Functions => 2,
            Lesson::Structs => 3,
            Lesson::Enums => 4,
            Lesson::PatternMatching => 5,
            Lesson::Collections => 6,
            Lesson::Modules => 7,
            Lesson::ErrorHandling => 8,
            Lesson::Generics => 9,
            Lesson::Lifetimes => 10,
        }
    }

    /// The token a reader types to choose the lesson: its number in decimal.
    pub open spec fn identifier_spec(self) -> Seq<char> {
        digits(self.number_spec())
    }

    /// The description shown beside the identifier.
    pub open spec fn title_spec(self) -> Seq<char> {
        match self {
            Lesson::Variables => "变量和数据类型 (Variables and Data Types)"@,
            Lesson::Functions => "函数和流程控制 (Functions and Control Flow)"@,
            Lesson::Structs => "结构体 (Structs)"@,
            Lesson::Enums => "枚举 (Enums)"@,
            Lesson::PatternMatching => "模式匹配 (Pattern Matching)"@,
            Lesson::Collections => "常见集合及其操作 (Collections)"@,
            Lesson::Modules => "包和模块 (Packages and Modules)"@,
            Lesson::ErrorHandling => "错误处理 (Error Handling)"@,
            Lesson::Generics => "泛型 (Generics)"@,
            Lesson::Lifetimes => "生命周期 (Lifetimes)"@,
        }
    }

    /// The lesson's number, from 1 to 10.
    pub fn number(&self) -> (n: u64)
        ensures
            n == self.number_spec(),
            1 <= n <= LESSON_COUNT,
            catalog_order()[n - 1] == *self,
    {
        match self {
            Lesson::Variables => 1,
            Lesson::Functions => 2,
            Lesson::Structs => 3,
            Lesson::Enums => 4,
            Lesson::PatternMatching => 5,
            Lesson::Collections => 6,
            Lesson::Modules => 7,
            Lesson::ErrorHandling => 8,
            Lesson::Generics => 9,
            Lesson::Lifetimes => 10,
        }
    }

    /// The token that selects the lesson.
    pub fn identifier(&self) -> (id: &'static str)
        ensures
            id@ == self.identifier_spec(),
    {
        proof {
            reveal_with_fuel(digits, 2);
            reveal_strlit("1");
            reveal_strlit("2");
            reveal_strlit("3");
            reveal_strlit("4");
            reveal_strlit("5");
            reveal_strlit("6");
            reveal_strlit("7");
            reveal_strlit("8");
            reveal_strlit("9");
            reveal_strlit("10");
        }
        let id: &'static str = match self {
            Lesson::Variables => "1",
            Lesson::Functions => "2",
            Lesson::Structs => "3",
            Lesson::Enums => "4",
            Lesson::PatternMatching => "5",
            Lesson::Collections => "6",
            Lesson::Modules => "7",
            Lesson::ErrorHandling => "8",
            Lesson::Generics => "9",
            Lesson::Lifetimes => "10",
        };
        assert(id@ =~= self.identifier_spec());
        id
    }

    /// The lesson's title.
    pub fn title(&self) -> (t: &'static str)
        ensures
            t@ == self.title_spec(),
    {
        match self {
            Lesson::Variables => "变量和数据类型 (Variables and Data Types)",
            Lesson::Functions => "函数和流程控制 (Functions and Control Flow)",
            Lesson::Structs => "结构体 (Structs)",
            Lesson::Enums => "枚举 (Enums)",
            Lesson::PatternMatching => "模式匹配 (Pattern Matching)",
            Lesson::Collections => "常见集合及其操作 (Collections)",
            Lesson::Modules => "包和模块 (Packages and Modules)",
            Lesson::ErrorHandling => "错误处理 (Error Handling)",
            Lesson::Generics => "泛型 (Generics)",
            Lesson::Lifetimes => "生命周期 (Lifetimes)",
        }
    }
}

/// The catalog: every lesson once, in listing order.
pub fn catalog() -> (all: Vec<Lesson>)
    ensures
        all@ == catalog_order(),
        all@.len() == LESSON_COUNT,
{
    let all: Vec<Lesson> = vec![
        Lesson::Variables,
        Lesson::Functions,
        Lesson::Structs,
        Lesson::Enums,
        Lesson::PatternMatching,
        Lesson::Collections,
        Lesson::Modules,
        Lesson::ErrorHandling,
        Lesson::Generics,
        Lesson::Lifetimes,
    ];
    assert(all@ =~= catalog_order());
    all
}

/// Every lesson stands in the catalog, at the place its number gives, and
/// nowhere else.
pub proof fn law_catalog_lists_each_lesson_once(l: Lesson, i: int)
    requires
        0 <= i < catalog_order().len(),
    ensures
        catalog_order().len() == LESSON_COUNT,
        catalog_order()[l.number_spec() - 1] == l,
        catalog_order()[i] == l <==> i == l.number_spec() - 1,
{
}

/// No two lessons share an identifier.
pub proof fn law_identifiers_unique(a: Lesson, b: Lesson)
    requires
        a.identifier_spec() == b.identifier_spec(),
    ensures
        a == b,
{
    lemma_digits_injective(a.number_spec(), b.number_spec());
}

/// Some lesson has the identifier `token`.
pub open spec fn is_identifier(token: Seq<char>) -> bool {
    exists|l: Lesson| #[trigger] l.identifier_spec() == token
}

/// The lesson whose identifier is `token`, where there is one.
pub open spec fn lesson_named(token: Seq<char>) -> Option<Lesson> {
    if is_identifier(token) {
        Some(choose|l: Lesson| #[trigger] l.identifier_spec() == token)
    } else {
        None
    }
}

/// Looking a lesson up under its own identifier finds that lesson.
pub proof fn law_lookup_finds_lesson(l: Lesson)
    ensures
        lesson_named(l.identifier_spec()) == Some(l),
{
    let token = l.identifier_spec();
    assert(is_identifier(token));
    let found = choose|m: Lesson| #[trigger] m.identifier_spec() == token;
    law_identifiers_unique(found, l);
}

/// Finds the lesson that `token` names. The match is exact: no character more,
/// none less, none in another case.
pub fn lookup(token: &str) -> (found: Option<Lesson>)
    ensures
        found == lesson_named(token@),
{
    let all: Vec<Lesson> = catalog();
    let mut i: usize = 0;
    while i < all.len()
        invariant
            i <= all.len(),
            all@ == catalog_order(),
            forall|k: int| 0 <= k < i ==> (#[trigger] all@[k]).identifier_spec() != token@,
        decreases all.len() - i,
    {
        let l: Lesson = all[i];
        if same_text(token, l.identifier()) {
            proof {
                law_lookup_finds_lesson(l);
            }
            return Some(l);
        }
        i = i + 1;
    }
    proof {
        assert forall|l: Lesson| #[trigger] l.identifier_spec() != token@ by {
            assert(all@[l.number_spec() - 1] == l);
        }
    }
    None
}

} // verus!
