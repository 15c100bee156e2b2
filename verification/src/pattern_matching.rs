//! The helper of the lesson on pattern matching.

use vstd::prelude::*;

verus! {

/// The name of the grade that a score earns.
pub open spec fn grade_of(score: int) -> Seq<char> {
    if 0 <= score <= 59 {
        "不及格"@
    } else if 60 <= score <= 79 {
        "及格"@
    } else if 80 <= score <= 89 {
        "良好"@
    } else if 90 <= score <= 100 {
        "优秀"@
    } else {
        "无效成绩"@
    }
}

/// Names the grade for `score`: failed up to 59, passed up to 79, good up to
/// 89, excellent up to 100, and not a valid score above that.
pub fn grade(score: u32) -> (name: &'static str)
    ensures
        name@ == grade_of(score as int),
{
    match score {
        0..=59 => "不及格",
        60..=79 => "及格",
        80..=89 => "良好",
        90..=100 => "优秀",
        _ => "无效成绩",
    }
}

} // verus!
