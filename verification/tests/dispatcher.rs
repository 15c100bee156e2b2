use rustlearn::catalog::{catalog, lookup, Lesson};
use rustlearn::dispatcher::{
    replay, resolve, select, start, step, Effect, Ending, Notice, Selection, State, Step,
};

fn lines(input: &[&str]) -> Vec<String> {
    input.iter().map(|line| line.to_string()).collect()
}

#[test]
fn session_starts_prompting_with_the_menu() {
    let first = start();
    assert_eq!(first.next, State::Prompting);
    assert_eq!(first.effects, vec![Effect::Show(Notice::Menu)]);
}

#[test]
fn every_identifier_runs_its_own_lesson() {
    let all = catalog();
    assert_eq!(all.len(), 10);
    for (place, lesson) in all.iter().enumerate() {
        let token = (place + 1).to_string();
        assert_eq!(lesson.identifier(), token);
        let answer = step(State::Prompting, &token);
        assert_eq!(answer.next, State::Executing(*lesson));
        assert_eq!(
            answer.effects,
            vec![Effect::Run(*lesson), Effect::Show(Notice::ContinuePrompt)]
        );
    }
}

#[test]
fn identifier_five_is_pattern_matching() {
    assert_eq!(select("5"), Selection::Lesson(Lesson::PatternMatching));
    assert_eq!(select("10"), Selection::Lesson(Lesson::Lifetimes));
    assert_eq!(select("1"), Selection::Lesson(Lesson::Variables));
}

#[test]
fn quit_token_terminates_in_either_case() {
    for token in ["q", "Q", " q\n", "\tQ \r\n"] {
        let answer = step(State::Prompting, token);
        assert_eq!(answer.next, State::Terminated);
        assert_eq!(answer.effects, vec![Effect::Show(Notice::Farewell)]);
        assert!(answer.next.is_terminated());
    }
}

#[test]
fn unknown_tokens_leave_the_session_prompting() {
    for token in [
        "0", "11", "99", "abc", "1 0", "01", "1.", "+1", "-1", "q q", "qq", "quit", "Quit", "",
        "   ", "\n", "\u{ff11}", "1\u{0}",
    ] {
        let answer = step(State::Prompting, token);
        assert_eq!(answer.next, State::Prompting, "token {:?}", token);
        assert_eq!(
            answer.effects,
            vec![Effect::Show(Notice::InvalidChoice), Effect::Show(Notice::Menu)],
            "token {:?}",
            token
        );
        assert!(!answer.next.is_terminated());
    }
}

#[test]
fn blank_line_is_an_invalid_choice() {
    assert_eq!(select(""), Selection::Invalid);
    assert_eq!(select("\n"), Selection::Invalid);
    assert_eq!(select(" \t \r\n"), Selection::Invalid);
}

#[test]
fn whitespace_around_a_token_does_not_matter() {
    assert_eq!(select(" 3 \n"), select("3"));
    assert_eq!(select(" 3 \n"), Selection::Lesson(Lesson::Structs));
    assert_eq!(select("\t10\r\n"), Selection::Lesson(Lesson::Lifetimes));
    assert_eq!(select("\u{3000}7\u{a0}\u{2028}"), Selection::Lesson(Lesson::Modules));
    assert_eq!(select("  Q"), Selection::Quit);
    assert_eq!(select(" zz "), select("zz"));
    for state in [State::Prompting, State::Executing(Lesson::Enums), State::Terminated] {
        let padded: Step = step(state, " 3 \n");
        let plain: Step = step(state, "3");
        assert_eq!(padded, plain);
    }
}

#[test]
fn whitespace_inside_a_token_is_kept() {
    assert_eq!(resolve("1 0"), Selection::Invalid);
    assert_eq!(resolve(" 1"), Selection::Invalid);
    assert_eq!(resolve("1 "), Selection::Invalid);
    assert_eq!(resolve("q "), Selection::Invalid);
}

#[test]
fn lookup_is_exact() {
    assert_eq!(lookup("8"), Some(Lesson::ErrorHandling));
    assert_eq!(lookup("9"), Some(Lesson::Generics));
    assert_eq!(lookup("08"), None);
    assert_eq!(lookup("q"), None);
    assert_eq!(lookup(""), None);
    assert_eq!(lookup("100"), None);
}

#[test]
fn continue_line_is_not_a_selection() {
    for line in ["", "5", "q", "Q", "anything"] {
        let answer = step(State::Executing(Lesson::Collections), line);
        assert_eq!(answer.next, State::Prompting);
        assert_eq!(answer.effects, vec![Effect::Show(Notice::Menu)]);
    }
}

#[test]
fn terminated_session_does_nothing_more() {
    for line in ["1", "q", ""] {
        let answer = step(State::Terminated, line);
        assert_eq!(answer.next, State::Terminated);
        assert!(answer.effects.is_empty());
    }
}

#[test]
fn lesson_then_blank_line_then_quit() {
    let transcript = replay(&lines(&["5", "", "q"]));
    assert_eq!(
        transcript.effects,
        vec![
            Effect::Show(Notice::Menu),
            Effect::Run(Lesson::PatternMatching),
            Effect::Show(Notice::ContinuePrompt),
            Effect::Show(Notice::Menu),
            Effect::Show(Notice::Farewell),
        ]
    );
    assert_eq!(transcript.ending, Ending::Quit);
}

#[test]
fn invalid_choice_then_input_closed() {
    let transcript = replay(&lines(&["99"]));
    assert_eq!(
        transcript.effects,
        vec![
            Effect::Show(Notice::Menu),
            Effect::Show(Notice::InvalidChoice),
            Effect::Show(Notice::Menu),
        ]
    );
    assert_eq!(transcript.ending, Ending::InputClosed);
}

#[test]
fn empty_input_closes_after_the_first_menu() {
    let transcript = replay(&Vec::new());
    assert_eq!(transcript.effects, vec![Effect::Show(Notice::Menu)]);
    assert_eq!(transcript.ending, Ending::InputClosed);
}

#[test]
fn input_closed_while_waiting_to_continue() {
    let transcript = replay(&lines(&["2\n"]));
    assert_eq!(
        transcript.effects,
        vec![
            Effect::Show(Notice::Menu),
            Effect::Run(Lesson::Functions),
            Effect::Show(Notice::ContinuePrompt),
        ]
    );
    assert_eq!(transcript.ending, Ending::InputClosed);
}

#[test]
fn lines_after_quit_are_never_read() {
    let transcript = replay(&lines(&["Q", "1", "2"]));
    assert_eq!(
        transcript.effects,
        vec![Effect::Show(Notice::Menu), Effect::Show(Notice::Farewell)]
    );
    assert_eq!(transcript.ending, Ending::Quit);
}

#[test]
fn quit_typed_at_the_continue_prompt_does_not_quit() {
    let transcript = replay(&lines(&["5", "q", "3", "", "q"]));
    assert_eq!(
        transcript.effects,
        vec![
            Effect::Show(Notice::Menu),
            Effect::Run(Lesson::PatternMatching),
            Effect::Show(Notice::ContinuePrompt),
            Effect::Show(Notice::Menu),
            Effect::Run(Lesson::Structs),
            Effect::Show(Notice::ContinuePrompt),
            Effect::Show(Notice::Menu),
            Effect::Show(Notice::Farewell),
        ]
    );
    assert_eq!(transcript.ending, Ending::Quit);
}

#[test]
fn replay_is_step_by_step() {
    let input = lines(&["1", "x", "zz", "10", "", " q "]);
    let mut state = State::Prompting;
    let mut effects = start().effects;
    for line in &input {
        if state.is_terminated() {
            break;
        }
        let answer = step(state, line);
        effects.extend(answer.effects.iter().copied());
        state = answer.next;
    }
    let transcript = replay(&input);
    assert_eq!(transcript.effects, effects);
    assert_eq!(transcript.ending, Ending::Quit);
    let runs: Vec<&Effect> =
        transcript.effects.iter().filter(|e| matches!(e, Effect::Run(_))).collect();
    assert_eq!(runs, vec![&Effect::Run(Lesson::Variables), &Effect::Run(Lesson::Lifetimes)]);
}
