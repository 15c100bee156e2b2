//! The lesson dispatcher: what a line of input selects, and what the program
//! does next.
//!
//! The dispatcher never reads or prints. It is handed each line that was read
//! and answers with the effects to perform, in order, before the next line is
//! read. A caller that performs them faithfully behaves as the contracts say.

use crate::catalog::{is_identifier, law_lookup_finds_lesson, lesson_named, lookup, Lesson};
use crate::decimal::{lemma_digits_are_digits, lemma_digits_value};
use crate::text::{
    all_space, law_trim_ignores_padding, law_trim_keeps_tight_text, lemma_trim_of_blank, same_text,
    trim, trimmed,
};
use vstd::prelude::*;

verus! {

/// What a token of input asks for.
#[derive(Clone, Copy, Debug, PartialEq, Eq, Structural)]
pub enum Selection {
    /// The token is the identifier of this lesson.
    Lesson(Lesson),
    /// The token is the quit token.
    Quit,
    /// The token is neither.
    Invalid,
}

/// Where the dispatcher stands between two reads.
#[derive(Clone, Copy, Debug, PartialEq, Eq, Structural)]
pub enum State {
    /// The menu is on screen and the next line is taken as a selection.
    Prompting,
    /// This lesson was selected. It runs, the continue prompt follows, and the
    /// next line only acknowledges it.
    Executing(Lesson),
    /// The reader has quit. No further line is read.
    Terminated,
}

/// A fixed piece of text that the dispatcher has shown to the reader.
#[derive(Clone, Copy, Debug, PartialEq, Eq, Structural)]
pub enum Notice {
    /// The catalog, followed by the quit entry.
    Menu,
    /// The request to press enter after a lesson.
    ContinuePrompt,
    /// The complaint about a token that selects nothing.
    InvalidChoice,
    /// The farewell.
    Farewell,
}

/// One thing for the caller to do.
#[derive(Clone, Copy, Debug, PartialEq, Eq, Structural)]
pub enum Effect {
    /// Print this notice.
    Show(Notice),
    /// Run this lesson to its end.
    Run(Lesson),
}

/// The answer to one line of input.
#[derive(Debug, PartialEq, Eq)]
pub struct Step {
    /// The state in which the next line is read.
    pub next: State,
    /// What to do before reading it, in order.
    pub effects: Vec<Effect>,
}

/// How a session over a finite input came to its end.
#[derive(Clone, Copy, Debug, PartialEq, Eq, Structural)]
pub enum Ending {
    /// The reader quit.
    Quit,
    /// A line was wanted and the input had none left. For a program this is
    /// fatal.
    InputClosed,
}

/// Everything a session did, and how it ended.
#[derive(Debug, PartialEq, Eq)]
pub struct Transcript {
    /// The effects of the whole session, in order.
    pub effects: Vec<Effect>,
    /// Why the session stopped.
    pub ending: Ending,
}

/// The quit token in either of its two spellings.
pub open spec fn is_quit_token(token: Seq<char>) -> bool {
    token == seq!['q'] || token == seq!['Q']
}

/// What the token selects. Identifiers are matched exactly; the quit token is
/// accepted in lower and in upper case.
pub open spec fn resolve_spec(token: Seq<char>) -> Selection {
    match lesson_named(token) {
        Some(l) => Selection::Lesson(l),
        None => if is_quit_token(token) {
            Selection::Quit
        } else {
            Selection::Invalid
        },
    }
}

/// What a line of input selects: what its token selects, the token being the
/// line without the whitespace around it.
pub open spec fn selection_of(line: Seq<char>) -> Selection {
    resolve_spec(trim(line))
}

/// The state after `line` was read in `state`.
pub open spec fn next_state(state: State, line: Seq<char>) -> State {
    match state {
        State::Prompting => match selection_of(line) {
            Selection::Lesson(l) => State::Executing(l),
            Selection::Quit => State::Terminated,
            Selection::Invalid => State::Prompting,
        },
        State::Executing(_) => State::Prompting,
        State::Terminated => State::Terminated,
    }
}

/// What is done after `line` was read in `state`, up to the next read.
pub open spec fn effects_of(state: State, line: Seq<char>) -> Seq<Effect> {
    match state {
        State::Prompting => match selection_of(line) {
            Selection::Lesson(l) => seq![Effect::Run(l), Effect::Show(Notice::ContinuePrompt)],
            Selection::Quit => seq![Effect::Show(Notice::Farewell)],
            Selection::Invalid => seq![
                Effect::Show(Notice::InvalidChoice),
                Effect::Show(Notice::Menu),
            ],
        },
        State::Executing(_) => seq![Effect::Show(Notice::Menu)],
        State::Terminated => Seq::empty(),
    }
}

/// What a session does before its first read.
pub open spec fn opening() -> Seq<Effect> {
    seq![Effect::Show(Notice::Menu)]
}

/// Says what `token` selects.
pub fn resolve(token: &str) -> (s: Selection)
    ensures
        s == resolve_spec(token@),
{
    match lookup(token) {
        Some(l) => Selection::Lesson(l),
        None => {
            proof {
                reveal_strlit("q");
                reveal_strlit("Q");
                assert("q"@ =~= seq!['q']);
                assert("Q"@ =~= seq!['Q']);
            }
            if same_text(token, "q") || same_text(token, "Q") {
                Selection::Quit
            } else {
                Selection::Invalid
            }
        },
    }
}

/// Says what a line of input selects, whatever whitespace surrounds its token.
pub fn select(line: &str) -> (s: Selection)
    ensures
        s == selection_of(line@),
{
    resolve(trimmed(line))
}

impl State {
    /// Whether the session is over.
    pub fn is_terminated(&self) -> (b: bool)
        ensures
            b == (*self is Terminated),
    {
        match self {
            State::Terminated => true,
            _ => false,
        }
    }
}

/// Begins a session: the menu is shown and the first line is a selection.
pub fn start() -> (first: Step)
    ensures
        first.next == State::Prompting,
        first.effects@ == opening(),
{
    let effects: Vec<Effect> = vec![Effect::Show(Notice::Menu)];
    assert(effects@ =~= opening());
    Step { next: State::Prompting, effects }
}

/// Takes the line that was read in `state` and says what follows.
///
/// In `Prompting` the line is a selection: a lesson's identifier runs that
/// lesson and then asks to continue; the quit token says farewell and ends
/// the session; anything else is reported as invalid and the menu is shown
/// again, with no continue prompt. In `Executing` the line acknowledges the
/// continue prompt, whatever it holds, and the menu is shown again. In
/// `Terminated` nothing happens any more.
pub fn step(state: State, line: &str) -> (answer: Step)
    ensures
        answer.next == next_state(state, line@),
        answer.effects@ == effects_of(state, line@),
{
    match state {
        State::Prompting => match select(line) {
            Selection::Lesson(l) => {
                let effects: Vec<Effect> = vec![
                    Effect::Run(l),
                    Effect::Show(Notice::ContinuePrompt),
                ];
                assert(effects@ =~= effects_of(state, line@));
                Step { next: State::Executing(l), effects }
            },
            Selection::Quit => {
                let effects: Vec<Effect> = vec![Effect::Show(Notice::Farewell)];
                assert(effects@ =~= effects_of(state, line@));
                Step { next: State::Terminated, effects }
            },
            Selection::Invalid => {
                let effects: Vec<Effect> = vec![
                    Effect::Show(Notice::InvalidChoice),
                    Effect::Show(Notice::Menu),
                ];
                assert(effects@ =~= effects_of(state, line@));
                Step { next: State::Prompting, effects }
            },
        },
        State::Executing(_) => {
            let effects: Vec<Effect> = vec![Effect::Show(Notice::Menu)];
            assert(effects@ =~= effects_of(state, line@));
            Step { next: State::Prompting, effects }
        },
        State::Terminated => Step { next: State::Terminated, effects: Vec::new() },
    }
}

/// An identifier is not changed by trimming, and it is not the quit token.
pub proof fn lemma_identifier_is_plain(l: Lesson)
    ensures
        trim(l.identifier_spec()) == l.identifier_spec(),
        !is_quit_token(l.identifier_spec()),
        l.identifier_spec().len() > 0,
{
    let id = l.identifier_spec();
    lemma_digits_are_digits(l.number_spec());
    lemma_digits_value(l.number_spec());
    assert(crate::decimal::is_digit(id[0]));
    assert(crate::decimal::is_digit(id.last()));
    law_trim_keeps_tight_text(id);
}

/// A lesson's identifier, given in `Prompting`, runs that lesson and no other,
/// and the continue prompt comes right after it.
pub proof fn law_identifier_runs_its_lesson(l: Lesson)
    ensures
        selection_of(l.identifier_spec()) == Selection::Lesson(l),
        next_state(State::Prompting, l.identifier_spec()) == State::Executing(l),
        effects_of(State::Prompting, l.identifier_spec()) == seq![
            Effect::Run(l),
            Effect::Show(Notice::ContinuePrompt),
        ],
{
    lemma_identifier_is_plain(l);
    law_lookup_finds_lesson(l);
}

/// The quit token, in either case, ends the session: no lesson runs and no
/// continue prompt is shown.
pub proof fn law_quit_token_terminates(line: Seq<char>)
    requires
        is_quit_token(trim(line)),
    ensures
        selection_of(line) == Selection::Quit,
        next_state(State::Prompting, line) == State::Terminated,
        effects_of(State::Prompting, line) == seq![Effect::Show(Notice::Farewell)],
{
    let token = trim(line);
    assert forall|l: Lesson| #[trigger] l.identifier_spec() != token by {
        lemma_identifier_is_plain(l);
    }
}

/// A token that is neither an identifier nor the quit token leaves the session
/// in `Prompting`: one complaint is shown, then the menu again, and no
/// continue prompt.
pub proof fn law_unknown_token_reprompts(line: Seq<char>)
    requires
        !is_identifier(trim(line)),
        !is_quit_token(trim(line)),
    ensures
        selection_of(line) == Selection::Invalid,
        next_state(State::Prompting, line) == State::Prompting,
        effects_of(State::Prompting, line) == seq![
            Effect::Show(Notice::InvalidChoice),
            Effect::Show(Notice::Menu),
        ],
{
}

/// A blank line selects nothing.
pub proof fn law_blank_line_is_invalid(line: Seq<char>)
    requires
        all_space(line),
    ensures
        selection_of(line) == Selection::Invalid,
{
    lemma_trim_of_blank(line);
    assert forall|l: Lesson| #[trigger] l.identifier_spec() != trim(line) by {
        lemma_identifier_is_plain(l);
    }
    assert(seq!['q'].len() == 1 && seq!['Q'].len() == 1);
}

/// Whitespace around a token, a line terminator included, does not change
/// what the line selects, nor what the dispatcher does with it in any state.
pub proof fn law_padding_does_not_matter(
    state: State,
    before: Seq<char>,
    token: Seq<char>,
    after: Seq<char>,
)
    requires
        all_space(before),
        all_space(after),
    ensures
        selection_of(before + token + after) == selection_of(token),
        next_state(state, before + token + after) == next_state(state, token),
        effects_of(state, before + token + after) == effects_of(state, token),
{
    law_trim_ignores_padding(before, token, after);
}

/// In `Executing` the line that is read only acknowledges the continue
/// prompt: whatever it holds, it selects nothing and the menu comes back.
pub proof fn law_continue_line_is_discarded(l: Lesson, line: Seq<char>)
    ensures
        next_state(State::Executing(l), line) == State::Prompting,
        effects_of(State::Executing(l), line) == seq![Effect::Show(Notice::Menu)],
{
}

/// At most one lesson runs per line, and only a line that selects it runs it.
pub proof fn law_one_lesson_per_selection(state: State, line: Seq<char>, i: int)
    requires
        0 <= i < effects_of(state, line).len(),
        effects_of(state, line)[i] is Run,
    ensures
        i == 0,
        state == State::Prompting,
        selection_of(line) == Selection::Lesson(effects_of(state, line)[i]->Run_0),
        forall|j: int|
            0 <= j < effects_of(state, line).len() && j != i ==> !(#[trigger] effects_of(
                state,
                line,
            )[j] is Run),
{
}

/// Whenever the session comes to `Prompting`, the last thing shown is the
/// menu, and it is the same menu every time.
pub proof fn law_menu_precedes_every_prompt(state: State, line: Seq<char>)
    requires
        !(state is Terminated),
        next_state(state, line) == State::Prompting,
    ensures
        effects_of(state, line).last() == Effect::Show(Notice::Menu),
        opening().last() == Effect::Show(Notice::Menu),
{
}

/// The characters of each line of `input`.
pub open spec fn lines_of(input: Seq<String>) -> Seq<Seq<char>> {
    Seq::new(input.len(), |i: int| input[i]@)
}

/// The state in which a session that stood in `state` stands after `lines`
/// were offered to it.
pub open spec fn state_after(state: State, lines: Seq<Seq<char>>) -> State
    decreases lines.len(),
{
    if lines.len() == 0 {
        state
    } else {
        state_after(next_state(state, lines[0]), lines.drop_first())
    }
}

/// The effects of a session that stood in `state` and was offered `lines`.
pub open spec fn trace(state: State, lines: Seq<Seq<char>>) -> Seq<Effect>
    decreases lines.len(),
{
    if lines.len() == 0 {
        Seq::empty()
    } else {
        effects_of(state, lines[0]) + trace(next_state(state, lines[0]), lines.drop_first())
    }
}

/// How a session in `state` ends when the input ends there.
pub open spec fn ending_in(state: State) -> Ending {
    if state is Terminated {
        Ending::Quit
    } else {
        Ending::InputClosed
    }
}

/// Once the reader has quit, further lines change nothing and cause nothing.
pub proof fn law_terminated_is_final(lines: Seq<Seq<char>>)
    ensures
        state_after(State::Terminated, lines) == State::Terminated,
        trace(State::Terminated, lines) == Seq::<Effect>::empty(),
    decreases lines.len(),
{
    if lines.len() > 0 {
        law_terminated_is_final(lines.drop_first());
        assert(Seq::<Effect>::empty() + Seq::<Effect>::empty() =~= Seq::<Effect>::empty());
    }
}

/// A session over two stretches of input does what it does over the first
/// and then, from the state it has reached, what it does over the second.
pub proof fn law_trace_splits(state: State, first: Seq<Seq<char>>, second: Seq<Seq<char>>)
    ensures
        state_after(state, first + second) == state_after(state_after(state, first), second),
        trace(state, first + second) == trace(state, first) + trace(
            state_after(state, first),
            second,
        ),
    decreases first.len(),
{
    if first.len() == 0 {
        assert(first + second =~= second);
        assert(Seq::<Effect>::empty() + trace(state, second) =~= trace(state, second));
    } else {
        let all = first + second;
        let next = next_state(state, first[0]);
        assert(all[0] == first[0]);
        assert(all.drop_first() =~= first.drop_first() + second);
        law_trace_splits(next, first.drop_first(), second);
        assert(effects_of(state, first[0]) + (trace(next, first.drop_first()) + trace(
            state_after(next, first.drop_first()),
            second,
        )) =~= (effects_of(state, first[0]) + trace(next, first.drop_first())) + trace(
            state_after(next, first.drop_first()),
            second,
        ));
    }
}

/// Runs a whole session over the lines of `input`, in place of a reader.
///
/// The session opens with the menu, takes one line per read and stops when
/// the reader quits or when a line is wanted and none is left. Lines after
/// the quit token are never looked at.
pub fn replay(input: &[String]) -> (t: Transcript)
    ensures
        t.effects@ == opening() + trace(State::Prompting, lines_of(input@)),
        t.ending == ending_in(state_after(State::Prompting, lines_of(input@))),
{
    let ghost lines = lines_of(input@);
    let first: Step = start();
    let mut state: State = first.next;
    let mut effects: Vec<Effect> = first.effects;
    let mut i: usize = 0;
    proof {
        assert(lines.subrange(0, lines.len() as int) =~= lines);
    }
    while i < input.len() && !state.is_terminated()
        invariant
            i <= input.len(),
            lines == lines_of(input@),
            effects@ + trace(state, lines.subrange(i as int, lines.len() as int)) == opening()
                + trace(State::Prompting, lines),
            state_after(state, lines.subrange(i as int, lines.len() as int)) == state_after(
                State::Prompting,
                lines,
            ),
        decreases input.len() - i,
    {
        let ghost rest = lines.subrange(i as int, lines.len() as int);
        let ghost before = effects@;
        let answer: Step = step(state, input[i].as_str());
        let mut more: Vec<Effect> = answer.effects;
        proof {
            assert(rest[0] == input@[i as int]@);
            assert(rest.drop_first() =~= lines.subrange(i + 1, lines.len() as int));
            assert(before + (more@ + trace(answer.next, rest.drop_first())) =~= (before + more@)
                + trace(answer.next, rest.drop_first()));
        }
        effects.append(&mut more);
        state = answer.next;
        i = i + 1;
    }
    proof {
        let rest = lines.subrange(i as int, lines.len() as int);
        if state is Terminated {
            law_terminated_is_final(rest);
        }
        assert(effects@ + Seq::<Effect>::empty() =~= effects@);
    }
    let ending: Ending = if state.is_terminated() {
        Ending::Quit
    } else {
        Ending::InputClosed
    };
    Transcript { effects, ending }
}

} // verus!
