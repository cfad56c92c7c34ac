//! The terminal player's other input modes: the command line, the search within a list, the
//! first-run credentials form and the y/n confirm prompt. Each edits its own text and says what
//! the player does next.

use vstd::prelude::*;

verus! {

/// The keys these modes tell apart.
#[derive(Clone, Copy, Debug, PartialEq, Eq, Structural)]
pub enum ModeKey {
    Char(char),
    Enter,
    Esc,
    Backspace,
    Tab,
    /// Shift-Tab.
    BackTab,
    Other,
}

/// `text` without its last character; empty text stays empty.
pub open spec fn popped(text: Seq<char>) -> Seq<char> {
    if text.len() > 0 {
        text.subrange(0, text.len() - 1)
    } else {
        text
    }
}

fn pop_char(text: &mut Vec<char>)
    ensures
        final(text)@ == popped(old(text)@),
{
    let _ = text.pop();
}

/// What a key did on the command line.
#[derive(Clone, Copy, Debug, PartialEq, Eq, Structural)]
pub enum CommandStep {
    /// The line was edited; the completion suggestions are dropped.
    Edited,
    /// Step through the completion suggestions, forward or back.
    CycleSuggestion(bool),
    /// Leave for normal mode with the line cleared, the suggestions dropped and the terminal
    /// redrawn.
    Leave,
    /// Run the line.
    Submit,
    Ignored,
}

/// The text after `key`: Esc empties it, Backspace drops the last character, a character is
/// appended, and any other key leaves it alone.
pub open spec fn edited_text(text: Seq<char>, key: ModeKey) -> Seq<char> {
    match key {
        ModeKey::Esc => Seq::<char>::empty(),
        ModeKey::Backspace => popped(text),
        ModeKey::Char(c) => text.push(c),
        _ => text,
    }
}

/// What a key does on the command line.
pub open spec fn command_step_spec(key: ModeKey) -> CommandStep {
    match key {
        ModeKey::Tab => CommandStep::CycleSuggestion(true),
        ModeKey::BackTab => CommandStep::CycleSuggestion(false),
        ModeKey::Esc => CommandStep::Leave,
        ModeKey::Backspace | ModeKey::Char(_) => CommandStep::Edited,
        ModeKey::Enter => CommandStep::Submit,
        ModeKey::Other => CommandStep::Ignored,
    }
}

/// What a key does to the search within a list.
pub open spec fn search_step_spec(first_match: Option<usize>, key: ModeKey) -> SearchStep {
    match key {
        ModeKey::Esc => SearchStep::Leave,
        ModeKey::Backspace | ModeKey::Char(_) => SearchStep::Refine,
        ModeKey::Enter => SearchStep::Confirm(first_match),
        _ => SearchStep::Ignored,
    }
}

/// A key on the command line: Tab and Shift-Tab step through the suggestions, Esc leaves with
/// the line cleared, Backspace deletes the last character, a character is appended, Enter runs
/// the line.
pub fn command_key(line: &mut Vec<char>, key: ModeKey) -> (step: CommandStep)
    ensures
        step == command_step_spec(key),
        final(line)@ == edited_text(old(line)@, key),
{
    match key {
        ModeKey::Tab => CommandStep::CycleSuggestion(true),
        ModeKey::BackTab => CommandStep::CycleSuggestion(false),
        ModeKey::Esc => {
            line.clear();
            CommandStep::Leave
        },
        ModeKey::Backspace => {
            pop_char(line);
            CommandStep::Edited
        },
        ModeKey::Char(c) => {
            line.push(c);
            CommandStep::Edited
        },
        ModeKey::Enter => CommandStep::Submit,
        ModeKey::Other => CommandStep::Ignored,
    }
}

/// What a key did to the search within a list.
#[derive(Clone, Copy, Debug, PartialEq, Eq, Structural)]
pub enum SearchStep {
    /// Leave for normal mode, the query and its matches dropped.
    Leave,
    /// The query changed: find its matches again.
    Refine,
    /// Leave for normal mode, selecting the first match's row if there is one.
    Confirm(Option<usize>),
    Ignored,
}

/// A key while typing a search: Esc drops the query, Backspace and characters edit it, Enter
/// keeps it and jumps to `first_match`.
pub fn search_key(query: &mut Vec<char>, first_match: Option<usize>, key: ModeKey) -> (step: SearchStep)
    ensures
        step == search_step_spec(first_match, key),
        final(query)@ == edited_text(old(query)@, key),
{
    match key {
        ModeKey::Esc => {
            query.clear();
            SearchStep::Leave
        },
        ModeKey::Backspace => {
            pop_char(query);
            SearchStep::Refine
        },
        ModeKey::Char(c) => {
            query.push(c);
            SearchStep::Refine
        },
        ModeKey::Enter => SearchStep::Confirm(first_match),
        _ => SearchStep::Ignored,
    }
}

/// The first-run form that asks for the Spotify app's credentials.
pub struct SetupForm {
    pub client_id: Vec<char>,
    pub client_secret: Vec<char>,
    /// The secret field has the focus (else the id field has it).
    pub focus_secret: bool,
}

/// What a key did on the credentials form.
#[derive(Clone, Copy, Debug, PartialEq, Eq, Structural)]
pub enum SetupStep {
    Edited,
    /// Try the credentials.
    Submit,
    /// Quit the player.
    Quit,
    Ignored,
}

/// What a key does on the credentials form.
pub open spec fn setup_step_spec(key: ModeKey) -> SetupStep {
    match key {
        ModeKey::Tab | ModeKey::Backspace | ModeKey::Char(_) => SetupStep::Edited,
        ModeKey::Enter => SetupStep::Submit,
        ModeKey::Esc => SetupStep::Quit,
        _ => SetupStep::Ignored,
    }
}

/// The focused field after `key`: Backspace drops its last character, a character is
/// appended, and every other key leaves it alone (Esc included: it quits, not clears).
pub open spec fn field_after(text: Seq<char>, key: ModeKey) -> Seq<char> {
    match key {
        ModeKey::Backspace => popped(text),
        ModeKey::Char(c) => text.push(c),
        _ => text,
    }
}

/// A key on the credentials form: Tab moves the focus to the other field, Backspace and
/// characters edit the focused field, Enter submits, Esc quits.
pub fn setup_key(form: &mut SetupForm, key: ModeKey) -> (step: SetupStep)
    ensures
        step == setup_step_spec(key),
        final(form).focus_secret == (if key == ModeKey::Tab {
            !old(form).focus_secret
        } else {
            old(form).focus_secret
        }),
        final(form).client_secret@ == (if old(form).focus_secret {
            field_after(old(form).client_secret@, key)
        } else {
            old(form).client_secret@
        }),
        final(form).client_id@ == (if old(form).focus_secret {
            old(form).client_id@
        } else {
            field_after(old(form).client_id@, key)
        }),
{
    match key {
        ModeKey::Tab => {
            form.focus_secret = !form.focus_secret;
            SetupStep::Edited
        },
        ModeKey::Enter => SetupStep::Submit,
        ModeKey::Backspace => {
            if form.focus_secret {
                pop_char(&mut form.client_secret);
            } else {
                pop_char(&mut form.client_id);
            }
            SetupStep::Edited
        },
        ModeKey::Char(c) => {
            if form.focus_secret {
                form.client_secret.push(c);
            } else {
                form.client_id.push(c);
            }
            SetupStep::Edited
        },
        ModeKey::Esc => SetupStep::Quit,
        _ => SetupStep::Ignored,
    }
}

/// What a key does while a destructive action waits for confirmation.
#[derive(Clone, Copy, Debug, PartialEq, Eq, Structural)]
pub enum PromptStep {
    /// No prompt is up; the key goes on.
    NotActive,
    /// `y`: carry the action out.
    Confirm,
    /// Any other key drops the prompt.
    Cancel,
}

/// What a key does while a confirm prompt may be up.
pub open spec fn prompt_step_spec(prompt_active: bool, key: ModeKey) -> PromptStep {
    if !prompt_active {
        PromptStep::NotActive
    } else if key == ModeKey::Char('y') {
        PromptStep::Confirm
    } else {
        PromptStep::Cancel
    }
}

/// A key while a confirm prompt may be up: only `y` confirms, every other key cancels, and
/// either way the key goes no further.
pub fn prompt_key(prompt_active: bool, key: ModeKey) -> (step: PromptStep)
    ensures
        step == prompt_step_spec(prompt_active, key),
{
    if !prompt_active {
        PromptStep::NotActive
    } else if key == ModeKey::Char('y') {
        PromptStep::Confirm
    } else {
        PromptStep::Cancel
    }
}

/// Backspace takes back the character just typed, on the command line, in a search and on the
/// credentials form alike.
pub proof fn lemma_backspace_undoes_typing(text: Seq<char>, c: char)
    ensures
        popped(text.push(c)) == text,
{
    assert(text.push(c).subrange(0, text.len() as int) =~= text);
}

/// The command line and the search edit their text alike: only Esc empties it, a character
/// lengthens it by one and ends it, Backspace shortens a non-empty text by one and keeps the
/// rest, and the keys that do not edit (Enter, Tab, Shift-Tab) leave it as it was. On the
/// command line only Enter runs the line and only Esc leaves; Tab and Shift-Tab step through
/// the suggestions in opposite directions. In a search, Enter keeps the query and jumps to the
/// first match it was given.
pub proof fn lemma_line_editing(text: Seq<char>, key: ModeKey, first_match: Option<usize>)
    ensures
        ({
            let after = edited_text(text, key);
            &&& key == ModeKey::Esc ==> after.len() == 0
            &&& (key matches ModeKey::Char(c) ==> after.len() == text.len() + 1 && after.last() == c
                && after.subrange(0, text.len() as int) == text)
            &&& key == ModeKey::Backspace ==> after.len() == (if text.len() > 0 { text.len() - 1 } else { 0 })
                && after == text.subrange(0, after.len() as int)
            &&& (key == ModeKey::Enter || key == ModeKey::Tab || key == ModeKey::BackTab || key == ModeKey::Other)
                ==> after == text
            &&& (command_step_spec(key) == CommandStep::Submit) <==> key == ModeKey::Enter
            &&& (command_step_spec(key) == CommandStep::Leave) <==> key == ModeKey::Esc
            &&& command_step_spec(ModeKey::Tab) != command_step_spec(ModeKey::BackTab)
            &&& command_step_spec(ModeKey::Tab) is CycleSuggestion
            &&& command_step_spec(ModeKey::BackTab) is CycleSuggestion
            &&& (search_step_spec(first_match, key) == SearchStep::Leave) <==> key == ModeKey::Esc
            &&& key == ModeKey::Enter ==> search_step_spec(first_match, key) == SearchStep::Confirm(first_match)
            &&& (search_step_spec(first_match, key) == SearchStep::Refine) <==> (key == ModeKey::Backspace
                || key is Char)
        }),
{
    if let ModeKey::Char(c) = key {
        assert(text.push(c).subrange(0, text.len() as int) =~= text);
    }
    if key == ModeKey::Backspace && text.len() > 0 {
        assert(text.subrange(0, text.len() - 1).subrange(0, text.len() - 1) =~= text.subrange(0, text.len() - 1));
    }
}

/// The credentials form edits only the focused field: a character lengthens it by one,
/// Backspace shortens it, Tab moves the focus and edits nothing; Enter submits, Esc quits, and
/// neither touches the text.
pub proof fn lemma_setup_form(text: Seq<char>, key: ModeKey)
    ensures
        (key matches ModeKey::Char(c) ==> field_after(text, key).len() == text.len() + 1 && field_after(
            text,
            key,
        ).last() == c),
        key == ModeKey::Backspace && text.len() > 0 ==> field_after(text, key).len() == text.len() - 1,
        (key == ModeKey::Tab || key == ModeKey::Enter || key == ModeKey::Esc) ==> field_after(text, key)
            == text,
        (setup_step_spec(key) == SetupStep::Submit) <==> key == ModeKey::Enter,
        (setup_step_spec(key) == SetupStep::Quit) <==> key == ModeKey::Esc,
{
}

/// A prompt takes every key while it is up and none while it is not: only `y` confirms, any
/// other key cancels.
pub proof fn lemma_only_y_confirms(key: ModeKey)
    ensures
        prompt_step_spec(false, key) == PromptStep::NotActive,
        prompt_step_spec(true, key) != PromptStep::NotActive,
        (prompt_step_spec(true, key) == PromptStep::Confirm) <==> key == ModeKey::Char('y'),
{
}

} // verus!
