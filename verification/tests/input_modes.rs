use echo_rs::browse::{enter_active_node, BrowseIntent, BrowseNode};
use echo_rs::modes::{
    command_key, prompt_key, search_key, setup_key, CommandStep, ModeKey, PromptStep, SearchStep, SetupForm,
    SetupStep,
};

fn chars(s: &str) -> Vec<char> {
    s.chars().collect()
}

#[test]
fn command_line_edits_and_submits() {
    let mut line = chars("newplaylist ");
    assert_eq!(command_key(&mut line, ModeKey::Char('R')), CommandStep::Edited);
    assert_eq!(line, chars("newplaylist R"));
    assert_eq!(command_key(&mut line, ModeKey::Backspace), CommandStep::Edited);
    assert_eq!(line, chars("newplaylist "));
    assert_eq!(command_key(&mut line, ModeKey::Tab), CommandStep::CycleSuggestion(true));
    assert_eq!(command_key(&mut line, ModeKey::BackTab), CommandStep::CycleSuggestion(false));
    assert_eq!(command_key(&mut line, ModeKey::Enter), CommandStep::Submit);
    assert_eq!(line, chars("newplaylist "));
    assert_eq!(command_key(&mut line, ModeKey::Esc), CommandStep::Leave);
    assert!(line.is_empty());
    assert_eq!(command_key(&mut line, ModeKey::Backspace), CommandStep::Edited);
    assert!(line.is_empty());
}

#[test]
fn search_refines_and_confirms_on_the_first_match() {
    let mut query = Vec::new();
    assert_eq!(search_key(&mut query, None, ModeKey::Char('a')), SearchStep::Refine);
    assert_eq!(query, vec!['a']);
    assert_eq!(search_key(&mut query, Some(7), ModeKey::Enter), SearchStep::Confirm(Some(7)));
    assert_eq!(search_key(&mut query, None, ModeKey::Enter), SearchStep::Confirm(None));
    assert_eq!(search_key(&mut query, None, ModeKey::Tab), SearchStep::Ignored);
    assert_eq!(search_key(&mut query, None, ModeKey::Esc), SearchStep::Leave);
    assert!(query.is_empty());
}

#[test]
fn setup_form_edits_the_focused_field() {
    let mut form = SetupForm { client_id: chars("ab"), client_secret: Vec::new(), focus_secret: false };
    assert_eq!(setup_key(&mut form, ModeKey::Char('c')), SetupStep::Edited);
    assert_eq!(form.client_id, chars("abc"));
    assert_eq!(setup_key(&mut form, ModeKey::Tab), SetupStep::Edited);
    assert!(form.focus_secret);
    setup_key(&mut form, ModeKey::Char('x'));
    setup_key(&mut form, ModeKey::Char('y'));
    setup_key(&mut form, ModeKey::Backspace);
    assert_eq!(form.client_secret, chars("x"));
    assert_eq!(form.client_id, chars("abc"));
    assert_eq!(setup_key(&mut form, ModeKey::Enter), SetupStep::Submit);
    assert_eq!(setup_key(&mut form, ModeKey::Esc), SetupStep::Quit);
}

#[test]
fn only_y_confirms_a_prompt() {
    assert_eq!(prompt_key(false, ModeKey::Char('y')), PromptStep::NotActive);
    assert_eq!(prompt_key(true, ModeKey::Char('y')), PromptStep::Confirm);
    assert_eq!(prompt_key(true, ModeKey::Char('n')), PromptStep::Cancel);
    assert_eq!(prompt_key(true, ModeKey::Enter), PromptStep::Cancel);
}

#[test]
fn browse_pages_open_their_lists() {
    assert_eq!(enter_active_node(BrowseNode::TopTracks), BrowseIntent::OpenTopTracks);
    assert_eq!(enter_active_node(BrowseNode::TopArtists), BrowseIntent::OpenTopArtists);
    assert_eq!(enter_active_node(BrowseNode::WhatsNew), BrowseIntent::OpenWhatsNew);
}
