use ripple_core::gui::composer::{
    ComposerAction, ComposerState, Draft, IdentityDropdownItem, MessageComposerInput,
};
use ripple_core::gui::identities::{
    from_dialog_output, IdentitiesListInput, IdentitiesListOutput, IdentitiesListState,
    IdentityDialogOutput,
};
use ripple_core::gui::main_window::{plus_action, send_failure_toast, MainWindowState, PlusAction};
use ripple_core::models::AddressInfo;

fn identity(label: &str, repr: &str) -> AddressInfo {
    AddressInfo {
        label: label.to_string(),
        string_repr: repr.to_string(),
        tag: vec![],
        public_encryption_key: None,
        public_signing_key: None,
    }
}

fn draft() -> Draft {
    Draft { to: "BM-to".to_string(), subject: "S".to_string(), body: "B".to_string() }
}

#[test]
fn dropdown_text_uses_label_or_placeholder() {
    let a = IdentityDropdownItem::new("Alice".to_string(), "BM-1".to_string());
    assert_eq!(a.display_text(), "Alice (BM-1)");
    let b = IdentityDropdownItem::new(String::new(), "BM-2".to_string());
    assert_eq!(b.display_text(), "No label (BM-2)");
}

#[test]
fn composer_selects_first_identity() {
    let ids = vec![identity("a", "BM-1"), identity("b", "BM-2")];
    let (mut state, items) = ComposerState::init(&ids);
    assert_eq!(items.len(), 2);
    assert_eq!(items[1].address(), "BM-2");
    assert!(state.send_enabled());
    match state.update(MessageComposerInput::SendButtonClicked, draft()) {
        ComposerAction::CloseAndSend { from, to, subject, body } => {
            assert_eq!(from, "BM-1");
            assert_eq!(to, "BM-to");
            assert_eq!(subject, "S");
            assert_eq!(body, "B");
        }
        _ => panic!("expected sending"),
    }
    let second = items[1].clone();
    assert!(matches!(state.update(MessageComposerInput::IdentityItemSelected(second), draft()), ComposerAction::Nothing));
    match state.update(MessageComposerInput::SendButtonClicked, draft()) {
        ComposerAction::CloseAndSend { from, .. } => assert_eq!(from, "BM-2"),
        _ => panic!("expected sending"),
    }
    assert!(matches!(state.update(MessageComposerInput::CancelButtonClicked, draft()), ComposerAction::Close));
}

#[test]
fn composer_without_identities_cannot_send() {
    let (state, items) = ComposerState::init(&vec![]);
    assert!(items.is_empty());
    assert!(!state.send_enabled());
}

#[test]
fn identities_list_tracks_emptiness() {
    let mut l = IdentitiesListState::new();
    assert!(l.is_empty());
    let out = l.on_identity_generated("a".to_string(), "BM-1".to_string());
    assert_eq!(out, vec![IdentitiesListOutput::EmptyList(false), IdentitiesListOutput::IdentitiesListUpdated]);
    assert!(!l.is_empty());
    let out = l.on_identity_generated("b".to_string(), "BM-2".to_string());
    assert_eq!(out, vec![IdentitiesListOutput::IdentitiesListUpdated]);
    let init = l.rename_dialog_init(1);
    assert_eq!((init.label.as_str(), init.address.as_str(), init.index), ("b", "BM-2", 1));
    assert_eq!(l.on_renamed(1, "c".to_string()), vec![IdentitiesListOutput::IdentitiesListUpdated]);
    assert_eq!(l.rename_dialog_init(1).label, "c");
    let (addr, out) = l.on_delete(0);
    assert_eq!(addr, "BM-1");
    assert_eq!(out, vec![IdentitiesListOutput::IdentitiesListUpdated]);
    let (addr, out) = l.on_delete(0);
    assert_eq!(addr, "BM-2");
    assert_eq!(out, vec![IdentitiesListOutput::EmptyList(true), IdentitiesListOutput::IdentitiesListUpdated]);
    assert!(l.is_empty());
}

#[test]
fn identities_list_reload() {
    let mut l = IdentitiesListState::new();
    let out = l.on_identities_loaded(&vec![identity("x", "BM-9")]);
    assert_eq!(out, vec![IdentitiesListOutput::EmptyList(false)]);
    assert_eq!(l.len(), 1);
    assert_eq!(l.rename_dialog_init(0).address, "BM-9");
    let out = l.on_identities_loaded(&vec![]);
    assert_eq!(out, vec![IdentitiesListOutput::EmptyList(true)]);
    assert!(l.is_empty());
}

#[test]
fn dialog_outputs_become_list_inputs() {
    match from_dialog_output(IdentityDialogOutput::GenerateIdentity("l".to_string())) {
        IdentitiesListInput::GenerateNewIdentity { label } => assert_eq!(label, "l"),
        _ => panic!(),
    }
    match from_dialog_output(IdentityDialogOutput::RenameIdentity { new_label: "n".to_string(), address: "BM".to_string(), index: 3 }) {
        IdentitiesListInput::RenameIdentity { new_label, address, index } => {
            assert_eq!((new_label.as_str(), address.as_str(), index), ("n", "BM", 3))
        }
        _ => panic!(),
    }
}

#[test]
fn plus_button_follows_pages() {
    let mut w = MainWindowState::init(&"identities".to_string());
    assert!(w.show_plus_button);
    assert!(!MainWindowState::init(&"messages".to_string()).show_plus_button);
    w.on_page_changed(&"status".to_string());
    assert!(!w.show_plus_button);
    w.on_page_changed(&"messages".to_string());
    assert!(w.show_plus_button);
    w.on_identities_list_empty(true);
    assert!(!w.show_plus_button);
    assert!(matches!(plus_action(&"messages".to_string()), PlusAction::OpenComposer));
    assert!(matches!(plus_action(&"identities".to_string()), PlusAction::OpenIdentityDialog));
    assert!(matches!(plus_action(&"status".to_string()), PlusAction::Nothing));
}

#[test]
fn send_failure_notice() {
    assert_eq!(send_failure_toast(&"boom".to_string()), "Failed to send message: boom");
}
