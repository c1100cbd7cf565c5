//! The message composer: the sending identity it offers and what its buttons do.
use vstd::prelude::*;

use crate::models::AddressInfo;

verus! {

/// An identity offered in the composer's "From" list.
#[derive(Clone, Debug)]
pub struct IdentityDropdownItem {
    label: String,
    address: String,
}

/// The mathematical value of an [`IdentityDropdownItem`].
pub struct DropdownItemView {
    pub label: Seq<char>,
    pub address: Seq<char>,
}

impl View for IdentityDropdownItem {
    type V = DropdownItemView;

    closed spec fn view(&self) -> DropdownItemView {
        DropdownItemView { label: self.label@, address: self.address@ }
    }
}

/// The text of an item in the list: its label, or "No label" when the label
/// is empty, followed by the address in parentheses.
pub open spec fn dropdown_text(label: Seq<char>, address: Seq<char>) -> Seq<char> {
    (if label.len() == 0 {
        "No label"@
    } else {
        label
    }) + " ("@ + address + ")"@
}

/// The list shows a non-empty label as it is, followed by the address in
/// parentheses; it shows "No label" exactly when the label is empty.
pub proof fn lemma_dropdown_text_shows_label(label: Seq<char>, address: Seq<char>)
    ensures
        label.len() > 0 ==> dropdown_text(label, address) == label + " ("@ + address + ")"@,
        label.len() == 0 ==> dropdown_text(label, address) == "No label"@ + " ("@ + address
            + ")"@,
{
}

impl IdentityDropdownItem {
    pub fn new(label: String, address: String) -> (r: IdentityDropdownItem)
        ensures
            r@ == (DropdownItemView { label: label@, address: address@ }),
    {
        IdentityDropdownItem { label, address }
    }

    /// The item for one of the node's identities.
    pub fn from_address(a: &AddressInfo) -> (r: IdentityDropdownItem)
        ensures
            r@ == (DropdownItemView { label: a.label@, address: a.string_repr@ }),
    {
        IdentityDropdownItem { label: a.label.clone(), address: a.string_repr.clone() }
    }

    pub fn label(&self) -> (r: &String)
        ensures
            r@ == self@.label,
    {
        &self.label
    }

    pub fn address(&self) -> (r: &String)
        ensures
            r@ == self@.address,
    {
        &self.address
    }

    /// A copy of the item.
    pub fn duplicate(&self) -> (r: IdentityDropdownItem)
        ensures
            r@ == self@,
    {
        IdentityDropdownItem { label: self.label.clone(), address: self.address.clone() }
    }

    /// The text the list shows for the item.
    pub fn display_text(&self) -> (r: String)
        ensures
            r@ == dropdown_text(self@.label, self@.address),
            self@.label.len() > 0 ==> r@ == self@.label + " ("@ + self@.address + ")"@,
            self@.label.len() == 0 ==> r@ == "No label"@ + " ("@ + self@.address + ")"@,
    {
        let mut s = if self.label.as_str().is_empty() {
            String::from_str("No label")
        } else {
            self.label.clone()
        };
        s.append(" (");
        s.append(self.address.as_str());
        s.append(")");
        s
    }
}

/// What the composer's widgets report.
pub enum MessageComposerInput {
    CancelButtonClicked,
    SendButtonClicked,
    IdentityItemSelected(IdentityDropdownItem),
}

/// What the composer reports to the application.
pub enum MessageComposerOutput {
    FailedToSendMessage(String),
}

/// What the user typed in the composer.
pub struct Draft {
    pub to: String,
    pub subject: String,
    pub body: String,
}

/// What the composer does about an input.
pub enum ComposerAction {
    /// Close the window.
    Close,
    /// Close the window and send the draft from `from`.
    CloseAndSend { from: String, to: String, subject: String, body: String },
    /// Nothing beyond the state change.
    Nothing,
}

/// The composer's state: the identity selected to send from.
pub struct ComposerState {
    current_identity: Option<IdentityDropdownItem>,
}

/// The views of a sequence of dropdown items.
pub open spec fn item_views(v: Seq<IdentityDropdownItem>) -> Seq<DropdownItemView> {
    v.map_values(|i: IdentityDropdownItem| i@)
}

impl ComposerState {
    /// The selected identity, if any.
    pub closed spec fn current(&self) -> Option<DropdownItemView> {
        match self.current_identity {
            Some(i) => Some(i@),
            None => None,
        }
    }

    /// Opens the composer on the node's identities: one item per identity, in
    /// order, and the first one selected when there is one.
    pub fn init(identities: &Vec<AddressInfo>) -> (r: (ComposerState, Vec<IdentityDropdownItem>))
        ensures
            r.1@.len() == identities@.len(),
            forall|i: int|
                0 <= i < identities@.len() ==> #[trigger] r.1@[i]@ == (DropdownItemView {
                    label: identities@[i].label@,
                    address: identities@[i].string_repr@,
                }),
            identities@.len() == 0 ==> r.0.current() is None,
            identities@.len() > 0 ==> r.0.current() == Some(r.1@[0]@),
    {
        let mut items: Vec<IdentityDropdownItem> = Vec::new();
        let mut i: usize = 0;
        while i < identities.len()
            invariant
                0 <= i <= identities@.len(),
                items@.len() == i,
                forall|j: int|
                    0 <= j < i ==> #[trigger] items@[j]@ == (DropdownItemView {
                        label: identities@[j].label@,
                        address: identities@[j].string_repr@,
                    }),
            decreases identities@.len() - i,
        {
            items.push(IdentityDropdownItem::from_address(&identities[i]));
            i = i + 1;
        }
        let current = if items.len() > 0 {
            Some(items[0].duplicate())
        } else {
            None
        };
        (ComposerState { current_identity: current }, items)
    }

    /// The send button is enabled exactly when an identity is selected.
    pub fn send_enabled(&self) -> (r: bool)
        ensures
            r == self.current() is Some,
    {
        self.current_identity.is_some()
    }

    /// What the composer does about an input. Sending needs a selected
    /// identity; the send button is disabled without one.
    pub fn update(&mut self, input: MessageComposerInput, draft: Draft) -> (r: ComposerAction)
        requires
            input is SendButtonClicked ==> old(self).current() is Some,
        ensures
            match input {
                MessageComposerInput::CancelButtonClicked => {
                    &&& r is Close
                    &&& final(self).current() == old(self).current()
                },
                MessageComposerInput::SendButtonClicked => {
                    &&& final(self).current() == old(self).current()
                    &&& r matches ComposerAction::CloseAndSend { from, to, subject, body }
                    &&& from@ == old(self).current().unwrap().address
                    &&& to@ == draft.to@
                    &&& subject@ == draft.subject@
                    &&& body@ == draft.body@
                },
                MessageComposerInput::IdentityItemSelected(v) => {
                    &&& r is Nothing
                    &&& final(self).current() == Some(v@)
                },
            },
    {
        match input {
            MessageComposerInput::CancelButtonClicked => ComposerAction::Close,
            MessageComposerInput::SendButtonClicked => {
                let from = match &self.current_identity {
                    Some(i) => i.address.clone(),
                    None => String::new(),
                };
                ComposerAction::CloseAndSend {
                    from,
                    to: draft.to,
                    subject: draft.subject,
                    body: draft.body,
                }
            },
            MessageComposerInput::IdentityItemSelected(v) => {
                self.current_identity = Some(v);
                ComposerAction::Nothing
            },
        }
    }
}

} // verus!
