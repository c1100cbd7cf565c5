//! The main window: when it shows its "+" button, what the button opens, and
//! the notices it shows.
use vstd::prelude::*;

verus! {

/// The name of the identities page.
pub const IDENTITIES_PAGE: &'static str = "identities";

/// The name of the messages page.
pub const MESSAGES_PAGE: &'static str = "messages";

/// The name of the network status page.
pub const STATUS_PAGE: &'static str = "status";

/// The address the desktop client starts listening on.
pub const DEFAULT_LISTEN_ADDRESS: &'static str = "/ip4/0.0.0.0/tcp/34064";

/// How long a notice stays, in seconds.
pub const TOAST_TIMEOUT_SECS: u32 = 3u32;

/// What the "+" button opens on a page.
pub enum PlusAction {
    /// A message composer window.
    OpenComposer,
    /// The dialog that creates an identity.
    OpenIdentityDialog,
    /// Nothing.
    Nothing,
}

/// The text of the notice for a message that could not be sent.
pub open spec fn send_failure_text(error: Seq<char>) -> Seq<char> {
    "Failed to send message: "@ + error
}

/// The main window's state.
pub struct MainWindowState {
    pub show_plus_button: bool,
}

/// Whether the string is the given page name.
fn is_page(visible: &String, page: &'static str) -> (r: bool)
    ensures
        r == (visible@ == page@),
{
    let name = String::from_str(page);
    *visible == name
}

impl MainWindowState {
    /// The state right after the window is built: the "+" button shows only
    /// when the identities page is the visible one.
    pub fn init(visible_page: &String) -> (r: MainWindowState)
        ensures
            r.show_plus_button == (visible_page@ == IDENTITIES_PAGE@),
    {
        MainWindowState { show_plus_button: is_page(visible_page, IDENTITIES_PAGE) }
    }

    /// The visible page changed: the "+" button shows on the identities and
    /// on the messages page, and on no other.
    pub fn on_page_changed(&mut self, visible_page: &String)
        ensures
            final(self).show_plus_button == (visible_page@ == IDENTITIES_PAGE@ || visible_page@
                == MESSAGES_PAGE@),
    {
        let on_identities = is_page(visible_page, IDENTITIES_PAGE);
        let on_messages = is_page(visible_page, MESSAGES_PAGE);
        self.show_plus_button = on_identities || on_messages;
    }

    /// The identities list reported whether it is empty: the "+" button shows
    /// when it is not.
    pub fn on_identities_list_empty(&mut self, empty: bool)
        ensures
            final(self).show_plus_button == !empty,
    {
        self.show_plus_button = !empty;
    }
}

/// What the "+" button opens on the visible page.
pub fn plus_action(visible_page: &String) -> (r: PlusAction)
    ensures
        visible_page@ == MESSAGES_PAGE@ ==> r is OpenComposer,
        visible_page@ == IDENTITIES_PAGE@ ==> r is OpenIdentityDialog,
        visible_page@ != MESSAGES_PAGE@ && visible_page@ != IDENTITIES_PAGE@ ==> r is Nothing,
{
    proof {
        reveal_strlit("identities");
        reveal_strlit("messages");
        assert(IDENTITIES_PAGE@.len() == 10);
        assert(MESSAGES_PAGE@.len() == 8);
        assert(IDENTITIES_PAGE@ != MESSAGES_PAGE@);
    }
    if is_page(visible_page, MESSAGES_PAGE) {
        PlusAction::OpenComposer
    } else if is_page(visible_page, IDENTITIES_PAGE) {
        PlusAction::OpenIdentityDialog
    } else {
        PlusAction::Nothing
    }
}

/// The notice for a message that could not be sent.
pub fn send_failure_toast(error: &String) -> (r: String)
    ensures
        r@ == send_failure_text(error@),
{
    let mut s = String::from_str("Failed to send message: ");
    s.append(error.as_str());
    s
}

} // verus!
