//! The identities list: its rows, whether it is empty, and what it reports.
use vstd::prelude::*;

use crate::models::AddressInfo;

verus! {

/// A row of the list.
pub struct IdentityRow {
    pub label: String,
    pub address: String,
}

/// The mathematical value of an [`IdentityRow`].
pub struct RowView {
    pub label: Seq<char>,
    pub address: Seq<char>,
}

impl View for IdentityRow {
    type V = RowView;

    open spec fn view(&self) -> RowView {
        RowView { label: self.label@, address: self.address@ }
    }
}

/// What the list's widgets and dialogs report. Rows are named by position.
pub enum IdentitiesListInput {
    HandleCreateNewIdentity,
    GenerateNewIdentity { label: String },
    DeleteIdentity(usize),
    HandleRenameIdentity(usize),
    RenameIdentity { new_label: String, address: String, index: usize },
    ReloadList,
}

/// What the list reports to the main window.
#[derive(PartialEq, Eq, Structural, Clone, Copy, Debug)]
pub enum IdentitiesListOutput {
    /// Whether the list is now empty.
    EmptyList(bool),
    /// The set of identities or their labels changed.
    IdentitiesListUpdated,
}

/// The answer of a background load of the identities.
pub enum IdentitiesListCommandOutput {
    IdentitiesList(Vec<AddressInfo>),
}

/// What the identity dialog reports.
pub enum IdentityDialogOutput {
    GenerateIdentity(String),
    RenameIdentity { new_label: String, address: String, index: usize },
}

/// What the identity dialog opens on, to rename a row.
pub struct IdentityDialogInit {
    pub label: String,
    pub address: String,
    pub index: usize,
}

/// The list input that a dialog report becomes.
pub fn from_dialog_output(o: IdentityDialogOutput) -> (r: IdentitiesListInput)
    ensures
        match o {
            IdentityDialogOutput::GenerateIdentity(l) => r matches IdentitiesListInput::GenerateNewIdentity { label } && label == l,
            IdentityDialogOutput::RenameIdentity { new_label, address, index } => r matches IdentitiesListInput::RenameIdentity { new_label: n, address: a, index: i } && n == new_label && a == address && i == index,
        },
{
    match o {
        IdentityDialogOutput::GenerateIdentity(label) => IdentitiesListInput::GenerateNewIdentity { label },
        IdentityDialogOutput::RenameIdentity { new_label, address, index } => IdentitiesListInput::RenameIdentity { new_label, address, index },
    }
}

/// The views of a sequence of rows.
pub open spec fn row_views(v: Seq<IdentityRow>) -> Seq<RowView> {
    v.map_values(|r: IdentityRow| r@)
}

/// The rows for a list of identities, in order.
pub open spec fn rows_of(ids: Seq<AddressInfo>) -> Seq<RowView> {
    ids.map_values(|a: AddressInfo| RowView { label: a.label@, address: a.string_repr@ })
}

/// The rows of a list of identities: one per identity, in order, row `i`
/// holding the label and the printable address of identity `i`.
pub proof fn lemma_rows_of_identities(ids: Seq<AddressInfo>)
    ensures
        rows_of(ids).len() == ids.len(),
        forall|i: int|
            0 <= i < ids.len() ==> #[trigger] rows_of(ids)[i] == (RowView {
                label: ids[i].label@,
                address: ids[i].string_repr@,
            }),
{
}

/// The list's state.
pub struct IdentitiesListState {
    is_list_empty: bool,
    rows: Vec<IdentityRow>,
}

/// The mathematical value of an [`IdentitiesListState`].
pub struct IdentitiesListView {
    pub is_list_empty: bool,
    pub rows: Seq<RowView>,
}

impl View for IdentitiesListState {
    type V = IdentitiesListView;

    closed spec fn view(&self) -> IdentitiesListView {
        IdentitiesListView { is_list_empty: self.is_list_empty, rows: row_views(self.rows@) }
    }
}

impl IdentitiesListState {
    /// The list's invariant: it says it is empty exactly when it has no rows.
    pub open spec fn wf(&self) -> bool {
        self@.is_list_empty <==> self@.rows.len() == 0
    }

    /// The list before anything is loaded: empty.
    pub fn new() -> (r: IdentitiesListState)
        ensures
            r.wf(),
            r@.is_list_empty,
            r@.rows == Seq::<RowView>::empty(),
    {
        let r = IdentitiesListState { is_list_empty: true, rows: Vec::new() };
        assert(row_views(r.rows@) =~= Seq::<RowView>::empty());
        r
    }

    /// Whether the list is empty.
    pub fn is_empty(&self) -> (r: bool)
        ensures
            r == self@.is_list_empty,
    {
        self.is_list_empty
    }

    /// The number of rows.
    pub fn len(&self) -> (r: usize)
        ensures
            r == self@.rows.len(),
    {
        self.rows.len()
    }

    /// A new identity was generated: its row goes last. The list reports that
    /// it is no longer empty if it was, then that the identities changed.
    pub fn on_identity_generated(&mut self, label: String, address: String) -> (r: Vec<
        IdentitiesListOutput,
    >)
        requires
            old(self).wf(),
        ensures
            final(self).wf(),
            final(self)@.rows == old(self)@.rows.push(RowView { label: label@, address: address@ }),
            old(self)@.is_list_empty ==> r@ == seq![
                IdentitiesListOutput::EmptyList(false),
                IdentitiesListOutput::IdentitiesListUpdated,
            ],
            !old(self)@.is_list_empty ==> r@ == seq![IdentitiesListOutput::IdentitiesListUpdated],
    {
        let ghost before = row_views(self.rows@);
        let row = IdentityRow { label, address };
        self.rows.push(row);
        assert(row_views(self.rows@) =~= before.push(row@));
        let mut out: Vec<IdentitiesListOutput> = Vec::new();
        if self.is_list_empty {
            self.is_list_empty = false;
            out.push(IdentitiesListOutput::EmptyList(false));
        }
        out.push(IdentitiesListOutput::IdentitiesListUpdated);
        out
    }

    /// The row at `index` is deleted; its address is returned so that the
    /// identity can be deleted from the node. The list reports that it is
    /// empty if it now is, then that the identities changed.
    pub fn on_delete(&mut self, index: usize) -> (r: (String, Vec<IdentitiesListOutput>))
        requires
            old(self).wf(),
            index < old(self)@.rows.len(),
        ensures
            final(self).wf(),
            r.0@ == old(self)@.rows[index as int].address,
            final(self)@.rows == old(self)@.rows.remove(index as int),
            final(self)@.rows.len() == 0 ==> r.1@ == seq![
                IdentitiesListOutput::EmptyList(true),
                IdentitiesListOutput::IdentitiesListUpdated,
            ],
            final(self)@.rows.len() > 0 ==> r.1@ == seq![IdentitiesListOutput::IdentitiesListUpdated],
    {
        let ghost before = row_views(self.rows@);
        let row = self.rows.remove(index);
        assert(row_views(self.rows@) =~= before.remove(index as int));
        let mut out: Vec<IdentitiesListOutput> = Vec::new();
        if self.rows.len() == 0 {
            self.is_list_empty = true;
            out.push(IdentitiesListOutput::EmptyList(true));
        }
        out.push(IdentitiesListOutput::IdentitiesListUpdated);
        (row.address, out)
    }

    /// What the rename dialog opens on for the row at `index`.
    pub fn rename_dialog_init(&self, index: usize) -> (r: IdentityDialogInit)
        requires
            index < self@.rows.len(),
        ensures
            r.label@ == self@.rows[index as int].label,
            r.address@ == self@.rows[index as int].address,
            r.index == index,
    {
        let row = &self.rows[index];
        assert(row@ == self@.rows[index as int]);
        IdentityDialogInit { label: row.label.clone(), address: row.address.clone(), index }
    }

    /// The identity of the row at `index` was renamed: the row takes the new
    /// label, and the list reports that the identities changed.
    pub fn on_renamed(&mut self, index: usize, new_label: String) -> (r: Vec<IdentitiesListOutput>)
        requires
            old(self).wf(),
            index < old(self)@.rows.len(),
        ensures
            final(self).wf(),
            final(self)@.rows == old(self)@.rows.update(
                index as int,
                RowView { label: new_label@, address: old(self)@.rows[index as int].address },
            ),
            final(self)@.is_list_empty == old(self)@.is_list_empty,
            r@ == seq![IdentitiesListOutput::IdentitiesListUpdated],
    {
        let ghost before = row_views(self.rows@);
        let address = self.rows[index].address.clone();
        self.rows.set(index, IdentityRow { label: new_label, address });
        assert(row_views(self.rows@) =~= before.update(
            index as int,
            RowView { label: new_label@, address: before[index as int].address },
        ));
        let mut out: Vec<IdentitiesListOutput> = Vec::new();
        out.push(IdentitiesListOutput::IdentitiesListUpdated);
        out
    }

    /// The identities were (re)loaded: the rows become one per identity, in
    /// order, and the list reports whether it is empty.
    pub fn on_identities_loaded(&mut self, identities: &Vec<AddressInfo>) -> (r: Vec<IdentitiesListOutput>)
        ensures
            final(self).wf(),
            final(self)@.rows == rows_of(identities@),
            final(self)@.rows.len() == identities@.len(),
            forall|i: int|
                0 <= i < identities@.len() ==> #[trigger] final(self)@.rows[i] == (RowView {
                    label: identities@[i].label@,
                    address: identities@[i].string_repr@,
                }),
            final(self)@.is_list_empty == (identities@.len() == 0),
            r@ == seq![IdentitiesListOutput::EmptyList(identities@.len() == 0)],
    {
        let empty = identities.len() == 0;
        self.is_list_empty = empty;
        let mut rows: Vec<IdentityRow> = Vec::new();
        let mut i: usize = 0;
        while i < identities.len()
            invariant
                0 <= i <= identities@.len(),
                row_views(rows@) == rows_of(identities@.take(i as int)),
            decreases identities@.len() - i,
        {
            let ghost before = row_views(rows@);
            let a = &identities[i];
            rows.push(IdentityRow { label: a.label.clone(), address: a.string_repr.clone() });
            assert(identities@.take(i as int + 1) =~= identities@.take(i as int).push(identities@[i as int]));
            assert(row_views(rows@) =~= before.push(RowView { label: a.label@, address: a.string_repr@ }));
            assert(rows_of(identities@.take(i as int + 1)) =~= rows_of(identities@.take(i as int)).push(RowView { label: a.label@, address: a.string_repr@ }));
            i = i + 1;
        }
        assert(identities@.take(identities@.len() as int) =~= identities@);
        self.rows = rows;
        let mut out: Vec<IdentitiesListOutput> = Vec::new();
        out.push(IdentitiesListOutput::EmptyList(empty));
        out
    }
}

} // verus!
