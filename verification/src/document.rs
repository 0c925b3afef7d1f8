//! The in-memory struct definition that an editor instance works on.

use vstd::prelude::*;

verus! {

/// One field of a struct definition.
#[derive(Debug, PartialEq, Eq)]
pub struct Field {
    pub name: String,
    pub type_ref: String,
    pub metadata: Option<String>,
}

/// Mathematical value of a [`Field`].
pub struct FieldView {
    pub name: Seq<char>,
    pub type_ref: Seq<char>,
    pub metadata: Option<Seq<char>>,
}

impl View for Field {
    type V = FieldView;

    open spec fn view(&self) -> FieldView {
        FieldView {
            name: self.name@,
            type_ref: self.type_ref@,
            metadata: match self.metadata {
                Some(m) => Some(m@),
                None => None,
            },
        }
    }
}

impl Field {
    /// Whether two fields hold the same name, type reference and metadata.
    pub fn same_as(&self, other: &Field) -> (same: bool)
        ensures
            same == (self@ == other@),
    {
        let meta_same = match &self.metadata {
            Some(a) => match &other.metadata {
                Some(b) => *a == *b,
                None => false,
            },
            None => other.metadata.is_none(),
        };
        let name_same = self.name == other.name;
        let type_same = self.type_ref == other.type_ref;
        name_same && type_same && meta_same
    }

    /// An independent copy of the field.
    pub fn duplicate(&self) -> (copy: Field)
        ensures
            copy@ == self@,
    {
        let metadata = match &self.metadata {
            Some(m) => Some(m.clone()),
            None => None,
        };
        Field { name: self.name.clone(), type_ref: self.type_ref.clone(), metadata }
    }
}

/// A struct definition: its name and its fields in declaration order.
#[derive(Debug, PartialEq, Eq)]
pub struct DocumentModel {
    pub name: String,
    pub fields: Vec<Field>,
}

/// Mathematical value of a [`DocumentModel`].
pub struct DocumentView {
    pub name: Seq<char>,
    pub fields: Seq<FieldView>,
}

/// The values of a run of fields, in order.
pub open spec fn field_views(fields: Seq<Field>) -> Seq<FieldView> {
    Seq::new(fields.len(), |i: int| fields[i]@)
}

impl View for DocumentModel {
    type V = DocumentView;

    open spec fn view(&self) -> DocumentView {
        DocumentView { name: self.name@, fields: field_views(self.fields@) }
    }
}

/// One change that a panel makes to a struct definition.
#[derive(Debug, PartialEq, Eq)]
pub enum DocumentEdit {
    /// Give the struct another name.
    Rename(String),
    /// Append a field after the existing ones.
    AddField(Field),
    /// Take out the field at an index.
    RemoveField(usize),
    /// Put another field in the place of the one at an index.
    ReplaceField(usize, Field),
}

/// Mathematical value of a [`DocumentEdit`].
pub enum EditView {
    Rename(Seq<char>),
    AddField(FieldView),
    RemoveField(nat),
    ReplaceField(nat, FieldView),
}

impl View for DocumentEdit {
    type V = EditView;

    open spec fn view(&self) -> EditView {
        match self {
            DocumentEdit::Rename(name) => EditView::Rename(name@),
            DocumentEdit::AddField(field) => EditView::AddField(field@),
            DocumentEdit::RemoveField(index) => EditView::RemoveField(*index as nat),
            DocumentEdit::ReplaceField(index, field) => EditView::ReplaceField(
                *index as nat,
                field@,
            ),
        }
    }
}

impl DocumentView {
    /// Whether an edit can be carried out on this document: an index, where
    /// the edit has one, must name an existing field.
    pub open spec fn accepts(self, edit: EditView) -> bool {
        match edit {
            EditView::Rename(_) => true,
            EditView::AddField(_) => true,
            EditView::RemoveField(index) => index < self.fields.len(),
            EditView::ReplaceField(index, _) => index < self.fields.len(),
        }
    }

    /// The document after an edit. An edit that the document does not accept
    /// leaves it as it is.
    pub open spec fn edited(self, edit: EditView) -> DocumentView {
        if !self.accepts(edit) {
            self
        } else {
            match edit {
                EditView::Rename(name) => DocumentView { name, fields: self.fields },
                EditView::AddField(field) => DocumentView {
                    name: self.name,
                    fields: self.fields.push(field),
                },
                EditView::RemoveField(index) => DocumentView {
                    name: self.name,
                    fields: self.fields.remove(index as int),
                },
                EditView::ReplaceField(index, field) => DocumentView {
                    name: self.name,
                    fields: self.fields.update(index as int, field),
                },
            }
        }
    }
}

impl DocumentModel {
    /// A document with the given name and no fields.
    pub fn named(name: &str) -> (doc: DocumentModel)
        ensures
            doc@ == (DocumentView { name: name@, fields: Seq::empty() }),
    {
        let doc = DocumentModel { name: name.to_owned(), fields: Vec::new() };
        assert(doc@.fields =~= Seq::empty());
        doc
    }

    /// Whether two documents have the same name and the same fields in the
    /// same order.
    pub fn same_as(&self, other: &DocumentModel) -> (same: bool)
        ensures
            same == (self@ == other@),
    {
        if !(self.name == other.name) {
            return false;
        }
        if self.fields.len() != other.fields.len() {
            assert(self@.fields.len() != other@.fields.len());
            return false;
        }
        let mut i: usize = 0;
        while i < self.fields.len()
            invariant
                i <= self.fields.len(),
                self.fields.len() == other.fields.len(),
                forall|j: int| 0 <= j < i ==> self.fields[j]@ == other.fields[j]@,
            decreases self.fields.len() - i,
        {
            if !self.fields[i].same_as(&other.fields[i]) {
                assert(self@.fields[i as int] != other@.fields[i as int]);
                return false;
            }
            i += 1;
        }
        assert(self@.fields =~= other@.fields);
        true
    }

    /// An independent copy of the document.
    pub fn duplicate(&self) -> (copy: DocumentModel)
        ensures
            copy@ == self@,
    {
        let mut fields: Vec<Field> = Vec::new();
        let mut i: usize = 0;
        while i < self.fields.len()
            invariant
                i <= self.fields.len(),
                fields.len() == i,
                forall|j: int| 0 <= j < i ==> fields[j]@ == self.fields[j]@,
            decreases self.fields.len() - i,
        {
            fields.push(self.fields[i].duplicate());
            i += 1;
        }
        let copy = DocumentModel { name: self.name.clone(), fields };
        assert(copy@.fields =~= self@.fields);
        copy
    }

    /// Carries out one edit. Returns whether the document accepted it; a
    /// refused edit changes nothing.
    pub fn apply(&mut self, edit: DocumentEdit) -> (accepted: bool)
        ensures
            accepted == old(self)@.accepts(edit@),
            final(self)@ == old(self)@.edited(edit@),
    {
        match edit {
            DocumentEdit::Rename(name) => {
                self.name = name;
                true
            },
            DocumentEdit::AddField(field) => {
                self.fields.push(field);
                assert(self@.fields =~= old(self)@.fields.push(field@));
                true
            },
            DocumentEdit::RemoveField(index) => {
                if index < self.fields.len() {
                    self.fields.remove(index);
                    assert(self@.fields =~= old(self)@.fields.remove(index as int));
                    true
                } else {
                    false
                }
            },
            DocumentEdit::ReplaceField(index, field) => {
                if index < self.fields.len() {
                    self.fields.set(index, field);
                    assert(self@.fields =~= old(self)@.fields.update(index as int, field@));
                    true
                } else {
                    false
                }
            },
        }
    }
}

} // verus!
