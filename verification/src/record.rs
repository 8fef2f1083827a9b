//! The item record: the unit that a run enriches.

use vstd::prelude::*;

verus! {

/// One item of the catalog.
#[derive(Debug, PartialEq, Eq)]
pub struct ItemRecord {
    /// The item's stable local name. A run never changes it.
    pub short_name: String,
    /// The identifiers known for the item, in the order in which they were
    /// learnt. An identifier may occur more than once.
    pub identifiers: Vec<u32>,
    /// The name under which the remote catalog knows the item; empty while
    /// that name is unresolved.
    pub canonical_name: String,
}

/// The mathematical value of an [`ItemRecord`].
pub struct RecordView {
    pub short_name: Seq<char>,
    pub identifiers: Seq<u32>,
    pub canonical_name: Seq<char>,
}

impl RecordView {
    /// Whether the canonical name is known.
    pub open spec fn is_resolved(self) -> bool {
        self.canonical_name.len() > 0
    }

    /// The record under the canonical name `name`.
    pub open spec fn named(self, name: Seq<char>) -> RecordView {
        RecordView { canonical_name: name, ..self }
    }

    /// The record with `more` behind the identifiers it has.
    pub open spec fn with_identifiers(self, more: Seq<u32>) -> RecordView {
        RecordView { identifiers: self.identifiers + more, ..self }
    }
}

impl View for ItemRecord {
    type V = RecordView;

    open spec fn view(&self) -> RecordView {
        RecordView {
            short_name: self.short_name@,
            identifiers: self.identifiers@,
            canonical_name: self.canonical_name@,
        }
    }
}

impl Clone for ItemRecord {
    /// A record of the same value.
    fn clone(&self) -> (copy: ItemRecord)
        ensures
            copy@ == self@,
    {
        let identifiers = self.identifiers.clone();
        assert(identifiers@ =~= self.identifiers@);
        ItemRecord {
            short_name: self.short_name.clone(),
            identifiers,
            canonical_name: self.canonical_name.clone(),
        }
    }
}

/// The values of the records of a catalog, in the catalog's order.
pub open spec fn catalog_view(records: Seq<ItemRecord>) -> Seq<RecordView> {
    Seq::new(records.len(), |i: int| records[i]@)
}

impl ItemRecord {
    /// A record without identifiers and without a canonical name.
    pub fn new(short_name: String) -> (record: ItemRecord)
        ensures
            record@ == (RecordView {
                short_name: short_name@,
                identifiers: Seq::empty(),
                canonical_name: Seq::empty(),
            }),
    {
        ItemRecord { short_name, identifiers: Vec::new(), canonical_name: String::new() }
    }

    /// Whether the canonical name is known.
    pub fn is_resolved(&self) -> (yes: bool)
        ensures
            yes == self@.is_resolved(),
    {
        !self.canonical_name.as_str().is_empty()
    }

    /// Gives an unresolved record the canonical name `name`. A record that
    /// has a canonical name keeps it.
    pub fn resolve(&mut self, name: String)
        ensures
            final(self)@ == if old(self)@.is_resolved() {
                old(self)@
            } else {
                old(self)@.named(name@)
            },
    {
        if !self.is_resolved() {
            self.canonical_name = name;
        }
    }

    /// Puts `more` behind the identifiers of the record, in order. Nothing
    /// that the record holds is removed, and nothing is left out because the
    /// record holds it already.
    pub fn append_identifiers(&mut self, more: Vec<u32>)
        ensures
            final(self)@ == old(self)@.with_identifiers(more@),
    {
        let mut more = more;
        self.identifiers.append(&mut more);
    }
}

} // verus!
