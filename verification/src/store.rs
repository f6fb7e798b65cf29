//! What loading and saving the credential record mean.
//!
//! An installation persists one record. The store here is the library's
//! picture of that one slot of durable storage: the caller reads the slot
//! and opens a store on what it found, and writes the slot when a record is
//! saved. Reading and writing themselves are the caller's.
use vstd::prelude::*;
use crate::error::{AuthError, AuthErrorView};
use crate::record::{CredentialRecord, RecordView};

verus! {

/// What a [`Persisted`] holds.
#[verifier::ext_equal]
pub enum PersistedView {
    Missing,
    Found(RecordView),
    Unreadable,
}

/// What durable storage holds for this installation.
#[derive(Debug)]
pub enum Persisted {
    /// Nothing was ever saved.
    Missing,
    /// This record.
    Found(CredentialRecord),
    /// Something that could not be read, or could not be understood.
    Unreadable,
}

impl View for Persisted {
    type V = PersistedView;

    open spec fn view(&self) -> PersistedView {
        match self {
            Persisted::Missing => PersistedView::Missing,
            Persisted::Found(record) => PersistedView::Found(record@),
            Persisted::Unreadable => PersistedView::Unreadable,
        }
    }
}

impl Clone for Persisted {
    fn clone(&self) -> (r: Persisted)
        ensures
            r == *self,
    {
        match self {
            Persisted::Missing => Persisted::Missing,
            Persisted::Found(record) => Persisted::Found(record.clone()),
            Persisted::Unreadable => Persisted::Unreadable,
        }
    }
}

impl PersistedView {
    /// What loading gives: the empty record where nothing was ever saved,
    /// which is no failure; the record that is there; and a storage failure
    /// where the slot cannot be read, never an empty record in its place.
    pub open spec fn loaded(self) -> Result<RecordView, AuthErrorView> {
        match self {
            PersistedView::Missing => Ok(RecordView::empty()),
            PersistedView::Found(record) => Ok(record),
            PersistedView::Unreadable => Err(AuthErrorView::StorageFailure),
        }
    }

    /// The slot after `record` was saved: the whole record, in place of
    /// whatever was there.
    pub open spec fn saved(self, record: RecordView) -> PersistedView {
        PersistedView::Found(record)
    }
}

/// The one persisted credential record of an installation.
pub struct CredentialStore {
    slot: Persisted,
}

impl View for CredentialStore {
    type V = PersistedView;

    closed spec fn view(&self) -> PersistedView {
        self.slot@
    }
}

impl CredentialStore {
    /// A store on what the caller found in durable storage.
    pub fn open(slot: Persisted) -> (store: CredentialStore)
        ensures
            store@ == slot@,
    {
        CredentialStore { slot }
    }

    /// The persisted record; the empty record where there is none.
    ///
    /// Fails with `StorageFailure` exactly when the slot is unreadable.
    pub fn load(&self) -> (r: Result<CredentialRecord, AuthError>)
        ensures
            match r {
                Ok(record) => self@.loaded() == Ok::<RecordView, AuthErrorView>(record@),
                Err(e) => self@.loaded() == Err::<RecordView, AuthErrorView>(e@),
            },
    {
        match &self.slot {
            Persisted::Missing => Ok(CredentialRecord::new()),
            Persisted::Found(record) => Ok(record.clone()),
            Persisted::Unreadable => Err(AuthError::StorageFailure),
        }
    }

    /// Puts `record` in the slot, whole, in place of whatever was there.
    pub fn save(&mut self, record: CredentialRecord)
        ensures
            final(self)@ == old(self)@.saved(record@),
    {
        self.slot = Persisted::Found(record);
    }

    /// What the slot holds.
    pub fn contents(&self) -> (slot: &Persisted)
        ensures
            slot@ == self@,
    {
        &self.slot
    }
}

/// A record that was saved is the record that is loaded: every field comes
/// back as it went in, whatever the slot held before.
pub proof fn law_save_then_load(before: PersistedView, record: RecordView)
    ensures
        before.saved(record).loaded() == Ok::<RecordView, AuthErrorView>(record),
{
}

/// Saving is not cumulative: of two saves only the second shows.
pub proof fn law_save_overwrites(before: PersistedView, first: RecordView, second: RecordView)
    ensures
        before.saved(first).saved(second) == before.saved(second),
{
}

} // verus!
