//! The persistent store, as far as the tracker depends on it.
//!
//! The tracker keeps its whole collection under one key of a key-value
//! store. It never touches the store itself: each update names the
//! [`StorageOp`] that its owner has to carry out. [`MemoryStore`] is that
//! one entry held in memory, with the behaviour the tracker relies on.

use vstd::prelude::*;
use crate::project::{clone_projects, Project, ProjectView};

verus! {

/// Why no collection could be read from the store.
#[derive(Debug, Clone, Copy, PartialEq, Eq, Structural)]
pub enum LoadError {
    /// Nothing is stored under the key.
    KeyNotFound,
    /// Something is stored under the key, but it is no collection.
    Corrupt,
}

/// What has to happen to the stored entry after an update.
#[derive(Debug, PartialEq, Eq)]
pub enum StorageOp {
    /// The entry stays as it is.
    Nothing,
    /// The entry is overwritten with this snapshot of the whole collection.
    Write(Vec<Project>),
    /// The key is removed.
    Delete,
}

/// A [`StorageOp`] with its snapshot as a sequence of record views.
pub ghost enum StorageOpView {
    Nothing,
    Write(Seq<ProjectView>),
    Delete,
}

impl View for StorageOp {
    type V = StorageOpView;

    open spec fn view(&self) -> StorageOpView {
        match self {
            StorageOp::Nothing => StorageOpView::Nothing,
            StorageOp::Write(snapshot) => StorageOpView::Write(snapshot.deep_view()),
            StorageOp::Delete => StorageOpView::Delete,
        }
    }
}

impl StorageOpView {
    /// The entry after the operation. `None` stands for an absent key.
    pub open spec fn apply(self, entry: Option<Seq<ProjectView>>) -> Option<Seq<ProjectView>> {
        match self {
            StorageOpView::Nothing => entry,
            StorageOpView::Write(snapshot) => Some(snapshot),
            StorageOpView::Delete => None,
        }
    }
}

/// What reading an entry yields: its collection, or `KeyNotFound` for an
/// absent key.
pub open spec fn read(entry: Option<Seq<ProjectView>>) -> Result<Seq<ProjectView>, LoadError> {
    match entry {
        Some(collection) => Ok(collection),
        None => Err(LoadError::KeyNotFound),
    }
}

/// What a load result holds, record by record.
pub open spec fn loaded_view(loaded: Result<Vec<Project>, LoadError>) -> Result<
    Seq<ProjectView>,
    LoadError,
> {
    match loaded {
        Ok(collection) => Ok(collection.deep_view()),
        Err(e) => Err(e),
    }
}

/// The tracker's entry of the store, held in memory.
#[derive(Debug)]
pub struct MemoryStore {
    entry: Option<Vec<Project>>,
}

impl View for MemoryStore {
    type V = Option<Seq<ProjectView>>;

    closed spec fn view(&self) -> Option<Seq<ProjectView>> {
        match self.entry {
            Some(collection) => Some(collection.deep_view()),
            None => None,
        }
    }
}

impl MemoryStore {
    /// A store that holds nothing under the key.
    pub fn new() -> (store: MemoryStore)
        ensures
            store@ is None,
    {
        MemoryStore { entry: None }
    }

    /// Whether anything is stored under the key.
    pub fn has_entry(&self) -> (present: bool)
        ensures
            present == (self@ is Some),
    {
        self.entry.is_some()
    }

    /// Reads the stored collection.
    pub fn get(&self) -> (loaded: Result<Vec<Project>, LoadError>)
        ensures
            loaded_view(loaded) == read(self@),
    {
        match &self.entry {
            Some(collection) => Ok(clone_projects(collection)),
            None => Err(LoadError::KeyNotFound),
        }
    }

    /// Overwrites the entry with `collection`. A write to memory cannot
    /// fail.
    pub fn set(&mut self, collection: Vec<Project>)
        ensures
            final(self)@ == Some(collection.deep_view()),
    {
        self.entry = Some(collection);
    }

    /// Removes the key. Removing an absent key changes nothing.
    pub fn delete(&mut self)
        ensures
            final(self)@ is None,
    {
        self.entry = None;
    }

    /// Carries out what an update asked for.
    pub fn apply(&mut self, op: StorageOp)
        ensures
            final(self)@ == op@.apply(old(self)@),
    {
        match op {
            StorageOp::Nothing => {},
            StorageOp::Write(snapshot) => self.set(snapshot),
            StorageOp::Delete => self.delete(),
        }
    }
}

/// Reading after a write yields what was written, whatever the entry held
/// before.
pub proof fn lemma_write_then_read(entry: Option<Seq<ProjectView>>, collection: Seq<ProjectView>)
    ensures
        read(StorageOpView::Write(collection).apply(entry)) == Ok::<Seq<ProjectView>, LoadError>(
            collection,
        ),
{
}

} // verus!
