use vstd::prelude::*;
use crate::document::{TraitDocument, DocumentModel, default_model};
use crate::error::{DocumentFailure, PluginError, error_for, failure_error};
use crate::resolver::canonical_path_of;

verus! {

/// One open editor on a trait document. It exclusively owns the in-memory
/// document and remembers the content last read from or written to the
/// metadata file, so that unsaved edits can be told apart.
pub struct TraitEditorWrapper {
    file_path: String,
    canonical_path: String,
    document: TraitDocument,
    persisted: Option<TraitDocument>,
}

impl TraitEditorWrapper {
    /// The path the editor was opened with (a directory or a metadata file).
    pub closed spec fn spec_file_path(&self) -> Seq<char> {
        self.file_path@
    }

    /// The metadata file that save and reload act on.
    pub closed spec fn spec_canonical_path(&self) -> Seq<char> {
        self.canonical_path@
    }

    /// The document as currently edited.
    pub closed spec fn spec_document(&self) -> DocumentModel {
        self.document@
    }

    /// The content last read from or written to the metadata file, if any.
    pub closed spec fn spec_persisted(&self) -> Option<DocumentModel> {
        match self.persisted {
            Some(d) => Some(d@),
            None => None,
        }
    }

    /// Whether the in-memory document differs from what is on disk as far
    /// as this editor knows.
    pub open spec fn spec_dirty(&self) -> bool {
        self.spec_persisted() != Some(self.spec_document())
    }

    /// An editor for the document opened at `file_path` (a directory when
    /// `is_dir`). It starts with the default content, not yet persisted.
    pub fn open(file_path: String, is_dir: bool) -> (r: TraitEditorWrapper)
        ensures
            r.spec_file_path() == file_path@,
            r.spec_canonical_path() == canonical_path_of(file_path@, is_dir),
            r.spec_document() == default_model(),
            r.spec_persisted().is_none(),
    {
        let canonical_path = crate::resolver::resolve(&file_path, is_dir);
        TraitEditorWrapper {
            file_path,
            canonical_path,
            document: TraitDocument::new_default(),
            persisted: None,
        }
    }

    /// The path the editor was opened with.
    pub fn file_path(&self) -> (r: &String)
        ensures
            r@ == self.spec_file_path(),
    {
        &self.file_path
    }

    /// The metadata file that save and reload act on.
    pub fn canonical_path(&self) -> (r: &String)
        ensures
            r@ == self.spec_canonical_path(),
    {
        &self.canonical_path
    }

    /// The document as currently edited; this is what a save writes.
    pub fn document(&self) -> (r: &TraitDocument)
        ensures
            r@ == self.spec_document(),
    {
        &self.document
    }

    /// Whether there are edits that have not been saved.
    pub fn is_dirty(&self) -> (r: bool)
        ensures
            r == self.spec_dirty(),
    {
        match &self.persisted {
            Some(d) => !self.document.same_content(d),
            None => true,
        }
    }

    /// Renames the trait in the in-memory document.
    pub fn set_name(&mut self, name: String)
        ensures
            final(self).spec_document() == (DocumentModel { name: name@, ..old(self).spec_document() }),
            final(self).spec_persisted() == old(self).spec_persisted(),
            final(self).spec_file_path() == old(self).spec_file_path(),
            final(self).spec_canonical_path() == old(self).spec_canonical_path(),
    {
        self.document.set_name(name);
    }

    /// Appends a method entry to the in-memory document.
    pub fn add_method(&mut self, method: String)
        ensures
            final(self).spec_document() == (DocumentModel {
                methods: old(self).spec_document().methods.push(method@),
                ..old(self).spec_document()
            }),
            final(self).spec_persisted() == old(self).spec_persisted(),
            final(self).spec_file_path() == old(self).spec_file_path(),
            final(self).spec_canonical_path() == old(self).spec_canonical_path(),
    {
        self.document.add_method(method);
    }

    /// Removes the method entry at `index` from the in-memory document, if
    /// there is one; returns whether an entry was removed.
    pub fn remove_method(&mut self, index: usize) -> (removed: bool)
        ensures
            removed == (index < old(self).spec_document().methods.len()),
            removed ==> final(self).spec_document() == (DocumentModel {
                methods: old(self).spec_document().methods.remove(index as int),
                ..old(self).spec_document()
            }),
            !removed ==> final(self).spec_document() == old(self).spec_document(),
            final(self).spec_persisted() == old(self).spec_persisted(),
            final(self).spec_file_path() == old(self).spec_file_path(),
            final(self).spec_canonical_path() == old(self).spec_canonical_path(),
    {
        self.document.remove_method(index)
    }

    /// Completes a save, given the outcome of writing `document()` to the
    /// metadata file. On success the written content becomes the persisted
    /// one; on failure nothing changes and the error names the file.
    pub fn save(&mut self, outcome: Result<(), DocumentFailure>) -> (r: Result<(), PluginError>)
        ensures
            final(self).spec_document() == old(self).spec_document(),
            final(self).spec_file_path() == old(self).spec_file_path(),
            final(self).spec_canonical_path() == old(self).spec_canonical_path(),
            match outcome {
                Ok(()) => r is Ok && final(self).spec_persisted() == Some(old(self).spec_document()),
                Err(f) => final(self).spec_persisted() == old(self).spec_persisted() && (
                r matches Err(e) && failure_error(f, old(self).spec_canonical_path(), e)),
            },
    {
        match outcome {
            Ok(()) => {
                self.persisted = Some(self.document.duplicate());
                Ok(())
            },
            Err(f) => Err(error_for(f, &self.canonical_path)),
        }
    }

    /// Completes a reload, given the outcome of reading the metadata file.
    /// On success in-memory edits are discarded for the content read, which
    /// also becomes the persisted one; on failure nothing changes and the
    /// error names the file.
    pub fn reload(&mut self, outcome: Result<TraitDocument, DocumentFailure>) -> (r: Result<(), PluginError>)
        ensures
            final(self).spec_file_path() == old(self).spec_file_path(),
            final(self).spec_canonical_path() == old(self).spec_canonical_path(),
            match outcome {
                Ok(d) => r is Ok && final(self).spec_document() == d@
                    && final(self).spec_persisted() == Some(d@),
                Err(f) => final(self).spec_document() == old(self).spec_document()
                    && final(self).spec_persisted() == old(self).spec_persisted() && (
                r matches Err(e) && failure_error(f, old(self).spec_canonical_path(), e)),
            },
    {
        match outcome {
            Ok(d) => {
                self.persisted = Some(d.duplicate());
                self.document = d;
                Ok(())
            },
            Err(f) => Err(error_for(f, &self.canonical_path)),
        }
    }
}

} // verus!
