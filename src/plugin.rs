use vstd::prelude::*;
use crate::document::{TraitDocument, default_model};
use crate::error::PluginError;
use crate::instance::TraitEditorWrapper;
use crate::registry::{InstanceId, InstanceRegistry};
use crate::resolver::{MARKER_FILE, canonical_path_of};

verus! {

/// Identity of this plugin.
pub const PLUGIN_ID: &'static str = "com.pulsar.trait-editor";

/// Identity of the one editor this plugin provides.
pub const EDITOR_ID: &'static str = "trait-editor";

/// Identity and extension of the trait-definition file type.
pub const FILE_TYPE_ID: &'static str = "trait";

/// Descriptive metadata the host shows for the plugin.
pub struct PluginMetadata {
    pub id: String,
    pub name: String,
    pub version: String,
    pub author: String,
    pub description: String,
}

/// How a document of a file type is laid out on disk.
pub enum FileStructure {
    /// A directory holding a metadata file of a fixed name.
    FolderBased { marker_file: String, template_structure: Vec<String> },
}

/// A file type the plugin registers with the host.
pub struct FileTypeDescriptor {
    pub id: String,
    pub extension: String,
    pub display_name: String,
    pub structure: FileStructure,
    pub default_content: TraitDocument,
    pub categories: Vec<String>,
}

/// An editor the plugin provides, with the file types it opens.
pub struct EditorDescriptor {
    pub id: String,
    pub display_name: String,
    pub supported_file_types: Vec<String>,
}

/// The bookkeeping kept for a live editor: the shared display handle and
/// the paths it was opened on.
pub struct EditorRecord<P> {
    pub panel: P,
    pub file_path: String,
    pub canonical_path: String,
}

/// The identities of the file types the plugin declares.
pub open spec fn declared_file_type_ids() -> Seq<Seq<char>> {
    seq![FILE_TYPE_ID@]
}

/// Views of a list of strings.
pub open spec fn views_of(v: Seq<String>) -> Seq<Seq<char>> {
    v.map_values(|s: String| s@)
}

/// Whether two strings hold the same characters.
fn same_text(a: &str, b: &str) -> (r: bool)
    ensures
        r == (a@ == b@),
{
    let n = a.unicode_len();
    if n != b.unicode_len() {
        return false;
    }
    let mut i: usize = 0;
    while i < n
        invariant
            n == a@.len(),
            n == b@.len(),
            i <= n,
            forall|j: int| 0 <= j < i ==> a@[j] == b@[j],
        decreases n - i,
    {
        if a.get_char(i) != b.get_char(i) {
            return false;
        }
        i = i + 1;
    }
    assert(a@ =~= b@);
    true
}

/// The entry point the host drives: declares file types and editors,
/// creates editor instances and tears them all down on unload.
pub struct TraitEditorPlugin<P> {
    registry: InstanceRegistry<EditorRecord<P>>,
    loaded: bool,
}

impl<P> TraitEditorPlugin<P> {
    /// The live editors, oldest first, with their identifiers.
    pub closed spec fn live(&self) -> Seq<(InstanceId, EditorRecord<P>)> {
        self.registry.entries()
    }

    /// The identifier the next created editor receives.
    pub closed spec fn next_id(&self) -> InstanceId {
        self.registry.next_id()
    }

    /// Whether the host has loaded the plugin and not unloaded it since.
    pub closed spec fn is_loaded(&self) -> bool {
        self.loaded
    }

    /// The identifiers of the live editors, oldest first.
    pub open spec fn live_ids(&self) -> Seq<InstanceId> {
        self.live().map_values(|e: (InstanceId, EditorRecord<P>)| e.0)
    }

    /// Live identifiers are strictly increasing and below the counter.
    pub closed spec fn wf(&self) -> bool {
        self.registry.wf()
    }

    /// A plugin with no live editors, not yet loaded.
    pub fn new() -> (r: Self)
        ensures
            r.wf(),
            r.live().len() == 0,
            r.next_id() == 0,
            !r.is_loaded(),
    {
        TraitEditorPlugin { registry: InstanceRegistry::new(), loaded: false }
    }

    /// Descriptive metadata of the plugin.
    pub fn metadata(&self) -> (r: PluginMetadata)
        ensures
            r.id@ == PLUGIN_ID@,
            r.name@ == "Trait Editor"@,
            r.version@ == "0.1.0"@,
            r.author@ == "Pulsar Team"@,
            r.description@ == "Professional multi-panel editor for creating trait definitions"@,
    {
        PluginMetadata {
            id: String::from_str(PLUGIN_ID),
            name: String::from_str("Trait Editor"),
            version: String::from_str("0.1.0"),
            author: String::from_str("Pulsar Team"),
            description: String::from_str(
                "Professional multi-panel editor for creating trait definitions",
            ),
        }
    }

    /// The file types the plugin declares: the folder-based trait
    /// definition, marked by its metadata file.
    pub fn file_types(&self) -> (r: Vec<FileTypeDescriptor>)
        ensures
            r@.len() == 1,
            r@.map_values(|t: FileTypeDescriptor| t.id@) == declared_file_type_ids(),
            r@[0].extension@ == FILE_TYPE_ID@,
            r@[0].display_name@ == "Trait Definition"@,
            r@[0].structure matches FileStructure::FolderBased { marker_file, template_structure }
                && marker_file@ == MARKER_FILE@ && template_structure@.len() == 0,
            r@[0].default_content@ == default_model(),
            views_of(r@[0].categories@) == seq!["Types"@],
    {
        let mut categories: Vec<String> = Vec::new();
        categories.push(String::from_str("Types"));
        let descriptor = FileTypeDescriptor {
            id: String::from_str(FILE_TYPE_ID),
            extension: String::from_str(FILE_TYPE_ID),
            display_name: String::from_str("Trait Definition"),
            structure: FileStructure::FolderBased {
                marker_file: String::from_str(MARKER_FILE),
                template_structure: Vec::new(),
            },
            default_content: TraitDocument::new_default(),
            categories,
        };
        let mut r: Vec<FileTypeDescriptor> = Vec::new();
        r.push(descriptor);
        assert(r@.map_values(|t: FileTypeDescriptor| t.id@) =~= declared_file_type_ids());
        assert(views_of(r@[0].categories@) =~= seq!["Types"@]);
        r
    }

    /// The editors the plugin provides: the trait editor, which opens the
    /// trait-definition file type.
    pub fn editors(&self) -> (r: Vec<EditorDescriptor>)
        ensures
            r@.len() == 1,
            r@[0].id@ == EDITOR_ID@,
            r@[0].display_name@ == "Trait Editor"@,
            views_of(r@[0].supported_file_types@) == seq![FILE_TYPE_ID@],
    {
        let mut supported: Vec<String> = Vec::new();
        supported.push(String::from_str(FILE_TYPE_ID));
        let mut r: Vec<EditorDescriptor> = Vec::new();
        r.push(
            EditorDescriptor {
                id: String::from_str(EDITOR_ID),
                display_name: String::from_str("Trait Editor"),
                supported_file_types: supported,
            },
        );
        assert(views_of(r@[0].supported_file_types@) =~= seq![FILE_TYPE_ID@]);
        r
    }
    /// Opens an editor on the document at `file_path` (a directory when
    /// `is_dir`). Only the trait editor is provided: any other `editor_id`
    /// fails with `EditorNotFound` naming it, and changes nothing. Otherwise
    /// `build_panel` makes the display handle from the resolved metadata
    /// file, the editor is registered under a fresh identifier, and the
    /// identifier is returned with the editor, which owns its own document.
    pub fn create_editor<F: FnOnce(String) -> P>(
        &mut self,
        editor_id: &str,
        file_path: String,
        is_dir: bool,
        build_panel: F,
    ) -> (r: Result<(InstanceId, TraitEditorWrapper), PluginError>)
        requires
            old(self).wf(),
            old(self).next_id() < InstanceId::MAX,
            forall|s: String| call_requires(build_panel, (s,)),
        ensures
            final(self).wf(),
            final(self).is_loaded() == old(self).is_loaded(),
            editor_id@ != EDITOR_ID@ ==> {
                &&& r matches Err(PluginError::EditorNotFound { editor_id: e }) && e@ == editor_id@
                &&& final(self).live() == old(self).live()
                &&& final(self).next_id() == old(self).next_id()
            },
            editor_id@ == EDITOR_ID@ ==> {
                &&& r matches Ok((id, w)) && {
                    &&& id == old(self).next_id()
                    &&& w.spec_file_path() == file_path@
                    &&& w.spec_canonical_path() == canonical_path_of(file_path@, is_dir)
                    &&& w.spec_document() == default_model()
                    &&& w.spec_persisted().is_none()
                    &&& final(self).live().last().0 == id
                }
                &&& forall|i: int|
                    0 <= i < old(self).live().len() ==> old(self).live()[i].0 < old(self).next_id()
                &&& final(self).next_id() == old(self).next_id() + 1
                &&& final(self).live().len() == old(self).live().len() + 1
                &&& final(self).live().drop_last() == old(self).live()
                &&& final(self).live().last().1.file_path@ == file_path@
                &&& final(self).live().last().1.canonical_path@ == canonical_path_of(file_path@, is_dir)
                &&& call_ensures(
                    build_panel,
                    (final(self).live().last().1.canonical_path,),
                    final(self).live().last().1.panel,
                )
            },
    {
        if !same_text(editor_id, EDITOR_ID) {
            return Err(PluginError::EditorNotFound { editor_id: editor_id.to_owned() });
        }
        let wrapper = TraitEditorWrapper::open(file_path.clone(), is_dir);
        let canonical_path = wrapper.canonical_path().clone();
        let panel = build_panel(canonical_path.clone());
        let record = EditorRecord { panel, file_path, canonical_path };
        let build = move || -> (r: EditorRecord<P>)
            ensures
                r == record,
        {
            record
        };
        let id = self.registry.create(build);
        Ok((id, wrapper))
    }

    /// Unregisters the editor with identifier `id` and returns its record;
    /// returns `None` and changes nothing when no live editor has it.
    pub fn close_editor(&mut self, id: InstanceId) -> (r: Option<EditorRecord<P>>)
        requires
            old(self).wf(),
        ensures
            final(self).wf(),
            final(self).is_loaded() == old(self).is_loaded(),
            final(self).next_id() == old(self).next_id(),
            r.is_none() == !old(self).live_ids().contains(id),
            r.is_none() ==> final(self).live() == old(self).live(),
            r.is_some() ==> exists|i: int|
                0 <= i < old(self).live().len() && old(self).live()[i].0 == id
                    && old(self).live()[i].1 == r.unwrap() && final(self).live()
                    == old(self).live().remove(i),
    {
        let r = self.registry.remove(id);
        proof {
            if old(self).live_ids().contains(id) {
                let k = choose|k: int| 0 <= k < old(self).live_ids().len() && old(self).live_ids()[k] == id;
                assert(old(self).registry.holds(id) && old(self).live()[k].0 == id);
            }
            if old(self).registry.holds(id) {
                let k = choose|k: int| 0 <= k < old(self).live().len() && old(self).live()[k].0 == id;
                assert(old(self).live_ids()[k] == id);
            }
        }
        r
    }

    /// The display handle of the live editor with identifier `id`.
    pub fn panel(&self, id: InstanceId) -> (r: Option<&P>)
        requires
            self.wf(),
        ensures
            r.is_none() == !self.live_ids().contains(id),
            r.is_some() ==> exists|i: int|
                0 <= i < self.live().len() && self.live()[i].0 == id && self.live()[i].1.panel
                    == *r.unwrap(),
    {
        proof {
            if self.live_ids().contains(id) {
                let k = choose|k: int| 0 <= k < self.live_ids().len() && self.live_ids()[k] == id;
                assert(self.live()[k].0 == id);
            }
            if self.registry.holds(id) {
                let k = choose|k: int| 0 <= k < self.live().len() && self.live()[k].0 == id;
                assert(self.live_ids()[k] == id);
            }
        }
        match self.registry.get(id) {
            Some(record) => Some(&record.panel),
            None => None,
        }
    }

    /// The identifier the next creation hands out exceeds every live one,
    /// and live identifiers are strictly increasing: no identifier is live
    /// twice, and none is handed out again.
    pub proof fn lemma_next_id_fresh(&self)
        requires
            self.wf(),
        ensures
            forall|i: int, j: int|
                0 <= i < j < self.live().len() ==> self.live()[i].0 < self.live()[j].0,
            forall|i: int| 0 <= i < self.live().len() ==> self.live()[i].0 < self.next_id(),
            !self.live_ids().contains(self.next_id()),
    {
        if self.live_ids().contains(self.next_id()) {
            let k = choose|k: int| 0 <= k < self.live_ids().len() && self.live_ids()[k] == self.next_id();
            assert(self.live()[k].0 == self.next_id());
        }
    }

    /// The identifier the next created editor receives.
    pub fn upcoming_id(&self) -> (r: InstanceId)
        ensures
            r == self.next_id(),
    {
        self.registry.upcoming_id()
    }

    /// Number of live editors.
    pub fn live_count(&self) -> (n: usize)
        ensures
            n == self.live().len(),
    {
        self.registry.len()
    }

    /// Called by the host when it activates the plugin.
    pub fn on_load(&mut self)
        ensures
            final(self).is_loaded(),
            final(self).wf() == old(self).wf(),
            final(self).live() == old(self).live(),
            final(self).next_id() == old(self).next_id(),
    {
        self.loaded = true;
    }

    /// Called by the host when it deactivates the plugin: every live editor
    /// is destroyed, and their number is returned. Identifiers handed out
    /// later still continue from the counter.
    pub fn on_unload(&mut self) -> (destroyed: usize)
        requires
            old(self).wf(),
        ensures
            final(self).wf(),
            !final(self).is_loaded(),
            destroyed == old(self).live().len(),
            final(self).live().len() == 0,
            final(self).next_id() == old(self).next_id(),
    {
        let destroyed = self.registry.clear();
        self.loaded = false;
        destroyed
    }
}

impl<P> Default for TraitEditorPlugin<P> {
    fn default() -> (r: Self)
        ensures
            r.wf(),
            r.live().len() == 0,
            r.next_id() == 0,
            !r.is_loaded(),
    {
        Self::new()
    }
}

} // verus!
