use vstd::prelude::*;

verus! {

/// Name given to a newly created trait document.
pub const DEFAULT_TRAIT_NAME: &'static str = "NewTrait";

/// A trait definition as stored in its metadata file: the trait's name and
/// its method entries, in order.
pub struct TraitDocument {
    pub name: String,
    pub methods: Vec<String>,
}

/// The mathematical value of a document.
pub struct DocumentModel {
    pub name: Seq<char>,
    pub methods: Seq<Seq<char>>,
}

impl View for TraitDocument {
    type V = DocumentModel;

    open spec fn view(&self) -> DocumentModel {
        DocumentModel { name: self.name@, methods: self.methods@.map_values(|m: String| m@) }
    }
}

/// The content a new document starts with: named `NewTrait`, no methods.
pub open spec fn default_model() -> DocumentModel {
    DocumentModel { name: DEFAULT_TRAIT_NAME@, methods: Seq::empty() }
}

impl TraitDocument {
    /// A document with the default content.
    pub fn new_default() -> (r: TraitDocument)
        ensures
            r@ == default_model(),
    {
        let r = TraitDocument { name: String::from_str(DEFAULT_TRAIT_NAME), methods: Vec::new() };
        assert(r@.methods =~= Seq::<Seq<char>>::empty());
        r
    }

    /// A copy holding the same name and methods.
    pub fn duplicate(&self) -> (r: TraitDocument)
        ensures
            r@ == self@,
    {
        let mut methods: Vec<String> = Vec::new();
        let mut i: usize = 0;
        while i < self.methods.len()
            invariant
                i <= self.methods@.len(),
                methods@.len() == i,
                forall|j: int| 0 <= j < i ==> methods@[j]@ == self.methods@[j]@,
            decreases self.methods@.len() - i,
        {
            methods.push(self.methods[i].clone());
            i = i + 1;
        }
        let r = TraitDocument { name: self.name.clone(), methods };
        assert(r@.methods =~= self@.methods);
        r
    }

    /// Whether two documents hold the same name and the same methods.
    pub fn same_content(&self, other: &TraitDocument) -> (r: bool)
        ensures
            r == (self@ == other@),
    {
        if self.name != other.name || self.methods.len() != other.methods.len() {
            if self.methods.len() != other.methods.len() {
                assert(self@.methods.len() != other@.methods.len());
            }
            return false;
        }
        let mut i: usize = 0;
        while i < self.methods.len()
            invariant
                i <= self.methods@.len(),
                self.methods@.len() == other.methods@.len(),
                forall|j: int| 0 <= j < i ==> self.methods@[j]@ == other.methods@[j]@,
            decreases self.methods@.len() - i,
        {
            if self.methods[i] != other.methods[i] {
                assert(self@.methods[i as int] != other@.methods[i as int]);
                return false;
            }
            i = i + 1;
        }
        assert(self@.methods =~= other@.methods);
        true
    }

    /// Renames the trait.
    pub fn set_name(&mut self, name: String)
        ensures
            final(self)@ == (DocumentModel { name: name@, ..old(self)@ }),
    {
        self.name = name;
    }

    /// Appends a method entry.
    pub fn add_method(&mut self, method: String)
        ensures
            final(self)@ == (DocumentModel { methods: old(self)@.methods.push(method@), ..old(self)@ }),
    {
        self.methods.push(method);
        assert(self@.methods =~= old(self)@.methods.push(method@));
    }

    /// Removes the method entry at `index`, if there is one; returns whether
    /// an entry was removed.
    pub fn remove_method(&mut self, index: usize) -> (removed: bool)
        ensures
            removed == (index < old(self)@.methods.len()),
            removed ==> final(self)@ == (DocumentModel {
                methods: old(self)@.methods.remove(index as int),
                ..old(self)@
            }),
            !removed ==> final(self)@ == old(self)@,
    {
        if index < self.methods.len() {
            self.methods.remove(index);
            assert(self@.methods =~= old(self)@.methods.remove(index as int));
            true
        } else {
            false
        }
    }
}

} // verus!
