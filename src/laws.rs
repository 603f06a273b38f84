use vstd::prelude::*;
use crate::document::{DocumentModel, default_model};
use crate::instance::TraitEditorWrapper;
use crate::plugin::{FILE_TYPE_ID, TraitEditorPlugin, declared_file_type_ids};
use crate::registry::InstanceId;

verus! {

/// Saving a newly opened editor and then reloading the content that was
/// written gives back the default document, with nothing left unsaved.
/// `opened` is as `TraitEditorWrapper::open` leaves it, `saved` as a
/// successful `save` leaves it, with `written` its document, and
/// `reloaded` as a successful `reload` of `written` leaves `saved`.
pub proof fn lemma_default_round_trip(
    opened: TraitEditorWrapper,
    saved: TraitEditorWrapper,
    written: DocumentModel,
    reloaded: TraitEditorWrapper,
)
    requires
        opened.spec_document() == default_model(),
        saved.spec_document() == opened.spec_document(),
        saved.spec_persisted() == Some(opened.spec_document()),
        written == saved.spec_document(),
        reloaded.spec_document() == written,
        reloaded.spec_persisted() == Some(written),
    ensures
        reloaded.spec_document() == default_model(),
        reloaded.spec_document() == (DocumentModel { name: "NewTrait"@, methods: Seq::empty() }),
        !reloaded.spec_dirty(),
{
}

/// Identifiers keep increasing however creations, closings and unloads
/// interleave. A creation returns the counter of the state it starts from
/// and leaves it one higher; no operation lowers it. So a creation made
/// from any state reached after an earlier one returns a larger identifier,
/// one that is not live there.
pub proof fn lemma_later_creation_gets_larger_id<P>(
    first: InstanceId,
    after_first: TraitEditorPlugin<P>,
    later: TraitEditorPlugin<P>,
)
    requires
        after_first.next_id() == first + 1,
        later.next_id() >= after_first.next_id(),
        later.wf(),
    ensures
        later.next_id() > first,
        !later.live_ids().contains(later.next_id()),
{
    later.lemma_next_id_fresh();
}

/// Every file type an editor lists is one the plugin declares.
pub proof fn lemma_editors_open_declared_types(supported: Seq<Seq<char>>)
    requires
        supported == seq![FILE_TYPE_ID@],
    ensures
        forall|i: int| 0 <= i < supported.len() ==> declared_file_type_ids().contains(#[trigger] supported[i]),
{
    assert forall|i: int| 0 <= i < supported.len() implies declared_file_type_ids().contains(#[trigger] supported[i]) by {
        assert(declared_file_type_ids()[0] == supported[i]);
    }
}

} // verus!
