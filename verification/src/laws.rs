//! Properties of the registry and of its instances that hold over whole
//! runs of requests, stated over the mathematical values of the types.

use vstd::prelude::*;
use crate::descriptor::{serves, FileTypeView};
use crate::document::{DocumentView, EditView};
use crate::error::ErrorView;
use crate::handle::{CapabilityHandle, EditorInstanceId};
use crate::plugin::PluginView;
use crate::registry::{OperationView, RegistryView, Reply};
use crate::store::{LoadView, SaveView, StoreView};
use crate::wrapper::WrapperView;

verus! {

/// One request for an editor, as a value.
pub struct CreateRequest {
    pub editor_id: Seq<char>,
    pub file_path: Seq<char>,
    pub is_folder: bool,
    pub loaded: LoadView,
}

/// The wrapper that a request creates in a registry, or its error.
pub open spec fn outcome_of(registry: RegistryView, file_type: FileTypeView, request: CreateRequest)
    -> Result<WrapperView, ErrorView> {
    registry.allocation(
        file_type,
        request.editor_id,
        request.file_path,
        request.is_folder,
        request.loaded,
    )
}

/// The registry after one request.
pub open spec fn after_request(
    registry: RegistryView,
    file_type: FileTypeView,
    request: CreateRequest,
) -> RegistryView {
    registry.allocated(
        file_type,
        request.editor_id,
        request.file_path,
        request.is_folder,
        request.loaded,
    )
}

/// The registry after a run of requests, made one after the other.
pub open spec fn after_requests(
    registry: RegistryView,
    file_type: FileTypeView,
    requests: Seq<CreateRequest>,
) -> RegistryView
    decreases requests.len(),
{
    if requests.len() == 0 {
        registry
    } else {
        after_request(
            after_requests(registry, file_type, requests.drop_last()),
            file_type,
            requests.last(),
        )
    }
}

/// The identifiers that a run of requests hands out, in the order of the
/// requests that succeed.
pub open spec fn issued_ids(
    registry: RegistryView,
    file_type: FileTypeView,
    requests: Seq<CreateRequest>,
) -> Seq<EditorInstanceId>
    decreases requests.len(),
{
    if requests.len() == 0 {
        Seq::empty()
    } else {
        let earlier = issued_ids(registry, file_type, requests.drop_last());
        match outcome_of(
            after_requests(registry, file_type, requests.drop_last()),
            file_type,
            requests.last(),
        ) {
            Ok(wrapper) => earlier.push(wrapper.id),
            Err(_) => earlier,
        }
    }
}

/// Identifiers are handed out densely and in order: whatever requests are
/// made, and whichever of them fail, the k-th request that succeeds gets the
/// k-th identifier after those already used, the counter advances by the
/// number of successes alone, and the live instances are the earlier ones
/// and the new ones.
pub proof fn lemma_ids_dense(
    registry: RegistryView,
    file_type: FileTypeView,
    requests: Seq<CreateRequest>,
)
    requires
        registry.wf(),
        registry.next_id + requests.len() <= usize::MAX,
    ensures
        ({
            let ids = issued_ids(registry, file_type, requests);
            let after = after_requests(registry, file_type, requests);
            &&& ids.len() <= requests.len()
            &&& forall|k: int| 0 <= k < ids.len() ==> #[trigger] ids[k] == registry.next_id + k
            &&& after.next_id == registry.next_id + ids.len()
            &&& after.wf()
            &&& forall|id: EditorInstanceId| #[trigger]
                after.entries.contains_key(id) <==> registry.entries.contains_key(id) || (
                registry.next_id <= id < registry.next_id + ids.len())
        }),
    decreases requests.len(),
{
    if requests.len() > 0 {
        lemma_ids_dense(registry, file_type, requests.drop_last());
    }
}

/// Starting from a new registry, a run of requests that all succeed hands
/// out exactly the identifiers 0, 1, ... up to their number, each once and
/// in order, and these are the instances that are live afterwards.
pub proof fn lemma_ids_from_zero(file_type: FileTypeView, requests: Seq<CreateRequest>)
    requires
        requests.len() <= usize::MAX,
        forall|i: int|
            0 <= i < requests.len() ==> outcome_of(
                RegistryView::empty(),
                file_type,
                #[trigger] requests[i],
            ) is Ok,
    ensures
        ({
            let ids = issued_ids(RegistryView::empty(), file_type, requests);
            let after = after_requests(RegistryView::empty(), file_type, requests);
            &&& ids.len() == requests.len()
            &&& forall|k: int| 0 <= k < ids.len() ==> #[trigger] ids[k] == k
            &&& ids.no_duplicates()
            &&& forall|id: EditorInstanceId| ids.contains(id) <==> id < requests.len()
            &&& forall|id: EditorInstanceId| #[trigger]
                after.entries.contains_key(id) <==> id < requests.len()
            &&& after.next_id == requests.len()
        }),
    decreases requests.len(),
{
    lemma_ids_dense(RegistryView::empty(), file_type, requests);
    if requests.len() > 0 {
        lemma_ids_from_zero(file_type, requests.drop_last());
        lemma_ids_dense(RegistryView::empty(), file_type, requests.drop_last());
    }
    let ids = issued_ids(RegistryView::empty(), file_type, requests);
    assert forall|id: EditorInstanceId| id < requests.len() implies ids.contains(id) by {
        assert(ids[id as int] == id);
    }
}

/// An instance that was just created answers a dirty check, and the answer
/// is that it is not dirty.
pub proof fn lemma_new_instance_is_clean(
    registry: RegistryView,
    file_type: FileTypeView,
    request: CreateRequest,
)
    requires
        outcome_of(registry, file_type, request) is Ok,
    ensures
        ({
            let wrapper = outcome_of(registry, file_type, request)->Ok_0;
            let handle = CapabilityHandle { id: wrapper.id };
            let after = after_request(registry, file_type, request);
            &&& after.resolves(handle)
            &&& after.reply(handle, OperationView::IsDirty) == Ok::<Reply, ErrorView>(
                Reply::Dirty(false),
            )
            &&& after.dispatched(handle, OperationView::IsDirty) == after
        }),
{
}

/// The document after a run of edits, made one after the other.
pub open spec fn after_edits(doc: DocumentView, edits: Seq<EditView>) -> DocumentView
    decreases edits.len(),
{
    if edits.len() == 0 {
        doc
    } else {
        after_edits(doc, edits.drop_last()).edited(edits.last())
    }
}

/// The wrapper after a run of edits, made one after the other.
pub open spec fn wrapper_after_edits(wrapper: WrapperView, edits: Seq<EditView>) -> WrapperView
    decreases edits.len(),
{
    if edits.len() == 0 {
        wrapper
    } else {
        wrapper_after_edits(wrapper, edits.drop_last()).edited(edits.last())
    }
}

/// Edits touch the document in memory and nothing else of a wrapper.
pub proof fn lemma_edits_keep_persisted(wrapper: WrapperView, edits: Seq<EditView>)
    ensures
        ({
            let after = wrapper_after_edits(wrapper, edits);
            &&& after.id == wrapper.id
            &&& after.file_path == wrapper.file_path
            &&& after.editor.backing_path == wrapper.editor.backing_path
            &&& after.editor.persisted == wrapper.editor.persisted
            &&& after.editor.document == after_edits(wrapper.editor.document, edits)
        }),
    decreases edits.len(),
{
    if edits.len() > 0 {
        lemma_edits_keep_persisted(wrapper, edits.drop_last());
    }
}

/// Save, edit, reload: with a store that keeps what is written to it, a
/// reload after any edits brings back exactly the document that was saved,
/// and the instance is not dirty afterwards.
pub proof fn lemma_reload_restores_saved(
    wrapper: WrapperView,
    store: StoreView,
    edits: Seq<EditView>,
)
    ensures
        ({
            let path = wrapper.editor.backing_path;
            let store_after = store.written(path, wrapper.editor.document);
            let saved = wrapper.saved(SaveView::Saved);
            let changed = wrapper_after_edits(saved, edits);
            let reloaded = changed.reloaded(store_after.read(path));
            &&& reloaded.editor.document == wrapper.editor.document
            &&& !reloaded.is_dirty()
            &&& reloaded == saved
        }),
{
    lemma_edits_keep_persisted(wrapper.saved(SaveView::Saved), edits);
}

/// A reload that fails keeps the document in memory and what counts as
/// saved; a save that fails does the same.
pub proof fn lemma_failure_changes_nothing(wrapper: WrapperView, detail: Seq<char>)
    ensures
        wrapper.saved(SaveView::IoError(detail)) == wrapper,
        wrapper.reloaded(LoadView::ParseError(detail)) == wrapper,
        wrapper.reloaded(LoadView::NotFound) == wrapper,
{
}

/// One round of saving a wrapper's document to a store and reloading it
/// from there.
pub open spec fn save_then_reload(wrapper: WrapperView, store: StoreView) -> (WrapperView, StoreView) {
    let path = wrapper.editor.backing_path;
    let store_after = store.written(path, wrapper.editor.document);
    (wrapper.saved(SaveView::Saved).reloaded(store_after.read(path)), store_after)
}

/// A number of rounds of save and reload, one after the other.
pub open spec fn save_reload_rounds(wrapper: WrapperView, store: StoreView, rounds: nat) -> (
    WrapperView,
    StoreView,
)
    decreases rounds,
{
    if rounds == 0 {
        (wrapper, store)
    } else {
        let (w, s) = save_reload_rounds(wrapper, store, (rounds - 1) as nat);
        save_then_reload(w, s)
    }
}

/// Saving and then reloading is idempotent: however many rounds are made,
/// the document stays the one that was in memory before the first save, and
/// every round after the first leaves the wrapper and the store as the
/// first round left them.
pub proof fn lemma_save_reload_idempotent(wrapper: WrapperView, store: StoreView, rounds: nat)
    ensures
        save_reload_rounds(wrapper, store, rounds).0.editor.document == wrapper.editor.document,
        save_reload_rounds(wrapper, store, rounds + 1) == save_then_reload(wrapper, store),
        !save_reload_rounds(wrapper, store, rounds + 1).0.is_dirty(),
    decreases rounds,
{
    if rounds > 0 {
        lemma_save_reload_idempotent(wrapper, store, (rounds - 1) as nat);
        let (w, s) = save_then_reload(wrapper, store);
        let path = wrapper.editor.backing_path;
        assert(s.written(path, w.editor.document).documents =~= s.documents);
    } else {
        assert(save_reload_rounds(wrapper, store, 0) == (wrapper, store));
    }
}

/// After unloading, no handle names an instance: every operation through
/// any handle fails with `InstanceNotFound` and changes nothing.
pub proof fn lemma_unload_invalidates_handles(
    registry: RegistryView,
    handle: CapabilityHandle,
    op: OperationView,
)
    ensures
        registry.unloaded().reply(handle, op) == Err::<Reply, ErrorView>(
            ErrorView::InstanceNotFound { handle },
        ),
        registry.unloaded().dispatched(handle, op) == registry.unloaded(),
{
}

/// Unloading twice is unloading once: the second time there is nothing to
/// drop.
pub proof fn lemma_unload_idempotent(registry: RegistryView)
    ensures
        registry.unloaded().entries.len() == 0,
        registry.unloaded().unloaded() == registry.unloaded(),
{
}

/// A handle that was given out before an unload stays dead whatever
/// requests follow: its identifier is never used again.
pub proof fn lemma_stale_handle_stays_dead(
    registry: RegistryView,
    file_type: FileTypeView,
    requests: Seq<CreateRequest>,
    handle: CapabilityHandle,
    op: OperationView,
)
    requires
        registry.wf(),
        registry.next_id + requests.len() <= usize::MAX,
        handle.id < registry.next_id,
    ensures
        after_requests(registry.unloaded(), file_type, requests).reply(handle, op) == Err::<
            Reply,
            ErrorView,
        >(ErrorView::InstanceNotFound { handle }),
{
    lemma_ids_dense(registry.unloaded(), file_type, requests);
}

/// What a plugin does on unload, and on a second unload after it: the first
/// drops every instance, the second finds none, and no handle resolves in
/// between or after.
pub proof fn lemma_plugin_unload(plugin: PluginView, handle: CapabilityHandle, op: OperationView)
    ensures
        plugin.wf() ==> plugin.unloaded().wf(),
        plugin.unloaded().registry.entries.len() == 0,
        plugin.unloaded().unloaded() == plugin.unloaded(),
        plugin.unloaded().registry.reply(handle, op) == Err::<Reply, ErrorView>(
            ErrorView::InstanceNotFound { handle },
        ),
        plugin.unloaded().dispatched(handle, op) == plugin.unloaded(),
{
}

/// Loading is idempotent, and it touches neither the instances nor the
/// counter of identifiers.
pub proof fn lemma_load_idempotent(plugin: PluginView)
    ensures
        plugin.loaded().loaded() == plugin.loaded(),
        plugin.loaded().registry == plugin.registry,
        plugin.wf() ==> plugin.loaded().wf(),
{
}

/// While the plugin is unloaded no handle names an instance, and a request
/// for the editor type that the plugin serves is refused with
/// `PluginNotActive`.
pub proof fn lemma_unloaded_plugin_serves_nothing(
    plugin: PluginView,
    request: CreateRequest,
    handle: CapabilityHandle,
    op: OperationView,
)
    requires
        plugin.wf(),
        !plugin.active,
    ensures
        plugin.registry.reply(handle, op) == Err::<Reply, ErrorView>(
            ErrorView::InstanceNotFound { handle },
        ),
        serves(request.editor_id) ==> plugin.creation(
            request.editor_id,
            request.file_path,
            request.is_folder,
            request.loaded,
        ) == Err::<WrapperView, ErrorView>(ErrorView::PluginNotActive),
{
}

/// A request for an editor type that the plugin does not serve fails with
/// `EditorKindUnsupported`, whether the plugin is loaded or not, and uses up
/// no identifier: the plugin is unchanged, so a request that follows is
/// answered as if the failed one had not been made.
pub proof fn lemma_unsupported_editor_uses_no_id(
    plugin: PluginView,
    refused: CreateRequest,
    next: CreateRequest,
)
    requires
        !serves(refused.editor_id),
    ensures
        plugin.creation(refused.editor_id, refused.file_path, refused.is_folder, refused.loaded)
            == Err::<WrapperView, ErrorView>(
            ErrorView::EditorKindUnsupported { editor_id: refused.editor_id },
        ),
        plugin.created(refused.editor_id, refused.file_path, refused.is_folder, refused.loaded)
            == plugin,
        plugin.created(
            refused.editor_id,
            refused.file_path,
            refused.is_folder,
            refused.loaded,
        ).creation(next.editor_id, next.file_path, next.is_folder, next.loaded) == plugin.creation(
            next.editor_id,
            next.file_path,
            next.is_folder,
            next.loaded,
        ),
{
}

/// No request fails halfway: one that fails, for whatever reason, leaves
/// the plugin exactly as it was.
pub proof fn lemma_failed_request_changes_nothing(plugin: PluginView, request: CreateRequest)
    requires
        plugin.creation(
            request.editor_id,
            request.file_path,
            request.is_folder,
            request.loaded,
        ) is Err,
    ensures
        plugin.created(request.editor_id, request.file_path, request.is_folder, request.loaded)
            == plugin,
{
}

/// Instances do not share state: an operation or an edit through one handle
/// leaves every other instance as it was, also one that was opened on the
/// same path.
pub proof fn lemma_instances_independent(
    registry: RegistryView,
    handle: CapabilityHandle,
    other: CapabilityHandle,
    op: OperationView,
    edit: EditView,
)
    requires
        handle != other,
    ensures
        registry.dispatched(handle, op).resolves(other) == registry.resolves(other),
        registry.dispatched(handle, op).entries[other.id] == registry.entries[other.id],
        registry.edited(handle, edit).resolves(other) == registry.resolves(other),
        registry.edited(handle, edit).entries[other.id] == registry.entries[other.id],
{
}

/// Two requests in a row, both successful, give two different identifiers
/// and two instances that are both live.
pub proof fn lemma_two_requests_two_instances(
    registry: RegistryView,
    file_type: FileTypeView,
    first: CreateRequest,
    second: CreateRequest,
)
    requires
        registry.wf(),
        registry.next_id + 2 <= usize::MAX,
        outcome_of(registry, file_type, first) is Ok,
        outcome_of(registry, file_type, second) is Ok,
    ensures
        ({
            let one = outcome_of(registry, file_type, first)->Ok_0;
            let between = after_request(registry, file_type, first);
            let two = outcome_of(between, file_type, second)->Ok_0;
            let after = after_request(between, file_type, second);
            &&& one.id != two.id
            &&& after.entries.contains_key(one.id) && after.entries[one.id] == one
            &&& after.entries.contains_key(two.id) && after.entries[two.id] == two
        }),
{
}

} // verus!
