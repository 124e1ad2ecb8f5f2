//! What the service guarantees, proved of the pipelines as they run against
//! the model of their surroundings.

use vstd::prelude::*;
use crate::config::ConfigView;
use crate::error::ApiError;
use crate::handlers::files::{clamped_limit, file_content, FileContentView};
use crate::handlers::upload::{
    upload_objection, upload_response, upload_step, AppStateView, Fresh, UploadActionView,
    UploadEventView, UploadStateView,
};
use crate::models::file::summaries;
use crate::models::{FileView, UploadResponseView};
use crate::storage::local::path_under;
use crate::storage::naming::{
    extension_of, lemma_unique_name_injective, stem_of, unique_name_for,
};
use crate::storage::s3::{key_of_locator, object_key};
use crate::storage::StorageView;
use crate::text::{lemma_single_entry_list, lemma_wildcard_list};
use crate::trusted::{is_whitespace, mime_type_of};
use crate::world::{
    delete_run, get_run, list_query, serve_delete, serve_get, serve_list, serve_upload,
    upload_reaction, upload_run, Outcome, Part, Slot, UploadScene, World,
};

verus! {

/// The field at position `k` of a body is its file field: it is named `file`,
/// and no field before it is.
pub open spec fn file_field_at(parts: Seq<Part>, k: int) -> bool {
    &&& 0 <= k < parts.len()
    &&& parts[k].name == Some("file"@)
    &&& forall|j: int| 0 <= j < k ==> (#[trigger] parts[j]).name != Some("file"@)
}

/// The record that an upload of `data` under the name `filename` creates.
pub open spec fn uploaded_record(
    app: AppStateView,
    filename: Seq<char>,
    data: Seq<u8>,
    fresh: Fresh,
) -> FileView {
    FileView::created(
        fresh.id,
        app.storage.store_plan(filename, data, fresh.token).locator,
        filename,
        (data.len() as u64) as i64,
        app.storage.tag(),
        fresh.now,
    )
}

/// What the upload of a file field comes to, and the world it leaves. A
/// field without a file name, or one that an objection stands against, is
/// turned away and leaves the world as it was. So is one whose place in the
/// backend is taken. With the content stored, the record is inserted; where
/// its identifier is taken, the content stays behind without a record.
pub open spec fn upload_of_field(app: AppStateView, world: World, field: Part, fresh: Fresh) -> (
    World,
    Outcome<UploadResponseView>,
) {
    match field.file_name {
        None => (world, Outcome::Rejected(ApiError::NoFilename)),
        Some(filename) => match upload_objection(
            app.config,
            filename,
            field.data.len() as u64,
        ) {
            Some(error) => (world, Outcome::Rejected(error)),
            None => {
                let plan = app.storage.store_plan(filename, field.data, fresh.token);
                let (stored, written) = world.store(plan.request);
                if !written {
                    (world, Outcome::Rejected(ApiError::UploadFailed))
                } else {
                    let record = uploaded_record(app, filename, field.data, fresh);
                    let (table, row) = stored.table.create_file(record);
                    match row {
                        Some(row) => (
                            World { table, ..stored },
                            Outcome::Responded(upload_response(row)),
                        ),
                        None => (stored, Outcome::Rejected(ApiError::MetadataNotSaved)),
                    }
                }
            },
        },
    }
}

/// The upload as it stands when the field at position `i` has been yielded.
spec fn run_from_field(
    app: AppStateView,
    world: World,
    parts: Seq<Part>,
    i: int,
    fresh: Fresh,
    fuel: nat,
) -> (World, Outcome<UploadResponseView>) {
    upload_run(
        app,
        UploadScene { world, parts: parts.skip(i + 1), current: parts[i].data },
        UploadStateView::ReceivingMultipart,
        UploadEventView::Field { name: parts[i].name, file_name: parts[i].file_name },
        fresh,
        fuel,
    )
}

/// Fields before the file field are passed over.
proof fn lemma_fields_passed_over(
    app: AppStateView,
    world: World,
    parts: Seq<Part>,
    k: int,
    i: int,
    fresh: Fresh,
    fuel: nat,
)
    requires
        file_field_at(parts, k),
        0 <= i <= k,
        fuel >= k - i,
    ensures
        run_from_field(app, world, parts, i, fresh, fuel) == run_from_field(
            app,
            world,
            parts,
            k,
            fresh,
            (fuel - (k - i)) as nat,
        ),
    decreases k - i,
{
    if i < k {
        let scene = UploadScene { world, parts: parts.skip(i + 1), current: parts[i].data };
        assert(parts[i].name != Some("file"@));
        assert(scene.parts.len() > 0);
        assert(scene.parts.first() == parts[i + 1]);
        assert(scene.parts.drop_first() == parts.skip(i + 2));
        lemma_fields_passed_over(app, world, parts, k, i + 1, fresh, (fuel - 1) as nat);
    }
}

/// A body that has no file field from position `i` on is read to its end.
proof fn lemma_fields_run_out(
    app: AppStateView,
    world: World,
    parts: Seq<Part>,
    i: int,
    fresh: Fresh,
    fuel: nat,
)
    requires
        0 <= i < parts.len(),
        forall|j: int| i <= j < parts.len() ==> (#[trigger] parts[j]).name != Some("file"@),
        fuel >= parts.len() - i,
    ensures
        run_from_field(app, world, parts, i, fresh, fuel) == (
            world,
            Outcome::<UploadResponseView>::Rejected(ApiError::NoFile),
        ),
    decreases parts.len() - i,
{
    let scene = UploadScene { world, parts: parts.skip(i + 1), current: parts[i].data };
    assert(parts[i].name != Some("file"@));
    reveal_with_fuel(upload_run, 2);
    if i + 1 < parts.len() {
        assert(scene.parts.len() > 0);
        assert(scene.parts.first() == parts[i + 1]);
        assert(scene.parts.drop_first() == parts.skip(i + 2));
        lemma_fields_run_out(app, world, parts, i + 1, fresh, (fuel - 1) as nat);
    } else {
        assert(scene.parts.len() == 0);
    }
}

/// An upload begins by asking for the first field.
proof fn lemma_upload_begins(app: AppStateView, world: World, parts: Seq<Part>, fresh: Fresh)
    requires
        parts.len() > 0,
    ensures
        serve_upload(app, world, parts, fresh) == run_from_field(
            app,
            world,
            parts,
            0,
            fresh,
            (parts.len() + 3) as nat,
        ),
{
    let scene = UploadScene { world, parts, current: Seq::<u8>::empty() };
    assert(parts.drop_first() == parts.skip(1));
    assert(parts.first() == parts[0]);
    let (after, event) = upload_reaction(scene, UploadActionView::NextField);
    assert(after == UploadScene { world, parts: parts.skip(1), current: parts[0].data });
}

/// A body has a file field, or none of its fields is named `file`.
pub proof fn lemma_file_field_or_none(parts: Seq<Part>, n: int)
    requires
        0 <= n <= parts.len(),
    ensures
        (exists|k: int| 0 <= k < n && #[trigger] file_field_at(parts, k)) || (forall|j: int|
            0 <= j < n ==> (#[trigger] parts[j]).name != Some("file"@)),
    decreases n,
{
    if n > 0 {
        lemma_file_field_or_none(parts, n - 1);
        if forall|j: int| 0 <= j < n - 1 ==> (#[trigger] parts[j]).name != Some("file"@) {
            if parts[n - 1].name == Some("file"@) {
                assert(file_field_at(parts, n - 1));
            }
        } else {
            let k = choose|k: int| 0 <= k < n - 1 && #[trigger] file_field_at(parts, k);
            assert(0 <= k < n && file_field_at(parts, k));
        }
    }
}

/// What an upload comes to is what the upload of its file field comes to.
pub proof fn theorem_upload_outcome(
    app: AppStateView,
    world: World,
    parts: Seq<Part>,
    k: int,
    fresh: Fresh,
)
    requires
        file_field_at(parts, k),
    ensures
        serve_upload(app, world, parts, fresh) == upload_of_field(app, world, parts[k], fresh),
{
    lemma_upload_begins(app, world, parts, fresh);
    lemma_fields_passed_over(app, world, parts, k, 0, fresh, (parts.len() + 3) as nat);
    reveal_with_fuel(upload_run, 5);
}

/// An upload without a file field is turned away for want of a file, and
/// leaves the world as it was.
pub proof fn theorem_upload_without_file(
    app: AppStateView,
    world: World,
    parts: Seq<Part>,
    fresh: Fresh,
)
    requires
        forall|j: int| 0 <= j < parts.len() ==> (#[trigger] parts[j]).name != Some("file"@),
    ensures
        serve_upload(app, world, parts, fresh) == (
            world,
            Outcome::<UploadResponseView>::Rejected(ApiError::NoFile),
        ),
{
    if parts.len() > 0 {
        lemma_upload_begins(app, world, parts, fresh);
        lemma_fields_run_out(app, world, parts, 0, fresh, (parts.len() + 3) as nat);
    } else {
        reveal_with_fuel(upload_run, 2);
    }
}

/// An upload never overwrites. Whatever the body and whatever is drawn on
/// the way, content that the backend held before the upload is there after
/// it, unchanged, and so is every record.
pub proof fn theorem_upload_never_overwrites(
    app: AppStateView,
    world: World,
    parts: Seq<Part>,
    fresh: Fresh,
)
    ensures
        ({
            let after = serve_upload(app, world, parts, fresh).0;
            &&& forall|slot: Slot| #[trigger]
                world.objects.dom().contains(slot) ==> after.objects.dom().contains(slot)
                    && after.objects[slot] == world.objects[slot]
            &&& forall|id: Seq<char>| #[trigger]
                world.table.rows.dom().contains(id) ==> after.table.rows.dom().contains(id)
                    && after.table.rows[id] == world.table.rows[id]
        }),
{
    lemma_file_field_or_none(parts, parts.len() as int);
    if exists|k: int| 0 <= k < parts.len() && #[trigger] file_field_at(parts, k) {
        let k = choose|k: int| 0 <= k < parts.len() && #[trigger] file_field_at(parts, k);
        theorem_upload_outcome(app, world, parts, k, fresh);
    } else {
        theorem_upload_without_file(app, world, parts, fresh);
    }
}

/// An upload goes through when nothing stands against it: its file field
/// has a file name and passes the checks, the place that its token names is
/// free, and its identifier is not taken. It then stores the content,
/// inserts the record and answers with it.
pub proof fn theorem_upload_goes_through(
    app: AppStateView,
    world: World,
    parts: Seq<Part>,
    k: int,
    fresh: Fresh,
)
    requires
        file_field_at(parts, k),
        parts[k].file_name is Some,
        upload_objection(app.config, parts[k].file_name->0, parts[k].data.len() as u64) is None,
        !world.objects.dom().contains(
            app.storage.store_plan(parts[k].file_name->0, parts[k].data, fresh.token).request.slot(),
        ),
        !world.table.rows.dom().contains(fresh.id),
    ensures
        serve_upload(app, world, parts, fresh).1 == Outcome::Responded(
            upload_response(uploaded_record(app, parts[k].file_name->0, parts[k].data, fresh)),
        ),
{
    theorem_upload_outcome(app, world, parts, k, fresh);
}

/// The locator of a write leads back to the place that the write filled:
/// a read and a removal of it address that place.
pub proof fn lemma_locator_leads_back(
    storage: StorageView,
    filename: Seq<char>,
    data: Seq<u8>,
    token: Seq<char>,
)
    ensures
        storage.fetch_request(storage.store_plan(filename, data, token).locator).slot()
            == storage.store_plan(filename, data, token).request.slot(),
        storage.delete_request(storage.store_plan(filename, data, token).locator).slot()
            == storage.store_plan(filename, data, token).request.slot(),
{
    match storage {
        StorageView::Local { .. } => {},
        StorageView::S3(_) => {
            let key = object_key(filename, token);
            reveal_strlit("uploads/");
            assert(key[0] == 'u');
            assert(key_of_locator(key) == key);
        },
    }
}

/// Writes of one file name under different tokens go to different places,
/// under different locators.
pub proof fn lemma_tokens_part_places(
    storage: StorageView,
    filename: Seq<char>,
    data_a: Seq<u8>,
    token_a: Seq<char>,
    data_b: Seq<u8>,
    token_b: Seq<char>,
)
    requires
        token_a != token_b,
    ensures
        storage.store_plan(filename, data_a, token_a).locator != storage.store_plan(
            filename,
            data_b,
            token_b,
        ).locator,
        storage.store_plan(filename, data_a, token_a).request.slot() != storage.store_plan(
            filename,
            data_b,
            token_b,
        ).request.slot(),
{
    let name_a = unique_name_for(filename, token_a);
    let name_b = unique_name_for(filename, token_b);
    assert(name_a != name_b) by {
        if name_a == name_b {
            lemma_unique_name_injective(
                stem_of(filename),
                extension_of(filename),
                token_a,
                token_b,
            );
        }
    }
    match storage {
        StorageView::Local { root } => {
            let head: Seq<char> = if root.len() == 0 || root.last() == '/' {
                root
            } else {
                root + "/"@
            };
            assert(path_under(root, name_a) == head + name_a);
            assert(path_under(root, name_b) == head + name_b);
            if head + name_a == head + name_b {
                assert(name_a == (head + name_a).skip(head.len() as int));
                assert(name_b == (head + name_b).skip(head.len() as int));
            }
        },
        StorageView::S3(_) => {
            let head = "uploads/"@;
            if head + name_a == head + name_b {
                assert(name_a == (head + name_a).skip(head.len() as int));
                assert(name_b == (head + name_b).skip(head.len() as int));
            }
        },
    }
}

/// A public record whose content is in place is served with that content.
pub proof fn lemma_content_served(
    app: AppStateView,
    world: World,
    id: Seq<char>,
    record: FileView,
    data: Seq<u8>,
)
    requires
        world.table.get_file_by_id(id) == Some(record),
        !record.is_private,
        world.fetch(app.storage.fetch_request(record.path)) == Some(data),
    ensures
        serve_get(app, world, id) == Outcome::Responded(file_content(record, data)),
{
    reveal_with_fuel(get_run, 3);
}

/// What was uploaded is what a retrieval returns. After every upload that
/// is answered with success, the record of the answer is under its
/// identifier, public, and a retrieval by that identifier answers with the
/// content exactly as it was submitted.
pub proof fn theorem_upload_then_get(
    app: AppStateView,
    world: World,
    parts: Seq<Part>,
    k: int,
    fresh: Fresh,
)
    requires
        file_field_at(parts, k),
        serve_upload(app, world, parts, fresh).1 is Responded,
    ensures
        ({
            let (after, outcome) = serve_upload(app, world, parts, fresh);
            &&& outcome matches Outcome::Responded(response)
            &&& response.data.id == fresh.id
            &&& Some(response.data.name) == parts[k].file_name
            &&& !response.data.is_private
            &&& response.file_path == "/files/uploads/"@ + response.data.id
            &&& after.table.holds(response.data)
            &&& serve_get(app, after, response.data.id) matches Outcome::Responded(content)
            &&& content.body == parts[k].data
        }),
{
    theorem_upload_outcome(app, world, parts, k, fresh);
    let filename = parts[k].file_name->0;
    let data = parts[k].data;
    lemma_locator_leads_back(app.storage, filename, data, fresh.token);
    let after = serve_upload(app, world, parts, fresh).0;
    let record = uploaded_record(app, filename, data, fresh);
    lemma_content_served(app, after, fresh.id, record, data);
}

/// An upload larger than the configured maximum is turned away as too
/// large, with status 413, and leaves no record and no content behind: the
/// world is as it was. The size is checked before the backend is asked.
pub proof fn theorem_oversized_upload_rejected(
    app: AppStateView,
    world: World,
    parts: Seq<Part>,
    k: int,
    fresh: Fresh,
)
    requires
        file_field_at(parts, k),
        parts[k].file_name is Some,
        parts[k].data.len() <= u64::MAX,
        parts[k].data.len() > app.config.max_file_size,
    ensures
        serve_upload(app, world, parts, fresh) == (
            world,
            Outcome::<UploadResponseView>::Rejected(ApiError::FileTooLarge),
        ),
        ApiError::FileTooLarge.status_code() == 413,
{
    theorem_upload_outcome(app, world, parts, k, fresh);
}

/// Two uploads do not collide, whether under the same file name or under
/// different ones. Where both are answered with success, both records exist
/// afterwards, under different identifiers and with different locators, and
/// each retrieval returns the content of its own upload: the second write
/// has not touched what the first one stored.
pub proof fn theorem_uploads_apart(
    app: AppStateView,
    world: World,
    parts_a: Seq<Part>,
    k_a: int,
    fresh_a: Fresh,
    parts_b: Seq<Part>,
    k_b: int,
    fresh_b: Fresh,
)
    requires
        file_field_at(parts_a, k_a),
        file_field_at(parts_b, k_b),
        serve_upload(app, world, parts_a, fresh_a).1 is Responded,
        serve_upload(
            app,
            serve_upload(app, world, parts_a, fresh_a).0,
            parts_b,
            fresh_b,
        ).1 is Responded,
    ensures
        ({
            let (between, first) = serve_upload(app, world, parts_a, fresh_a);
            let (after, second) = serve_upload(app, between, parts_b, fresh_b);
            &&& first matches Outcome::Responded(response_a)
            &&& second matches Outcome::Responded(response_b)
            &&& response_a.data.id != response_b.data.id
            &&& response_a.data.path != response_b.data.path
            &&& after.table.holds(response_a.data)
            &&& after.table.holds(response_b.data)
            &&& serve_get(app, after, response_a.data.id) matches Outcome::Responded(content_a)
            &&& content_a.body == parts_a[k_a].data
            &&& serve_get(app, after, response_b.data.id) matches Outcome::Responded(content_b)
            &&& content_b.body == parts_b[k_b].data
        }),
{
    let name_a = parts_a[k_a].file_name->0;
    let name_b = parts_b[k_b].file_name->0;
    let data_a = parts_a[k_a].data;
    let data_b = parts_b[k_b].data;
    theorem_upload_outcome(app, world, parts_a, k_a, fresh_a);
    let between = serve_upload(app, world, parts_a, fresh_a).0;
    theorem_upload_outcome(app, between, parts_b, k_b, fresh_b);
    let after = serve_upload(app, between, parts_b, fresh_b).0;
    let record_a = uploaded_record(app, name_a, data_a, fresh_a);
    let record_b = uploaded_record(app, name_b, data_b, fresh_b);
    lemma_locator_leads_back(app.storage, name_a, data_a, fresh_a.token);
    lemma_locator_leads_back(app.storage, name_b, data_b, fresh_b.token);
    lemma_content_served(app, after, fresh_a.id, record_a, data_a);
    lemma_content_served(app, after, fresh_b.id, record_b, data_b);
}

/// Uploads of one file name under different tokens, with different
/// identifiers, both go through on a world that has room for them, and end
/// at different locators.
pub proof fn theorem_same_name_uploads_apart(
    app: AppStateView,
    world: World,
    parts_a: Seq<Part>,
    k_a: int,
    fresh_a: Fresh,
    parts_b: Seq<Part>,
    k_b: int,
    fresh_b: Fresh,
)
    requires
        file_field_at(parts_a, k_a),
        file_field_at(parts_b, k_b),
        parts_a[k_a].file_name is Some,
        parts_b[k_b].file_name == parts_a[k_a].file_name,
        upload_objection(
            app.config,
            parts_a[k_a].file_name->0,
            parts_a[k_a].data.len() as u64,
        ) is None,
        upload_objection(
            app.config,
            parts_b[k_b].file_name->0,
            parts_b[k_b].data.len() as u64,
        ) is None,
        fresh_a.token != fresh_b.token,
        fresh_a.id != fresh_b.id,
        !world.table.rows.dom().contains(fresh_a.id),
        !world.table.rows.dom().contains(fresh_b.id),
        !world.objects.dom().contains(
            app.storage.store_plan(
                parts_a[k_a].file_name->0,
                parts_a[k_a].data,
                fresh_a.token,
            ).request.slot(),
        ),
        !world.objects.dom().contains(
            app.storage.store_plan(
                parts_b[k_b].file_name->0,
                parts_b[k_b].data,
                fresh_b.token,
            ).request.slot(),
        ),
    ensures
        serve_upload(app, world, parts_a, fresh_a).1 is Responded,
        serve_upload(
            app,
            serve_upload(app, world, parts_a, fresh_a).0,
            parts_b,
            fresh_b,
        ).1 is Responded,
{
    let filename = parts_a[k_a].file_name->0;
    theorem_upload_outcome(app, world, parts_a, k_a, fresh_a);
    let between = serve_upload(app, world, parts_a, fresh_a).0;
    lemma_tokens_part_places(
        app.storage,
        filename,
        parts_a[k_a].data,
        fresh_a.token,
        parts_b[k_b].data,
        fresh_b.token,
    );
    theorem_upload_outcome(app, between, parts_b, k_b, fresh_b);
}

/// A listing shows what the store answers, newest first, and is never
/// longer than 500 entries. It asks the store for ten records where the
/// client names no limit, for 500 where it names that or more, for none where
/// it names less than none, and for what the client names otherwise; and it
/// is no longer than what it asks for.
pub proof fn theorem_listing_bounded_and_ordered(
    world: World,
    limit: Option<i64>,
    listed: Seq<FileView>,
)
    requires
        list_query(limit) matches Some(asked) && world.table.get_files(asked, listed),
    ensures
        list_query(limit) == Some(clamped_limit(limit)),
        0 <= clamped_limit(limit) <= 500,
        limit is None ==> clamped_limit(limit) == 10,
        limit matches Some(wanted) ==> clamped_limit(limit) == if wanted < 0 {
            0
        } else if wanted >= 500 {
            500
        } else {
            wanted
        },
        serve_list(limit, listed) matches Outcome::Responded(entries) && {
            &&& entries == summaries(listed)
            &&& entries.len() == listed.len()
            &&& entries.len() <= clamped_limit(limit)
            &&& entries.len() <= 500
            &&& limit is None ==> entries.len() <= 10
            &&& forall|i: int, j: int|
                0 <= i < j < entries.len() ==> (#[trigger] entries[i]).created_at.is_at_or_after(
                    (#[trigger] entries[j]).created_at,
                )
            &&& forall|i: int|
                0 <= i < entries.len() ==> world.table.rows.dom().contains(
                    (#[trigger] entries[i]).id,
                ) && !world.table.rows[entries[i].id].is_private
                    && entries[i] == world.table.rows[entries[i].id].summary()
        },
{
    let entries = summaries(listed);
    assert forall|i: int, j: int| 0 <= i < j < entries.len() implies (
    #[trigger] entries[i]).created_at.is_at_or_after((#[trigger] entries[j]).created_at) by {
        assert(listed[i].created_at.is_at_or_after(listed[j].created_at));
    }
    assert forall|i: int| 0 <= i < entries.len() implies world.table.rows.dom().contains(
        (#[trigger] entries[i]).id,
    ) && !world.table.rows[entries[i].id].is_private && entries[i]
        == world.table.rows[entries[i].id].summary() by {
        assert(world.table.holds(listed[i]));
    }
}

/// Deleting a file twice: the first deletion of a public record whose
/// content is in place succeeds and removes both the content and the record;
/// the second reports that nothing was found, with status 404, and changes
/// nothing.
pub proof fn theorem_delete_twice(
    app: AppStateView,
    world: World,
    id: Seq<char>,
    record: FileView,
)
    requires
        world.table.get_file_by_id(id) == Some(record),
        !record.is_private,
        app.storage.delete_request(record.path).needs_content() ==> world.objects.dom().contains(
            app.storage.delete_request(record.path).slot(),
        ),
    ensures
        ({
            let (after, first) = serve_delete(app, world, id);
            &&& first == Outcome::Responded("File deleted successfully"@)
            &&& !after.table.rows.dom().contains(id)
            &&& !after.objects.dom().contains(app.storage.delete_request(record.path).slot())
            &&& serve_delete(app, after, id) == (
                after,
                Outcome::<Seq<char>>::Rejected(ApiError::NotFound),
            )
        }),
        ApiError::NotFound.status_code() == 404,
{
    reveal_with_fuel(delete_run, 4);
}

/// A private record is out of reach. A listing never shows it, whatever the
/// limit and whatever the store answers within its contract; a retrieval and
/// a deletion by its identifier report that nothing was found, with status
/// 404, and the deletion changes nothing.
pub proof fn theorem_private_record_unreachable(
    app: AppStateView,
    world: World,
    id: Seq<char>,
    record: FileView,
)
    requires
        world.table.get_file_by_id(id) == Some(record),
        record.is_private,
    ensures
        serve_get(app, world, id) == Outcome::<FileContentView>::Rejected(ApiError::NotFound),
        serve_delete(app, world, id) == (
            world,
            Outcome::<Seq<char>>::Rejected(ApiError::NotFound),
        ),
        ApiError::NotFound.status_code() == 404,
        forall|limit: Option<i64>, listed: Seq<FileView>| #[trigger]
            world.table.get_files(clamped_limit(limit), listed) ==> {
                &&& serve_list(limit, listed) matches Outcome::Responded(entries)
                &&& forall|i: int| 0 <= i < entries.len() ==> (#[trigger] entries[i]).id != id
            },
{
    reveal_with_fuel(get_run, 3);
    reveal_with_fuel(delete_run, 4);
    assert forall|limit: Option<i64>, listed: Seq<FileView>| #[trigger]
        world.table.get_files(clamped_limit(limit), listed) implies {
        &&& serve_list(limit, listed) matches Outcome::Responded(entries)
        &&& forall|i: int| 0 <= i < entries.len() ==> (#[trigger] entries[i]).id != id
    } by {
        let entries = summaries(listed);
        assert forall|i: int| 0 <= i < entries.len() implies (#[trigger] entries[i]).id != id by {
            assert(world.table.holds(listed[i]) && !listed[i].is_private);
        }
    }
}

/// The backend is written to before the metadata store. An upload asks for
/// the insert of a record only on hearing that the write of its content has
/// succeeded, and asks for a write only when the content has passed the
/// checks; when a write fails, the upload ends without a record.
pub proof fn theorem_content_before_record(
    app: AppStateView,
    state: UploadStateView,
    event: UploadEventView,
    fresh: Fresh,
)
    ensures
        upload_step(app, state, event, fresh).1 is Persist ==> state is WritingToBackend
            && event is Stored,
        upload_step(app, state, event, fresh).1 is Store ==> {
            &&& state matches UploadStateView::ReceivingFile { filename }
            &&& event matches UploadEventView::Content { data }
            &&& upload_objection(app.config, filename, data.len() as u64) is None
        },
        state is WritingToBackend && event is StoreFailed ==> upload_step(
            app,
            state,
            event,
            fresh,
        ) == (UploadStateView::Done, UploadActionView::Reject { error: ApiError::UploadFailed }),
{
}

/// Under the wild card every type is admitted. Where the allow-list is not
/// set, or is `*`, an upload is turned away only for its size.
pub proof fn theorem_wildcard_admits_every_type(
    config: ConfigView,
    filename: Seq<char>,
    size: u64,
)
    requires
        config.allowed_file_types is None || config.allowed_file_types == Some("*"@),
    ensures
        config.allowed_file_types().contains("*"@),
        upload_objection(config, filename, size) == if size > config.max_file_size {
            Some(ApiError::FileTooLarge)
        } else {
            None
        },
{
    lemma_wildcard_list();
    assert(seq!["*"@][0] == "*"@);
}

/// Under an allow-list of one media type, an upload within the size limit
/// is admitted if and only if its file name suggests that type; otherwise it
/// is turned away as of a type not allowed, with status 400.
pub proof fn theorem_single_type_admits_only_itself(
    config: ConfigView,
    entry: Seq<char>,
    filename: Seq<char>,
    size: u64,
)
    requires
        config.allowed_file_types == Some(entry),
        entry != "*"@,
        forall|i: int| 0 <= i < entry.len() ==> entry[i] != ',',
        entry.len() > 0 ==> !is_whitespace(entry[0]) && !is_whitespace(entry.last()),
        size <= config.max_file_size,
    ensures
        upload_objection(config, filename, size) == if mime_type_of(filename) == entry {
            None
        } else {
            Some(ApiError::FileTypeNotAllowed)
        },
        ApiError::FileTypeNotAllowed.status_code() == 400,
        ApiError::FileTypeNotAllowed.text() == "File type not allowed"@,
{
    lemma_single_entry_list(entry);
    let allowed = config.allowed_file_types();
    assert(allowed == seq![entry]);
    assert(allowed[0] == entry);
}

} // verus!
