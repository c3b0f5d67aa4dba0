//! The API handlers over the post table: create, fetch, list, edit and
//! delete. Mutating handlers are gated on a bearer token; create and edit
//! validate their text fields; every failure becomes one `AppError`.

use vstd::prelude::*;
use crate::auth::authorize;
use crate::auth::bearer_match;
use crate::auth::header_view;
use crate::error::AppError;
use crate::paginator::offset_spec;
use crate::paginator::Paginator;
use crate::store::edited;
use crate::store::find_post;
use crate::store::has_post;
use crate::store::listing;
use crate::store::remove_post;
use crate::store::update_post;
use crate::store::Post;
use crate::store::Store;
use crate::text::blank;
use crate::text::is_blank;

verus! {

/// Creates a post. Without a valid bearer token the request is rejected
/// unchanged, whatever the payload holds. A title or body that is blank
/// after trimming is rejected and no row is inserted. Otherwise the row
/// is inserted with equal creation and modification stamps and its
/// generated positive id is returned; rows bearing any other id are
/// untouched.
pub fn create_post(
    store: &mut Store,
    header: Option<&str>,
    token: &str,
    title: String,
    body: String,
) -> (r: Result<i32, AppError>)
    requires
        old(store).wf(),
        old(store).next_id < i32::MAX,
        old(store).clock < i64::MAX,
    ensures
        final(store).wf(),
        !bearer_match(header_view(header), token@) ==> r == Err::<i32, AppError>(AppError::Auth)
            && *final(store) == *old(store),
        bearer_match(header_view(header), token@) && (is_blank(title@) || is_blank(body@)) ==> r
            == Err::<i32, AppError>(AppError::Validation) && *final(store) == *old(store),
        bearer_match(header_view(header), token@) && !is_blank(title@) && !is_blank(body@) ==> ({
            let id = old(store).next_id;
            &&& r == Ok::<i32, AppError>(id)
            &&& id > 0
            &&& final(store).posts@ == old(store).posts@.push(
                (Post {
                    id: id,
                    title: title,
                    body: body,
                    created_at: (old(store).clock + 1) as i64,
                    modified_at: (old(store).clock + 1) as i64,
                }),
            )
            &&& find_post(final(store).posts@, id) == Some(
                (Post {
                    id: id,
                    title: title,
                    body: body,
                    created_at: (old(store).clock + 1) as i64,
                    modified_at: (old(store).clock + 1) as i64,
                }),
            )
            &&& forall|other: i32|
                other != id ==> find_post(final(store).posts@, other) == find_post(
                    old(store).posts@,
                    other,
                )
            &&& final(store).next_id == old(store).next_id + 1
            &&& final(store).clock == old(store).clock + 1
        }),
{
    if !authorize(header, token) {
        return Err(AppError::Auth);
    }
    if blank(title.as_str()) || blank(body.as_str()) {
        return Err(AppError::Validation);
    }
    let id = store.create(title, body);
    Ok(id)
}

/// Fetches the post bearing `id`, or fails with `NotFound` when no row
/// matches. No token is required.
pub fn get_post(store: &Store, id: i32) -> (r: Result<Post, AppError>)
    requires
        store.wf(),
    ensures
        find_post(store.posts@, id) matches Some(p) ==> r == Ok::<Post, AppError>(p),
        find_post(store.posts@, id) is None ==> r == Err::<Post, AppError>(AppError::NotFound),
{
    store.get(id)
}

/// Lists posts for one page, newest first, using the paginator's derived
/// limit and offset. No token is required. A negative page size makes a
/// statement the storage backend refuses; that failure surfaces as a
/// `Storage` error like any other handler failure.
pub fn list_posts(store: &Store, paginator: Paginator) -> (r: Result<Vec<Post>, AppError>)
    requires
        store.wf(),
        i32::MIN <= offset_spec(paginator.page as int, paginator.page_size as int) <= i32::MAX,
    ensures
        r is Err <==> paginator.page_size < 0 || offset_spec(
            paginator.page as int,
            paginator.page_size as int,
        ) < 0,
        r is Err ==> r->Err_0 is Storage,
        r matches Ok(v) ==> v@ == listing(
            store.posts@,
            paginator.page_size as int,
            offset_spec(paginator.page as int, paginator.page_size as int),
        ),
{
    let offset = paginator.offset();
    store.list(paginator.page_size, offset)
}

/// Edits the post bearing `id`. Without a valid bearer token the request
/// is rejected unchanged, whatever the payload holds. A blank title or
/// body is rejected with no row changed. Otherwise returns whether any
/// row matched: on a match the row carries the new title and body and a
/// strictly later modification stamp, its creation stamp kept; on none,
/// no row changes. Rows bearing any other id are untouched either way.
pub fn edit_post(
    store: &mut Store,
    header: Option<&str>,
    token: &str,
    id: i32,
    title: String,
    body: String,
) -> (r: Result<bool, AppError>)
    requires
        old(store).wf(),
        old(store).clock < i64::MAX,
    ensures
        final(store).wf(),
        !bearer_match(header_view(header), token@) ==> r == Err::<bool, AppError>(AppError::Auth)
            && *final(store) == *old(store),
        bearer_match(header_view(header), token@) && (is_blank(title@) || is_blank(body@)) ==> r
            == Err::<bool, AppError>(AppError::Validation) && *final(store) == *old(store),
        bearer_match(header_view(header), token@) && !is_blank(title@) && !is_blank(body@) ==> ({
            let now = (old(store).clock + 1) as i64;
            &&& r == Ok::<bool, AppError>(has_post(old(store).posts@, id))
            &&& final(store).posts@ == update_post(old(store).posts@, id, title, body, now)
            &&& !has_post(old(store).posts@, id) ==> final(store).posts@ == old(store).posts@
            &&& has_post(old(store).posts@, id) ==> ({
                let pre = find_post(old(store).posts@, id)->Some_0;
                &&& find_post(final(store).posts@, id) == Some(edited(pre, title, body, now))
                &&& now > pre.modified_at
                &&& edited(pre, title, body, now).created_at == pre.created_at
            })
            &&& forall|other: i32|
                other != id ==> find_post(final(store).posts@, other) == find_post(
                    old(store).posts@,
                    other,
                )
            &&& final(store).next_id == old(store).next_id
        }),
{
    if !authorize(header, token) {
        return Err(AppError::Auth);
    }
    if blank(title.as_str()) || blank(body.as_str()) {
        return Err(AppError::Validation);
    }
    let status = store.update(id, title, body);
    Ok(status)
}

/// Deletes the post bearing `id`. Without a valid bearer token the
/// request is rejected unchanged. Otherwise returns whether any row
/// matched; a fetch of `id` afterwards fails with `NotFound`, and rows
/// bearing any other id are untouched.
pub fn delete_post(store: &mut Store, header: Option<&str>, token: &str, id: i32) -> (r: Result<
    bool,
    AppError,
>)
    requires
        old(store).wf(),
    ensures
        final(store).wf(),
        !bearer_match(header_view(header), token@) ==> r == Err::<bool, AppError>(AppError::Auth)
            && *final(store) == *old(store),
        bearer_match(header_view(header), token@) ==> ({
            &&& r == Ok::<bool, AppError>(has_post(old(store).posts@, id))
            &&& final(store).posts@ == remove_post(old(store).posts@, id)
            &&& !has_post(old(store).posts@, id) ==> final(store).posts@ == old(store).posts@
            &&& find_post(final(store).posts@, id) is None
            &&& forall|other: i32|
                other != id ==> find_post(final(store).posts@, other) == find_post(
                    old(store).posts@,
                    other,
                )
            &&& final(store).next_id == old(store).next_id
            &&& final(store).clock == old(store).clock
        }),
{
    if !authorize(header, token) {
        return Err(AppError::Auth);
    }
    let status = store.delete(id);
    Ok(status)
}

} // verus!
