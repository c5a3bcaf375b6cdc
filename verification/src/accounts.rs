use vstd::prelude::*;
use crate::errors::LinkError;
use crate::hashing::hash_password;
use crate::hashing::password_hash_of;
use crate::store::Store;

verus! {

// Registration and login. A record starts with three fields: its own id,
// the username, and the password hash; linking adds the per-provider
// fields later. The username index is checked before the record is
// written — a best-effort uniqueness check, not a transactional one.

/// A registration request: the desired username and the password in the
/// clear; only its hash is ever stored.
pub struct RegisterUserModel {
    pub username: String,
    pub password: String,
}

/// A login request.
pub struct LoginUserModel {
    pub username: String,
    pub password: String,
}

/// The fields of a freshly registered record.
pub open spec fn new_user_record(
    id: Seq<char>,
    username: Seq<char>,
    password_hash: Seq<char>,
) -> Map<Seq<char>, Seq<char>> {
    Map::<Seq<char>, Seq<char>>::empty().insert("id"@, id).insert("username"@, username).insert(
        "password_hash"@,
        password_hash,
    )
}

/// Relies on uuid's Uuid::new_v4 and its hyphenated text form: a random
/// id of 36 characters; nothing is assumed about which one comes back.
#[verifier::external_body]
fn new_user_id() -> (r: String)
    ensures
        r@.len() == 36,
{
    uuid::Uuid::new_v4().to_string()
}

/// Register a user under a caller-chosen id: refused when the username is
/// already indexed or the id is already a record, with nothing written;
/// otherwise the record is created with exactly its three fields and the
/// username is indexed to the id.
pub fn register_user_with_id(store: &mut Store, id: String, user: &RegisterUserModel) -> (r:
    Result<String, LinkError>)
    requires
        old(store).wf(),
    ensures
        final(store).wf(),
        r is Ok <==> !old(store).usernames_view().dom().contains(user.username@)
            && !old(store).has_user(id@),
        r is Err ==> r == Err::<String, LinkError>(LinkError::AlreadyExists)
            && final(store).users_view() == old(store).users_view()
            && final(store).usernames_view() == old(store).usernames_view(),
        r matches Ok(returned) ==> (returned@ == id@
            && final(store).users_view() == old(store).users_view().insert(
            id@,
            new_user_record(id@, user.username@, password_hash_of(user.password@)),
        ) && final(store).usernames_view() == old(store).usernames_view().insert(
            user.username@,
            id@,
        )),
{
    if store.username_taken(&user.username) {
        return Err(LinkError::AlreadyExists);
    }
    if store.user_exists(&id) {
        return Err(LinkError::AlreadyExists);
    }
    let ghost uv0 = store.users_view();
    let hash = hash_password(&user.password);
    store.set_field(&id, "id".to_owned(), id.clone());
    store.set_field(&id, "username".to_owned(), user.username.clone());
    store.set_field(&id, "password_hash".to_owned(), hash);
    store.set_username(user.username.clone(), id.clone());
    proof {
        assert(store.users_view() =~= uv0.insert(
            id@,
            new_user_record(id@, user.username@, password_hash_of(user.password@)),
        ));
    }
    Ok(id)
}

/// Register a user under a freshly generated id. The draw of the id is
/// the only chance left open: with the username free, the request fails
/// only if the drawn id already names a record, and where no stored id
/// even has the drawn id's length, success is owed.
pub fn register_user(store: &mut Store, user: &RegisterUserModel) -> (r: Result<String, LinkError>)
    requires
        old(store).wf(),
    ensures
        final(store).wf(),
        old(store).usernames_view().dom().contains(user.username@) ==> r == Err::<
            String,
            LinkError,
        >(LinkError::AlreadyExists),
        !old(store).usernames_view().dom().contains(user.username@) && (forall|i: Seq<char>|
            #[trigger] old(store).has_user(i) ==> i.len() != 36) ==> r is Ok,
        r is Err ==> r == Err::<String, LinkError>(LinkError::AlreadyExists)
            && final(store).users_view() == old(store).users_view()
            && final(store).usernames_view() == old(store).usernames_view(),
        r matches Ok(id) ==> (id@.len() == 36 && !old(store).has_user(id@)
            && final(store).users_view() == old(store).users_view().insert(
            id@,
            new_user_record(id@, user.username@, password_hash_of(user.password@)),
        ) && final(store).usernames_view() == old(store).usernames_view().insert(
            user.username@,
            id@,
        )),
{
    let id = new_user_id();
    register_user_with_id(store, id, user)
}

/// Log a user in: resolve the username to an id, and compare the stored
/// password hash with the hash of the offered password. Answers the id on
/// a match; an unknown username, a dangling index entry and a wrong
/// password each answer their own error. Nothing is written.
pub fn user_login(store: &Store, user: &LoginUserModel) -> (r: Result<String, LinkError>)
    requires
        store.wf(),
    ensures
        !store.usernames_view().dom().contains(user.username@) ==> r == Err::<String, LinkError>(
            LinkError::NotFound,
        ),
        store.usernames_view().dom().contains(user.username@) ==> ({
            let id = store.usernames_view()[user.username@];
            if !store.has_user(id) || !store.record_view(id).dom().contains("password_hash"@) {
                r matches Err(e) && e matches LinkError::FieldMissing(f) && f@ == "password_hash"@
            } else if store.record_view(id)["password_hash"@] == password_hash_of(user.password@) {
                r matches Ok(returned) && returned@ == id
            } else {
                r == Err::<String, LinkError>(LinkError::IncorrectPassword)
            }
        }),
{
    let id = match store.lookup_username(&user.username) {
        Some(found) => found.clone(),
        None => {
            return Err(LinkError::NotFound);
        }
    };
    let field = "password_hash".to_owned();
    let stored = match store.get_field(&id, &field) {
        Some(v) => v,
        None => {
            return Err(LinkError::FieldMissing(field));
        }
    };
    let offered = hash_password(&user.password);
    if stored.eq(&offered) {
        Ok(id)
    } else {
        Err(LinkError::IncorrectPassword)
    }
}

} // verus!
