use vstd::prelude::*;

use crate::error::ContractError;
use crate::json::{decode_text_map, encode_text_map, json_of_text_map, text_map_of_json};
use crate::storage::Storage;
use crate::string_map::StringMap;

verus! {

/// Storage key under which the registry of applications is kept, as JSON.
pub const KEY_ALL_APPS: &'static str = "all_apps";

/// Registry name of the access-control application.
pub const KEY_ACL_APP: &'static str = "acl_app";

/// Registry name of the token application.
pub const KEY_TOKEN_APP: &'static str = "token_app";

/// Registry name of the voting application.
pub const KEY_VOTING_APP: &'static str = "voting_app";

/// Registry name of the community application itself.
pub const KEY_COMMUNITY_APP: &'static str = "community_app";

/// The bytes stored under the registry key.
pub open spec fn stored_apps(st: Map<Seq<char>, Seq<u8>>) -> Result<Seq<u8>, ContractError> {
    if st.contains_key(KEY_ALL_APPS@) {
        Ok(st[KEY_ALL_APPS@])
    } else {
        Err(ContractError::MissingApps)
    }
}

/// The registry that the store holds: application names to addresses.
pub open spec fn app_map(st: Map<Seq<char>, Seq<u8>>) -> Result<
    Map<Seq<char>, Seq<char>>,
    ContractError,
> {
    match stored_apps(st) {
        Err(e) => Err(e),
        Ok(bytes) => match text_map_of_json(bytes) {
            Some(m) => Ok(m),
            None => Err(ContractError::MalformedApps),
        },
    }
}

/// The address that the registry of the store gives for `name`.
pub open spec fn app_address(st: Map<Seq<char>, Seq<u8>>, name: Seq<char>) -> Result<
    Seq<char>,
    ContractError,
> {
    match app_map(st) {
        Err(e) => Err(e),
        Ok(m) => if m.contains_key(name) {
            Ok(m[name])
        } else {
            Err(ContractError::AppNotFound)
        },
    }
}

/// The store after the registry map `m` has been written to it.
pub open spec fn with_apps(st: Map<Seq<char>, Seq<u8>>, m: Map<Seq<char>, Seq<char>>) -> Map<
    Seq<char>,
    Seq<u8>,
> {
    st.insert(KEY_ALL_APPS@, json_of_text_map(m))
}

/// The store after `name` has been registered at `address`.
pub open spec fn apps_added(st: Map<Seq<char>, Seq<u8>>, name: Seq<char>, address: Seq<char>) -> Result<
    Map<Seq<char>, Seq<u8>>,
    ContractError,
> {
    match app_map(st) {
        Err(e) => Err(e),
        Ok(m) => Ok(with_apps(st, m.insert(name, address))),
    }
}

/// The store after `name` has been taken out of the registry.
pub open spec fn apps_removed(st: Map<Seq<char>, Seq<u8>>, name: Seq<char>) -> Result<
    Map<Seq<char>, Seq<u8>>,
    ContractError,
> {
    match app_map(st) {
        Err(e) => Err(e),
        Ok(m) => Ok(with_apps(st, m.remove(name))),
    }
}

/// The registry that setting the contract up records.
pub open spec fn initial_apps(acl: Seq<char>, token: Seq<char>, voting: Seq<char>) -> Map<
    Seq<char>,
    Seq<char>,
> {
    Map::empty().insert(KEY_ACL_APP@, acl).insert(KEY_TOKEN_APP@, token).insert(KEY_VOTING_APP@, voting)
}

/// An executable result seen through the view of its success value.
pub open spec fn result_view<T: View, E>(r: Result<T, E>) -> Result<T::V, E> {
    match r {
        Ok(t) => Ok(t@),
        Err(e) => Err(e),
    }
}

/// Writes the registry `map` to the store, as JSON under the registry key.
pub fn store_apps(st: &mut Storage, map: StringMap<String>)
    ensures
        final(st)@ == with_apps(old(st)@, map@),
        app_map(final(st)@) == Ok::<Map<Seq<char>, Seq<char>>, ContractError>(map@),
{
    let bytes = encode_text_map(&map);
    st.set_param(KEY_ALL_APPS, bytes.as_slice());
}

/// The JSON bytes of the registry, as stored; the registry key must be in
/// the store.
pub fn get_apps(st: &Storage) -> (r: Vec<u8>)
    requires
        st@.contains_key(KEY_ALL_APPS@),
    ensures
        stored_apps(st@) == Ok::<Seq<u8>, ContractError>(r@),
{
    st.get_param(KEY_ALL_APPS)
}

/// The JSON bytes of the registry, as stored, or `MissingApps` where the
/// registry key is not in the store.
pub fn try_get_apps(st: &Storage) -> (r: Result<Vec<u8>, ContractError>)
    ensures
        result_view(r) == stored_apps(st@),
{
    if st.has_param(KEY_ALL_APPS) {
        Ok(get_apps(st))
    } else {
        Err(ContractError::MissingApps)
    }
}

/// The registry, read from the store.
fn load_apps(st: &Storage) -> (r: Result<StringMap<String>, ContractError>)
    ensures
        result_view(r) == app_map(st@),
{
    let bytes = try_get_apps(st)?;
    match decode_text_map(bytes.as_slice()) {
        Some(m) => Ok(m),
        None => Err(ContractError::MalformedApps),
    }
}

/// The address registered for `app_name`; the store must hold a well-formed
/// registry that names `app_name`.
pub fn get_app_address(st: &Storage, app_name: String) -> (r: String)
    requires
        app_address(st@, app_name@) is Ok,
    ensures
        app_address(st@, app_name@) == Ok::<Seq<char>, ContractError>(r@),
{
    match load_apps(st) {
        Ok(apps) => match apps.get(&app_name) {
            Some(address) => address.clone(),
            None => {
                proof {
                    assert(false);
                }
                String::new()
            },
        },
        Err(_) => {
            proof {
                assert(false);
            }
            String::new()
        },
    }
}

/// The address registered for `app_name`, or why there is none: the
/// registry is missing, is not a JSON map from text to text, or does not
/// name `app_name`.
pub fn try_get_app_address(st: &Storage, app_name: String) -> (r: Result<String, ContractError>)
    ensures
        result_view(r) == app_address(st@, app_name@),
{
    let apps = load_apps(st)?;
    if apps.contains_key(&app_name) {
        Ok(get_app_address(st, app_name))
    } else {
        Err(ContractError::AppNotFound)
    }
}

/// Registers `app_name` at `app_addr`, replacing an earlier address of that
/// name; the store must hold a well-formed registry.
pub fn add_app(st: &mut Storage, app_name: String, app_addr: String)
    requires
        app_map(old(st)@) is Ok,
    ensures
        app_map(old(st)@) matches Ok(m) && final(st)@ == with_apps(old(st)@, m.insert(app_name@, app_addr@))
            && app_map(final(st)@) == Ok::<Map<Seq<char>, Seq<char>>, ContractError>(
            m.insert(app_name@, app_addr@),
        ),
        app_address(final(st)@, app_name@) == Ok::<Seq<char>, ContractError>(app_addr@),
        forall|n: Seq<char>|
            n != app_name@ ==> #[trigger] app_address(final(st)@, n) == app_address(old(st)@, n),
{
    match load_apps(st) {
        Ok(mut apps) => {
            apps.insert(app_name, app_addr);
            store_apps(st, apps);
        },
        Err(_) => {
            proof {
                assert(false);
            }
        },
    }
}

/// Registers `app_name` at `app_addr`, or says why it cannot: the registry
/// is missing or is not a JSON map from text to text. On an error the store
/// is left as it was.
pub fn try_add_app(st: &mut Storage, app_name: String, app_addr: String) -> (r: Result<
    (),
    ContractError,
>)
    ensures
        match apps_added(old(st)@, app_name@, app_addr@) {
            Ok(s) => r is Ok && final(st)@ == s,
            Err(e) => r == Err::<(), ContractError>(e) && final(st)@ == old(st)@,
        },
        r is Ok ==> (app_map(old(st)@) matches Ok(m) && app_map(final(st)@) == Ok::<
            Map<Seq<char>, Seq<char>>,
            ContractError,
        >(m.insert(app_name@, app_addr@))),
        r is Ok ==> app_address(final(st)@, app_name@) == Ok::<Seq<char>, ContractError>(app_addr@),
        r is Ok ==> forall|n: Seq<char>|
            n != app_name@ ==> #[trigger] app_address(final(st)@, n) == app_address(old(st)@, n),
{
    let _ = load_apps(st)?;
    add_app(st, app_name, app_addr);
    Ok(())
}

/// Takes `app_name` out of the registry; the store must hold a well-formed
/// registry.
pub fn remove_app(st: &mut Storage, app_name: String)
    requires
        app_map(old(st)@) is Ok,
    ensures
        app_map(old(st)@) matches Ok(m) && final(st)@ == with_apps(old(st)@, m.remove(app_name@))
            && app_map(final(st)@) == Ok::<Map<Seq<char>, Seq<char>>, ContractError>(
            m.remove(app_name@),
        ),
        app_address(final(st)@, app_name@) == Err::<Seq<char>, ContractError>(
            ContractError::AppNotFound,
        ),
        forall|n: Seq<char>|
            n != app_name@ ==> #[trigger] app_address(final(st)@, n) == app_address(old(st)@, n),
{
    match load_apps(st) {
        Ok(mut apps) => {
            apps.remove(&app_name);
            store_apps(st, apps);
        },
        Err(_) => {
            proof {
                assert(false);
            }
        },
    }
}

/// Takes `app_name` out of the registry, or says why it cannot: the
/// registry is missing or is not a JSON map from text to text. On an error
/// the store is left as it was.
pub fn try_remove_app(st: &mut Storage, app_name: String) -> (r: Result<(), ContractError>)
    ensures
        match apps_removed(old(st)@, app_name@) {
            Ok(s) => r is Ok && final(st)@ == s,
            Err(e) => r == Err::<(), ContractError>(e) && final(st)@ == old(st)@,
        },
        r is Ok ==> (app_map(old(st)@) matches Ok(m) && app_map(final(st)@) == Ok::<
            Map<Seq<char>, Seq<char>>,
            ContractError,
        >(m.remove(app_name@))),
        r is Ok ==> app_address(final(st)@, app_name@) == Err::<Seq<char>, ContractError>(
            ContractError::AppNotFound,
        ),
        r is Ok ==> forall|n: Seq<char>|
            n != app_name@ ==> #[trigger] app_address(final(st)@, n) == app_address(old(st)@, n),
{
    let _ = load_apps(st)?;
    remove_app(st, app_name);
    Ok(())
}

/// Records the registry of a freshly set up community: its access-control,
/// token and voting applications, and nothing else.
pub fn record_initial_apps(st: &mut Storage, acl: &str, token: &str, voting: &str)
    ensures
        final(st)@ == with_apps(old(st)@, initial_apps(acl@, token@, voting@)),
        app_map(final(st)@) == Ok::<Map<Seq<char>, Seq<char>>, ContractError>(
            initial_apps(acl@, token@, voting@),
        ),
{
    let mut map: StringMap<String> = StringMap::new();
    map.insert(KEY_ACL_APP.to_owned(), acl.to_owned());
    map.insert(KEY_TOKEN_APP.to_owned(), token.to_owned());
    map.insert(KEY_VOTING_APP.to_owned(), voting.to_owned());
    store_apps(st, map);
}

/// The address under which the community application itself is
/// registered; the store must hold a well-formed registry that names it.
pub fn contract_address(st: &Storage) -> (r: String)
    requires
        app_address(st@, KEY_COMMUNITY_APP@) is Ok,
    ensures
        app_address(st@, KEY_COMMUNITY_APP@) == Ok::<Seq<char>, ContractError>(r@),
{
    get_app_address(st, KEY_COMMUNITY_APP.to_owned())
}

/// The address under which the community application itself is
/// registered, or why there is none.
pub fn try_contract_address(st: &Storage) -> (r: Result<String, ContractError>)
    ensures
        result_view(r) == app_address(st@, KEY_COMMUNITY_APP@),
{
    try_get_app_address(st, KEY_COMMUNITY_APP.to_owned())
}

} // verus!
