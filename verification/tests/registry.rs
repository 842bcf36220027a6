use community::error::ContractError;
use community::registry::{
    add_app, contract_address, get_app_address, get_apps, record_initial_apps, remove_app,
    store_apps, try_add_app, try_contract_address, try_get_app_address, try_get_apps,
    try_remove_app, KEY_ALL_APPS,
};
use community::storage::Storage;
use community::string_map::StringMap;

fn setup() -> Storage {
    let mut st = Storage::new();
    record_initial_apps(&mut st, "0xacl", "0xtoken", "0xvoting");
    st
}

#[test]
fn initial_apps_are_stored_as_json() {
    let st = setup();
    let json = br#"{"acl_app":"0xacl","token_app":"0xtoken","voting_app":"0xvoting"}"#.to_vec();
    assert_eq!(get_apps(&st), json);
    assert_eq!(try_get_apps(&st), Ok(json));
}

#[test]
fn store_apps_writes_sorted_json_under_the_registry_key() {
    let mut st = Storage::new();
    let mut m: StringMap<String> = StringMap::new();
    m.insert("zeta".to_string(), "z".to_string());
    m.insert("alpha".to_string(), "a\"b".to_string());
    store_apps(&mut st, m);
    assert_eq!(st.get_param(KEY_ALL_APPS), br#"{"alpha":"a\"b","zeta":"z"}"#.to_vec());
    assert_eq!(get_app_address(&st, "alpha".to_string()), "a\"b".to_string());
}

#[test]
fn lookup_reads_stored_json() {
    let mut st = Storage::new();
    st.set_param(KEY_ALL_APPS, br#"{"community_app":"0xcomm","x":"y"}"#);
    assert_eq!(get_app_address(&st, "x".to_string()), "y".to_string());
    assert_eq!(try_get_app_address(&st, "x".to_string()), Ok("y".to_string()));
    assert_eq!(contract_address(&st), "0xcomm".to_string());
    assert_eq!(try_contract_address(&st), Ok("0xcomm".to_string()));
}

#[test]
fn lookup_errors() {
    let mut st = Storage::new();
    assert_eq!(try_get_apps(&st), Err(ContractError::MissingApps));
    assert_eq!(try_get_app_address(&st, "x".to_string()), Err(ContractError::MissingApps));
    st.set_param(KEY_ALL_APPS, b"not json");
    assert_eq!(try_get_app_address(&st, "x".to_string()), Err(ContractError::MalformedApps));
    st.set_param(KEY_ALL_APPS, b"{}");
    assert_eq!(try_get_app_address(&st, "x".to_string()), Err(ContractError::AppNotFound));
    assert_eq!(try_contract_address(&st), Err(ContractError::AppNotFound));
}

#[test]
fn add_then_lookup() {
    let mut st = setup();
    add_app(&mut st, "community_app".to_string(), "0xcomm".to_string());
    assert_eq!(get_app_address(&st, "community_app".to_string()), "0xcomm".to_string());
    assert_eq!(get_app_address(&st, "acl_app".to_string()), "0xacl".to_string());
    assert_eq!(try_add_app(&mut st, "acl_app".to_string(), "0xnew".to_string()), Ok(()));
    assert_eq!(get_app_address(&st, "acl_app".to_string()), "0xnew".to_string());
}

#[test]
fn remove_then_lookup() {
    let mut st = setup();
    remove_app(&mut st, "token_app".to_string());
    assert_eq!(try_get_app_address(&st, "token_app".to_string()), Err(ContractError::AppNotFound));
    assert_eq!(get_app_address(&st, "voting_app".to_string()), "0xvoting".to_string());
    assert_eq!(try_remove_app(&mut st, "nothing".to_string()), Ok(()));
    assert_eq!(get_apps(&st), br#"{"acl_app":"0xacl","voting_app":"0xvoting"}"#.to_vec());
}

#[test]
fn add_and_remove_fail_without_registry_and_leave_store() {
    let mut st = Storage::new();
    assert_eq!(try_add_app(&mut st, "a".to_string(), "b".to_string()), Err(ContractError::MissingApps));
    assert!(!st.has_param(KEY_ALL_APPS));
    st.set_param(KEY_ALL_APPS, b"[1,2]");
    assert_eq!(try_remove_app(&mut st, "a".to_string()), Err(ContractError::MalformedApps));
    assert_eq!(st.get_param(KEY_ALL_APPS), b"[1,2]".to_vec());
}

#[test]
fn initial_apps_replace_the_whole_registry() {
    let mut st = setup();
    add_app(&mut st, "community_app".to_string(), "0xcomm".to_string());
    record_initial_apps(&mut st, "a", "t", "v");
    assert_eq!(try_get_app_address(&st, "community_app".to_string()), Err(ContractError::AppNotFound));
    assert_eq!(get_app_address(&st, "token_app".to_string()), "t".to_string());
}
