use community::error::ContractError;
use community::calls::{ContractCall, Field};
use community::contract::{
    call_reply, forward_query, init, invoke_step, parse_method, query_balances,
    query_permissions, query_votes, try_query_votes, Event, Method, Next, Phase, Reply, Request,
    Setup,
};
use community::permissions::{default_permission, initial_permissions, ANY_ENTITY};
use community::registry::{add_app, get_app_address, record_initial_apps, try_get_app_address};
use community::storage::Storage;
use community::string_map::StringMap;

struct Outcome {
    replies: Vec<Reply>,
    calls: Vec<ContractCall>,
    parsed: Vec<String>,
    aborted: Option<ContractError>,
    steps: usize,
}

fn run(
    st: &mut Storage,
    req: Request,
    answer: &dyn Fn(&ContractCall) -> Option<Vec<u8>>,
    parse: &dyn Fn(&str) -> Vec<u8>,
) -> Outcome {
    let mut out = Outcome { replies: Vec::new(), calls: Vec::new(), parsed: Vec::new(), aborted: None, steps: 0 };
    let mut phase = Phase::Ready;
    let mut event = Event::Invoked(req);
    loop {
        let (p, step) = invoke_step(phase, event, st);
        out.steps += 1;
        out.replies.extend(step.replies);
        match step.next {
            Next::Call(c) => {
                event = Event::Called(answer(&c));
                out.calls.push(c);
            }
            Next::ParseAddress(text) => {
                event = Event::Parsed(parse(&text));
                out.parsed.push(text);
            }
            Next::Finish => {
                assert_eq!(p, Phase::Done);
                return out;
            }
            Next::Abort(e) => {
                assert_eq!(p, Phase::Done);
                out.aborted = Some(e);
                return out;
            }
        }
        phase = p;
    }
}

fn text(s: &str) -> Reply {
    Reply::Text(s.to_string())
}

fn fake_address(s: &str) -> Vec<u8> {
    s.bytes().rev().collect()
}

fn registry() -> Storage {
    let mut st = Storage::new();
    record_initial_apps(&mut st, "0xacl", "0xtoken", "0xvoting");
    st
}

fn setup_request() -> Request {
    Request::InitialContract(Setup {
        acl: "0xacl".to_string(),
        token: "0xtoken".to_string(),
        voting: "0xvoting".to_string(),
        voting_addr: vec![1, 2],
        token_addr: vec![3],
        any_entity_addr: vec![0, 1],
    })
}

#[test]
fn init_answers_init_complete() {
    assert_eq!(init(), text("init complete"));
}

#[test]
fn method_names() {
    assert_eq!(parse_method("initial_contract"), Method::InitialContract);
    assert_eq!(parse_method("query_apps"), Method::QueryApps);
    assert_eq!(parse_method("query_votes"), Method::QueryVotes);
    assert_eq!(parse_method("query_balances"), Method::QueryBalances);
    assert_eq!(parse_method("query_app"), Method::QueryApp);
    assert_eq!(parse_method("query_permissions"), Method::QueryPermissions);
    assert_eq!(parse_method("add_app"), Method::AddApp);
    assert_eq!(parse_method("remove_app"), Method::RemoveApp);
    assert_eq!(parse_method("default_permission"), Method::DefaultPermission);
    assert_eq!(parse_method("new_vote"), Method::Unknown);
    assert_eq!(parse_method(""), Method::Unknown);
    assert_eq!(parse_method("query_apps "), Method::Unknown);
}

#[test]
fn permissions_json() {
    let json = |m: &StringMap<Vec<u8>>| -> Vec<(String, Vec<u8>)> {
        ["community.manage", "token.mint", "voting.cast_vote", "voting.new_vote"]
            .iter()
            .filter_map(|k| m.get(&k.to_string()).map(|v| (k.to_string(), v.clone())))
            .collect()
    };
    let d = default_permission(vec![7, 8]);
    assert_eq!(json(&d), vec![("community.manage".to_string(), vec![7, 8])]);
    let p = initial_permissions(vec![1], vec![2], vec![3], default_permission(vec![4]));
    assert_eq!(
        json(&p),
        vec![
            ("community.manage".to_string(), vec![4]),
            ("token.mint".to_string(), vec![3]),
            ("voting.cast_vote".to_string(), vec![2]),
            ("voting.new_vote".to_string(), vec![1]),
        ]
    );
    let mut over: StringMap<Vec<u8>> = StringMap::new();
    over.insert("token.mint".to_string(), vec![9]);
    let p = initial_permissions(vec![1], vec![2], vec![3], over);
    assert_eq!(p.get(&"token.mint".to_string()), Some(&vec![9]));
}

#[test]
fn forward_queries_go_to_the_registered_apps() {
    let st = registry();
    let call = |target: &str, method: &str| ContractCall {
        target: target.to_string(),
        fields: vec![Field::Str(method.to_string())],
    };
    assert_eq!(query_votes(&st), call("0xvoting", "query_votes"));
    assert_eq!(query_balances(&st), call("0xtoken", "query_balances"));
    assert_eq!(query_permissions(&st), call("0xacl", "query_permissions"));
    assert_eq!(forward_query(&st, "acl_app", "x"), call("0xacl", "x"));
    assert_eq!(try_query_votes(&st), Ok(call("0xvoting", "query_votes")));
    assert_eq!(try_query_votes(&Storage::new()), Err(ContractError::MissingApps));
}

#[test]
fn call_reply_passes_answers_on() {
    assert_eq!(call_reply(Some(vec![5, 6])), Reply::Data(vec![5, 6]));
    assert_eq!(call_reply(None), Reply::Error("call contract error".to_string()));
}

#[test]
fn invoke_forwarded_query() {
    let mut st = registry();
    let out = run(&mut st, Request::QueryVotes, &|_| Some(b"votes".to_vec()), &fake_address);
    assert_eq!(out.calls.len(), 1);
    assert_eq!(out.calls[0].target, "0xvoting");
    assert_eq!(out.replies, vec![Reply::Data(b"votes".to_vec())]);
    let out = run(&mut st, Request::QueryBalances, &|_| None, &fake_address);
    assert_eq!(out.calls[0].target, "0xtoken");
    assert_eq!(out.replies, vec![Reply::Error("call contract error".to_string())]);
    let out = run(&mut st, Request::QueryPermissions, &|_| Some(vec![]), &fake_address);
    assert_eq!(out.calls[0].fields, vec![Field::Str("query_permissions".to_string())]);
    assert_eq!(out.calls[0].target, "0xacl");
}

#[test]
fn invoke_query_apps_and_app() {
    let mut st = registry();
    let out = run(&mut st, Request::QueryApps, &|_| None, &fake_address);
    assert_eq!(
        out.replies,
        vec![Reply::Data(br#"{"acl_app":"0xacl","token_app":"0xtoken","voting_app":"0xvoting"}"#.to_vec())]
    );
    let out = run(&mut st, Request::QueryApp("token_app".to_string()), &|_| None, &fake_address);
    assert_eq!(out.replies, vec![text("0xtoken")]);
    let out = run(&mut st, Request::QueryApp("nope".to_string()), &|_| None, &fake_address);
    assert_eq!(out.replies, vec![]);
    assert_eq!(out.aborted, Some(ContractError::AppNotFound));
    let mut empty = Storage::new();
    let out = run(&mut empty, Request::QueryApps, &|_| None, &fake_address);
    assert_eq!(out.aborted, Some(ContractError::MissingApps));
}

#[test]
fn invoke_add_then_query_app() {
    let mut st = registry();
    let out = run(&mut st, Request::AddApp("community_app".to_string(), "0xcomm".to_string()), &|_| None, &fake_address);
    assert_eq!(out.replies, vec![text("add app success")]);
    let out = run(&mut st, Request::QueryApp("community_app".to_string()), &|_| None, &fake_address);
    assert_eq!(out.replies, vec![text("0xcomm")]);
    let out = run(&mut st, Request::RemoveApp("community_app".to_string()), &|_| None, &fake_address);
    assert_eq!(out.replies, vec![text("remove app success")]);
    let out = run(&mut st, Request::QueryApp("community_app".to_string()), &|_| None, &fake_address);
    assert_eq!(out.aborted, Some(ContractError::AppNotFound));
}

#[test]
fn invoke_default_permission() {
    let mut st = registry();
    add_app(&mut st, "community_app".to_string(), "ab".to_string());
    let out = run(&mut st, Request::DefaultPermission, &|_| None, &|s: &str| s.bytes().collect());
    assert_eq!(out.parsed, vec!["ab".to_string()]);
    assert_eq!(out.replies, vec![Reply::Data(br#"{"community.manage":[97,98]}"#.to_vec())]);
    let mut st = registry();
    let out = run(&mut st, Request::DefaultPermission, &|_| None, &fake_address);
    assert_eq!(out.aborted, Some(ContractError::AppNotFound));
}

#[test]
fn invoke_unknown_method() {
    let mut st = registry();
    let out = run(&mut st, Request::Unknown, &|_| None, &fake_address);
    assert_eq!(out.replies, vec![Reply::Error("invoke method not found".to_string())]);
    assert_eq!(out.aborted, None);
    assert_eq!(out.steps, 1);
}

#[test]
fn invoke_initial_contract() {
    let mut st = registry();
    add_app(&mut st, "community_app".to_string(), "C".to_string());
    let out = run(&mut st, setup_request(), &|_| Some(vec![]), &|s: &str| s.bytes().collect());
    assert_eq!(out.aborted, None);
    assert_eq!(out.steps, 6);
    assert_eq!(out.parsed, vec!["C".to_string()]);
    let targets: Vec<&str> = out.calls.iter().map(|c| c.target.as_str()).collect();
    assert_eq!(targets, vec!["0xvoting", "0xtoken", "0xacl", "0xvoting"]);
    assert_eq!(out.calls[0].fields, vec![Field::Str("initial_permission_list".to_string())]);
    assert_eq!(out.calls[1].fields, vec![Field::Str("initial_permission_list".to_string())]);
    assert_eq!(
        out.calls[2].fields,
        vec![
            Field::Str("set_initial_permission".to_string()),
            Field::Bytes(
                br#"{"community.manage":[67],"token.mint":[3],"voting.cast_vote":[1,2],"voting.new_vote":[0,1]}"#
                    .to_vec()
            ),
        ]
    );
    assert_eq!(
        out.calls[3].fields,
        vec![
            Field::Str("set_token_contract_address".to_string()),
            Field::Str("0xtoken".to_string()),
        ]
    );
    assert_eq!(out.replies, vec![text("initial contract complete")]);
    assert_eq!(try_get_app_address(&st, "community_app".to_string()), Err(ContractError::AppNotFound));
    assert_eq!(get_app_address(&st, "voting_app".to_string()), "0xvoting".to_string());
}

#[test]
fn invoke_initial_contract_reports_failed_calls_and_goes_on() {
    let mut st = registry();
    add_app(&mut st, "community_app".to_string(), "C".to_string());
    let out = run(&mut st, setup_request(), &|_| None, &|s: &str| s.bytes().collect());
    let err = Reply::Error("call contract error".to_string());
    assert_eq!(
        out.replies,
        vec![err.clone_reply(), err.clone_reply(), err.clone_reply(), err, text("initial contract complete")]
    );
}

#[test]
fn invoke_initial_contract_without_community_app_aborts() {
    let mut st = registry();
    let out = run(&mut st, setup_request(), &|_| Some(vec![]), &fake_address);
    assert_eq!(out.calls.len(), 2);
    assert_eq!(out.aborted, Some(ContractError::AppNotFound));
    assert_eq!(get_app_address(&st, "acl_app".to_string()), "0xacl".to_string());
}

#[test]
fn unexpected_events_abort() {
    let mut st = registry();
    let (p, step) = invoke_step(Phase::Ready, Event::Called(None), &mut st);
    assert_eq!(p, Phase::Done);
    assert_eq!(step.next, Next::Abort(ContractError::UnexpectedEvent));
    let (_, step) = invoke_step(Phase::Done, Event::Invoked(Request::QueryApps), &mut st);
    assert_eq!(step.next, Next::Abort(ContractError::UnexpectedEvent));
    let (_, step) = invoke_step(Phase::Forwarding, Event::Parsed(vec![]), &mut st);
    assert_eq!(step.next, Next::Abort(ContractError::UnexpectedEvent));
}

#[test]
fn any_entity_text() {
    assert_eq!(ANY_ENTITY, "0x0000000000000000000000000000000000000001");
}

trait CloneReply {
    fn clone_reply(&self) -> Reply;
}

impl CloneReply for Reply {
    fn clone_reply(&self) -> Reply {
        match self {
            Reply::Data(b) => Reply::Data(b.clone()),
            Reply::Text(t) => Reply::Text(t.clone()),
            Reply::Error(e) => Reply::Error(e.clone()),
        }
    }
}
