use vstd::prelude::*;

use crate::calls::{
    call_method, method_call, permission_list_call, set_permission_call, set_permission_call_view,
    token_address_call, token_address_call_view, CallView, ContractCall,
    METHOD_INITIAL_PERMISSION_LIST,
};
use crate::error::ContractError;
use crate::json::{encode_bytes_map, json_of_bytes_map};
use crate::permissions::{
    default_permission, default_permission_map, initial_permission_map, initial_permissions,
};
use crate::registry::{
    app_address, app_map, apps_added, apps_removed, get_app_address, initial_apps,
    record_initial_apps, result_view, stored_apps, try_add_app, try_contract_address,
    try_get_app_address, try_get_apps, try_remove_app, with_apps,
    KEY_ACL_APP, KEY_ALL_APPS, KEY_COMMUNITY_APP, KEY_TOKEN_APP, KEY_VOTING_APP,
};
use crate::storage::Storage;

verus! {

/// Method name: set the community up.
pub const METHOD_INITIAL_CONTRACT: &'static str = "initial_contract";

/// Method name: the registry, as stored.
pub const METHOD_QUERY_APPS: &'static str = "query_apps";

/// Method name: the votes, asked of the voting application.
pub const METHOD_QUERY_VOTES: &'static str = "query_votes";

/// Method name: the balances, asked of the token application.
pub const METHOD_QUERY_BALANCES: &'static str = "query_balances";

/// Method name: the address of one application.
pub const METHOD_QUERY_APP: &'static str = "query_app";

/// Method name: the permissions, asked of the access-control application.
pub const METHOD_QUERY_PERMISSIONS: &'static str = "query_permissions";

/// Method name: register an application.
pub const METHOD_ADD_APP: &'static str = "add_app";

/// Method name: take an application out of the registry.
pub const METHOD_REMOVE_APP: &'static str = "remove_app";

/// Method name: the permissions the community keeps for itself.
pub const METHOD_DEFAULT_PERMISSION: &'static str = "default_permission";

/// Answer of `init`.
pub const MSG_INIT_COMPLETE: &'static str = "init complete";

/// Answer once the community is set up.
pub const MSG_INITIAL_CONTRACT_COMPLETE: &'static str = "initial contract complete";

/// Answer once an application is registered.
pub const MSG_ADD_APP_SUCCESS: &'static str = "add app success";

/// Answer once an application is taken out of the registry.
pub const MSG_REMOVE_APP_SUCCESS: &'static str = "remove app success";

/// Error answer when a call to another contract fails.
pub const ERR_CALL_CONTRACT: &'static str = "call contract error";

/// Error answer to a method the contract does not know.
pub const ERR_METHOD_NOT_FOUND: &'static str = "invoke method not found";

/// The methods of `invoke`.
#[derive(Clone, Copy, Debug, PartialEq, Eq, Structural)]
pub enum Method {
    InitialContract,
    QueryApps,
    QueryVotes,
    QueryBalances,
    QueryApp,
    QueryPermissions,
    AddApp,
    RemoveApp,
    DefaultPermission,
    Unknown,
}

/// The method that a method name selects.
pub open spec fn method_of(name: Seq<char>) -> Method {
    if name == METHOD_INITIAL_CONTRACT@ {
        Method::InitialContract
    } else if name == METHOD_QUERY_APPS@ {
        Method::QueryApps
    } else if name == METHOD_QUERY_VOTES@ {
        Method::QueryVotes
    } else if name == METHOD_QUERY_BALANCES@ {
        Method::QueryBalances
    } else if name == METHOD_QUERY_APP@ {
        Method::QueryApp
    } else if name == METHOD_QUERY_PERMISSIONS@ {
        Method::QueryPermissions
    } else if name == METHOD_ADD_APP@ {
        Method::AddApp
    } else if name == METHOD_REMOVE_APP@ {
        Method::RemoveApp
    } else if name == METHOD_DEFAULT_PERMISSION@ {
        Method::DefaultPermission
    } else {
        Method::Unknown
    }
}

fn same_text(a: &String, b: &str) -> (r: bool)
    ensures
        r == (a@ == b@),
{
    *a == b.to_owned()
}

/// The method that the method name `name` selects.
pub fn parse_method(name: &str) -> (m: Method)
    ensures
        m == method_of(name@),
{
    let n = name.to_owned();
    if same_text(&n, METHOD_INITIAL_CONTRACT) {
        Method::InitialContract
    } else if same_text(&n, METHOD_QUERY_APPS) {
        Method::QueryApps
    } else if same_text(&n, METHOD_QUERY_VOTES) {
        Method::QueryVotes
    } else if same_text(&n, METHOD_QUERY_BALANCES) {
        Method::QueryBalances
    } else if same_text(&n, METHOD_QUERY_APP) {
        Method::QueryApp
    } else if same_text(&n, METHOD_QUERY_PERMISSIONS) {
        Method::QueryPermissions
    } else if same_text(&n, METHOD_ADD_APP) {
        Method::AddApp
    } else if same_text(&n, METHOD_REMOVE_APP) {
        Method::RemoveApp
    } else if same_text(&n, METHOD_DEFAULT_PERMISSION) {
        Method::DefaultPermission
    } else {
        Method::Unknown
    }
}

/// An answer that the contract returns to its caller.
#[derive(Debug, PartialEq, Eq)]
pub enum Reply {
    /// Success, with these bytes.
    Data(Vec<u8>),
    /// Success, with the bytes of this text.
    Text(String),
    /// Failure, with this message.
    Error(String),
}

/// An answer seen as plain values.
pub enum ReplyView {
    Data(Seq<u8>),
    Text(Seq<char>),
    Error(Seq<char>),
}

impl View for Reply {
    type V = ReplyView;

    open spec fn view(&self) -> ReplyView {
        match self {
            Reply::Data(b) => ReplyView::Data(b@),
            Reply::Text(t) => ReplyView::Text(t@),
            Reply::Error(e) => ReplyView::Error(e@),
        }
    }
}

/// What setting the community up works with: the address texts of the
/// access-control, token and voting applications, and the addresses of
/// voting, token and "any entity" in the form that permissions name them.
#[derive(Debug, PartialEq, Eq)]
pub struct Setup {
    pub acl: String,
    pub token: String,
    pub voting: String,
    pub voting_addr: Vec<u8>,
    pub token_addr: Vec<u8>,
    pub any_entity_addr: Vec<u8>,
}

pub struct SetupView {
    pub acl: Seq<char>,
    pub token: Seq<char>,
    pub voting: Seq<char>,
    pub voting_addr: Seq<u8>,
    pub token_addr: Seq<u8>,
    pub any_entity_addr: Seq<u8>,
}

impl View for Setup {
    type V = SetupView;

    open spec fn view(&self) -> SetupView {
        SetupView {
            acl: self.acl@,
            token: self.token@,
            voting: self.voting@,
            voting_addr: self.voting_addr@,
            token_addr: self.token_addr@,
            any_entity_addr: self.any_entity_addr@,
        }
    }
}

/// A request to `invoke`: the method with its arguments.
#[derive(Debug, PartialEq, Eq)]
pub enum Request {
    InitialContract(Setup),
    QueryApps,
    QueryVotes,
    QueryBalances,
    QueryApp(String),
    QueryPermissions,
    AddApp(String, String),
    RemoveApp(String),
    DefaultPermission,
    Unknown,
}

pub enum RequestView {
    InitialContract(SetupView),
    QueryApps,
    QueryVotes,
    QueryBalances,
    QueryApp(Seq<char>),
    QueryPermissions,
    AddApp(Seq<char>, Seq<char>),
    RemoveApp(Seq<char>),
    DefaultPermission,
    Unknown,
}

impl View for Request {
    type V = RequestView;

    open spec fn view(&self) -> RequestView {
        match self {
            Request::InitialContract(s) => RequestView::InitialContract(s@),
            Request::QueryApps => RequestView::QueryApps,
            Request::QueryVotes => RequestView::QueryVotes,
            Request::QueryBalances => RequestView::QueryBalances,
            Request::QueryApp(n) => RequestView::QueryApp(n@),
            Request::QueryPermissions => RequestView::QueryPermissions,
            Request::AddApp(n, a) => RequestView::AddApp(n@, a@),
            Request::RemoveApp(n) => RequestView::RemoveApp(n@),
            Request::DefaultPermission => RequestView::DefaultPermission,
            Request::Unknown => RequestView::Unknown,
        }
    }
}

/// Where an invocation stands between two pieces of outside work.
#[derive(Debug, PartialEq, Eq)]
pub enum Phase {
    /// Waiting for the request.
    Ready,
    /// Setting up: waiting for the voting application's permission list.
    VotingList(Setup),
    /// Setting up: waiting for the token application's permission list.
    TokenList(Setup),
    /// Setting up: waiting for the community application's address.
    CommunityAddress(Setup),
    /// Setting up: waiting for the access-control application to take the permissions.
    AclSet(Setup),
    /// Setting up: waiting for the voting application to take the token's address.
    TokenContractSet(Setup),
    /// Waiting for the answer of the application a query was passed to.
    Forwarding,
    /// Waiting for the community application's address, to list its permissions.
    DefaultAddress,
    /// The invocation is over.
    Done,
}

pub enum PhaseView {
    Ready,
    VotingList(SetupView),
    TokenList(SetupView),
    CommunityAddress(SetupView),
    AclSet(SetupView),
    TokenContractSet(SetupView),
    Forwarding,
    DefaultAddress,
    Done,
}

impl View for Phase {
    type V = PhaseView;

    open spec fn view(&self) -> PhaseView {
        match self {
            Phase::Ready => PhaseView::Ready,
            Phase::VotingList(s) => PhaseView::VotingList(s@),
            Phase::TokenList(s) => PhaseView::TokenList(s@),
            Phase::CommunityAddress(s) => PhaseView::CommunityAddress(s@),
            Phase::AclSet(s) => PhaseView::AclSet(s@),
            Phase::TokenContractSet(s) => PhaseView::TokenContractSet(s@),
            Phase::Forwarding => PhaseView::Forwarding,
            Phase::DefaultAddress => PhaseView::DefaultAddress,
            Phase::Done => PhaseView::Done,
        }
    }
}

/// What the outside world hands back to an invocation.
#[derive(Debug, PartialEq, Eq)]
pub enum Event {
    /// The request has been read.
    Invoked(Request),
    /// A call to another contract came back, with its answer or without one.
    Called(Option<Vec<u8>>),
    /// An address text has been turned into the address it names.
    Parsed(Vec<u8>),
}

pub enum EventView {
    Invoked(RequestView),
    Called(Option<Seq<u8>>),
    Parsed(Seq<u8>),
}

impl View for Event {
    type V = EventView;

    open spec fn view(&self) -> EventView {
        match self {
            Event::Invoked(r) => EventView::Invoked(r@),
            Event::Called(o) => EventView::Called(
                match o {
                    Some(b) => Some(b@),
                    None => None,
                },
            ),
            Event::Parsed(a) => EventView::Parsed(a@),
        }
    }
}

/// The outside work an invocation asks for next.
#[derive(Debug, PartialEq, Eq)]
pub enum Next {
    /// Call another contract; answer with `Event::Called`.
    Call(ContractCall),
    /// Turn this address text into an address; answer with `Event::Parsed`.
    ParseAddress(String),
    /// Nothing more: the invocation is over.
    Finish,
    /// The invocation cannot go on; abort it with this error.
    Abort(ContractError),
}

pub enum NextView {
    Call(CallView),
    ParseAddress(Seq<char>),
    Finish,
    Abort(ContractError),
}

impl View for Next {
    type V = NextView;

    open spec fn view(&self) -> NextView {
        match self {
            Next::Call(c) => NextView::Call(c@),
            Next::ParseAddress(a) => NextView::ParseAddress(a@),
            Next::Finish => NextView::Finish,
            Next::Abort(e) => NextView::Abort(*e),
        }
    }
}

/// One step of an invocation: the answers to return now, in order, and the
/// outside work to do next.
#[derive(Debug, PartialEq, Eq)]
pub struct Step {
    pub replies: Vec<Reply>,
    pub next: Next,
}

pub struct StepView {
    pub replies: Seq<ReplyView>,
    pub next: NextView,
}

impl View for Step {
    type V = StepView;

    open spec fn view(&self) -> StepView {
        StepView { replies: self.replies@.map_values(|r: Reply| r@), next: self.next@ }
    }
}

/// The answers owed for a call whose answer is `r`, where a missing answer
/// is reported and the invocation goes on.
pub open spec fn failure_replies(r: Option<Seq<u8>>) -> Seq<ReplyView> {
    match r {
        Some(_) => Seq::empty(),
        None => seq![ReplyView::Error(ERR_CALL_CONTRACT@)],
    }
}

/// The answer to a query passed on to another application.
pub open spec fn forward_reply(r: Option<Seq<u8>>) -> ReplyView {
    match r {
        Some(b) => ReplyView::Data(b),
        None => ReplyView::Error(ERR_CALL_CONTRACT@),
    }
}

/// The call that passes the query `method` on to the application registered
/// as `app`.
pub open spec fn forward_call(st: Map<Seq<char>, Seq<u8>>, app: Seq<char>, method: Seq<char>) -> Result<
    CallView,
    ContractError,
> {
    match app_address(st, app) {
        Err(e) => Err(e),
        Ok(a) => Ok(method_call(a, method)),
    }
}

/// The JSON that installs the initial permissions of a community set up with
/// `s` whose own application has address `community`.
pub open spec fn initial_permission_json(s: SetupView, community: Seq<u8>) -> Seq<u8> {
    json_of_bytes_map(
        initial_permission_map(
            s.any_entity_addr,
            s.voting_addr,
            s.token_addr,
            default_permission_map(community),
        ),
    )
}

pub open spec fn finished(replies: Seq<ReplyView>) -> StepView {
    StepView { replies, next: NextView::Finish }
}

pub open spec fn aborted(e: ContractError) -> StepView {
    StepView { replies: Seq::empty(), next: NextView::Abort(e) }
}

/// The first step of an invocation on request `req`.
pub open spec fn request_transition(req: RequestView, st: Map<Seq<char>, Seq<u8>>) -> (
    PhaseView,
    StepView,
    Map<Seq<char>, Seq<u8>>,
) {
    match req {
        RequestView::InitialContract(s) => (
            PhaseView::VotingList(s),
            StepView {
                replies: Seq::empty(),
                next: NextView::Call(method_call(s.voting, METHOD_INITIAL_PERMISSION_LIST@)),
            },
            st,
        ),
        RequestView::QueryApps => match stored_apps(st) {
            Err(e) => (PhaseView::Done, aborted(e), st),
            Ok(b) => (PhaseView::Done, finished(seq![ReplyView::Data(b)]), st),
        },
        RequestView::QueryVotes => forward_transition(st, KEY_VOTING_APP@, METHOD_QUERY_VOTES@),
        RequestView::QueryBalances => forward_transition(st, KEY_TOKEN_APP@, METHOD_QUERY_BALANCES@),
        RequestView::QueryPermissions => forward_transition(
            st,
            KEY_ACL_APP@,
            METHOD_QUERY_PERMISSIONS@,
        ),
        RequestView::QueryApp(name) => match app_address(st, name) {
            Err(e) => (PhaseView::Done, aborted(e), st),
            Ok(a) => (PhaseView::Done, finished(seq![ReplyView::Text(a)]), st),
        },
        RequestView::AddApp(name, address) => match apps_added(st, name, address) {
            Err(e) => (PhaseView::Done, aborted(e), st),
            Ok(st2) => (PhaseView::Done, finished(seq![ReplyView::Text(MSG_ADD_APP_SUCCESS@)]), st2),
        },
        RequestView::RemoveApp(name) => match apps_removed(st, name) {
            Err(e) => (PhaseView::Done, aborted(e), st),
            Ok(st2) => (
                PhaseView::Done,
                finished(seq![ReplyView::Text(MSG_REMOVE_APP_SUCCESS@)]),
                st2,
            ),
        },
        RequestView::DefaultPermission => match app_address(st, KEY_COMMUNITY_APP@) {
            Err(e) => (PhaseView::Done, aborted(e), st),
            Ok(a) => (
                PhaseView::DefaultAddress,
                StepView { replies: Seq::empty(), next: NextView::ParseAddress(a) },
                st,
            ),
        },
        RequestView::Unknown => (
            PhaseView::Done,
            finished(seq![ReplyView::Error(ERR_METHOD_NOT_FOUND@)]),
            st,
        ),
    }
}

/// The first step of a query that is passed on to another application.
pub open spec fn forward_transition(
    st: Map<Seq<char>, Seq<u8>>,
    app: Seq<char>,
    method: Seq<char>,
) -> (PhaseView, StepView, Map<Seq<char>, Seq<u8>>) {
    match forward_call(st, app, method) {
        Err(e) => (PhaseView::Done, aborted(e), st),
        Ok(c) => (
            PhaseView::Forwarding,
            StepView { replies: Seq::empty(), next: NextView::Call(c) },
            st,
        ),
    }
}

/// One step of `invoke`: from the phase, the event that ends the outside work
/// asked for, and the store, to the next phase, the step taken and the store.
pub open spec fn invoke_transition(
    phase: PhaseView,
    event: EventView,
    st: Map<Seq<char>, Seq<u8>>,
) -> (PhaseView, StepView, Map<Seq<char>, Seq<u8>>) {
    let unexpected = (PhaseView::Done, aborted(ContractError::UnexpectedEvent), st);
    match phase {
        PhaseView::Ready => match event {
            EventView::Invoked(req) => request_transition(req, st),
            _ => unexpected,
        },
        PhaseView::VotingList(s) => match event {
            EventView::Called(r) => (
                PhaseView::TokenList(s),
                StepView {
                    replies: failure_replies(r),
                    next: NextView::Call(method_call(s.token, METHOD_INITIAL_PERMISSION_LIST@)),
                },
                st,
            ),
            _ => unexpected,
        },
        PhaseView::TokenList(s) => match event {
            EventView::Called(r) => match app_address(st, KEY_COMMUNITY_APP@) {
                Err(e) => (
                    PhaseView::Done,
                    StepView { replies: failure_replies(r), next: NextView::Abort(e) },
                    st,
                ),
                Ok(a) => (
                    PhaseView::CommunityAddress(s),
                    StepView { replies: failure_replies(r), next: NextView::ParseAddress(a) },
                    st,
                ),
            },
            _ => unexpected,
        },
        PhaseView::CommunityAddress(s) => match event {
            EventView::Parsed(c) => (
                PhaseView::AclSet(s),
                StepView {
                    replies: Seq::empty(),
                    next: NextView::Call(
                        set_permission_call_view(s.acl, initial_permission_json(s, c)),
                    ),
                },
                st,
            ),
            _ => unexpected,
        },
        PhaseView::AclSet(s) => match event {
            EventView::Called(r) => (
                PhaseView::TokenContractSet(s),
                StepView {
                    replies: failure_replies(r),
                    next: NextView::Call(token_address_call_view(s.voting, s.token)),
                },
                st,
            ),
            _ => unexpected,
        },
        PhaseView::TokenContractSet(s) => match event {
            EventView::Called(r) => (
                PhaseView::Done,
                finished(
                    failure_replies(r).push(ReplyView::Text(MSG_INITIAL_CONTRACT_COMPLETE@)),
                ),
                with_apps(st, initial_apps(s.acl, s.token, s.voting)),
            ),
            _ => unexpected,
        },
        PhaseView::Forwarding => match event {
            EventView::Called(r) => (PhaseView::Done, finished(seq![forward_reply(r)]), st),
            _ => unexpected,
        },
        PhaseView::DefaultAddress => match event {
            EventView::Parsed(c) => (
                PhaseView::Done,
                finished(seq![ReplyView::Data(json_of_bytes_map(default_permission_map(c)))]),
                st,
            ),
            _ => unexpected,
        },
        PhaseView::Done => unexpected,
    }
}

/// What the registry of the store `st` reads after a step from store `before`
/// that ended with `step` on `event` in `phase`: a registration that finished
/// reads back the earlier registry with the address registered, a removal that
/// finished reads back the earlier registry without the name, and a finished
/// setup reads back exactly the access-control, token and voting applications.
pub open spec fn registry_read_back(
    phase: PhaseView,
    event: EventView,
    step: StepView,
    before: Map<Seq<char>, Seq<u8>>,
    st: Map<Seq<char>, Seq<u8>>,
) -> bool {
    step.next is Finish ==> match phase {
        PhaseView::Ready => match event {
            EventView::Invoked(RequestView::AddApp(n, a)) => {
                &&& app_map(before) matches Ok(m) && app_map(st) == Ok::<
                    Map<Seq<char>, Seq<char>>,
                    ContractError,
                >(m.insert(n, a))
                &&& app_address(st, n) == Ok::<Seq<char>, ContractError>(a)
            },
            EventView::Invoked(RequestView::RemoveApp(n)) => {
                &&& app_map(before) matches Ok(m) && app_map(st) == Ok::<
                    Map<Seq<char>, Seq<char>>,
                    ContractError,
                >(m.remove(n))
                &&& app_address(st, n) == Err::<Seq<char>, ContractError>(
                    ContractError::AppNotFound,
                )
            },
            _ => true,
        },
        PhaseView::TokenContractSet(s) => app_map(st) == Ok::<
            Map<Seq<char>, Seq<char>>,
            ContractError,
        >(initial_apps(s.acl, s.token, s.voting)),
        _ => true,
    }
}

/// The store holds no registry, or one that reads as a JSON map from text to text.
pub open spec fn registry_readable(st: Map<Seq<char>, Seq<u8>>) -> bool {
    !st.contains_key(KEY_ALL_APPS@) || app_map(st) is Ok
}

/// How a step may change the store: a readable registry stays readable, and
/// a step that changes the store writes only the registry key, with the
/// JSON text (`serde_json::to_vec`) of the very map it reads back as.
pub open spec fn registry_kept(before: Map<Seq<char>, Seq<u8>>, st: Map<Seq<char>, Seq<u8>>) -> bool {
    &&& registry_readable(before) ==> registry_readable(st)
    &&& st != before ==> (app_map(st) matches Ok(m) && st == with_apps(before, m))
}

/// The answer of the contract's `init` entry point.
pub fn init() -> (r: Reply)
    ensures
        r@ == ReplyView::Text(MSG_INIT_COMPLETE@),
{
    Reply::Text(MSG_INIT_COMPLETE.to_owned())
}

/// The answer to a query passed on to another application, given what that
/// application answered (`None` when the call failed).
pub fn call_reply(r: Option<Vec<u8>>) -> (reply: Reply)
    ensures
        reply@ == forward_reply(
            match r {
                Some(b) => Some(b@),
                None => None,
            },
        ),
{
    match r {
        Some(b) => Reply::Data(b),
        None => Reply::Error(ERR_CALL_CONTRACT.to_owned()),
    }
}

fn failure_reply_list(r: &Option<Vec<u8>>) -> (v: Vec<Reply>)
    ensures
        v@.map_values(|x: Reply| x@) == failure_replies(
            match r {
                Some(b) => Some(b@),
                None => None,
            },
        ),
{
    let mut v: Vec<Reply> = Vec::new();
    match r {
        Some(_) => {},
        None => {
            v.push(Reply::Error(ERR_CALL_CONTRACT.to_owned()));
        },
    }
    assert(v@.map_values(|x: Reply| x@) =~= failure_replies(
        match r {
            Some(b) => Some(b@),
            None => None,
        },
    ));
    v
}

fn single(r: Reply) -> (v: Vec<Reply>)
    ensures
        v@.map_values(|x: Reply| x@) == seq![r@],
{
    let mut v: Vec<Reply> = Vec::new();
    v.push(r);
    assert(v@.map_values(|x: Reply| x@) =~= seq![r@]);
    v
}

fn none_yet() -> (v: Vec<Reply>)
    ensures
        v@.map_values(|x: Reply| x@) == Seq::<ReplyView>::empty(),
{
    let v: Vec<Reply> = Vec::new();
    assert(v@.map_values(|x: Reply| x@) =~= Seq::<ReplyView>::empty());
    v
}

fn abort_step(e: ContractError) -> (s: Step)
    ensures
        s@ == aborted(e),
{
    Step { replies: none_yet(), next: Next::Abort(e) }
}

fn finish_step(r: Reply) -> (s: Step)
    ensures
        s@ == finished(seq![r@]),
{
    Step { replies: single(r), next: Next::Finish }
}

/// The call that passes the query `method` on to the application registered
/// as `app`; the store must hold a well-formed registry that names `app`.
pub fn forward_query(st: &Storage, app: &str, method: &str) -> (r: ContractCall)
    requires
        app_address(st@, app@) is Ok,
    ensures
        forward_call(st@, app@, method@) == Ok::<CallView, ContractError>(r@),
{
    let address = get_app_address(st, app.to_owned());
    call_method(address, method)
}

/// The call that passes the query `method` on to the application registered
/// as `app`, or why there is none.
pub fn try_forward_query(st: &Storage, app: &str, method: &str) -> (r: Result<
    ContractCall,
    ContractError,
>)
    ensures
        result_view(r) == forward_call(st@, app@, method@),
{
    match try_get_app_address(st, app.to_owned()) {
        Ok(_) => Ok(forward_query(st, app, method)),
        Err(e) => Err(e),
    }
}

/// The call that asks the voting application for the votes; the store must
/// hold a well-formed registry that names the voting application.
pub fn query_votes(st: &Storage) -> (r: ContractCall)
    requires
        app_address(st@, KEY_VOTING_APP@) is Ok,
    ensures
        forward_call(st@, KEY_VOTING_APP@, METHOD_QUERY_VOTES@) == Ok::<CallView, ContractError>(r@),
{
    forward_query(st, KEY_VOTING_APP, METHOD_QUERY_VOTES)
}

/// The call that asks the voting application for the votes, or why there is none.
pub fn try_query_votes(st: &Storage) -> (r: Result<ContractCall, ContractError>)
    ensures
        result_view(r) == forward_call(st@, KEY_VOTING_APP@, METHOD_QUERY_VOTES@),
{
    try_forward_query(st, KEY_VOTING_APP, METHOD_QUERY_VOTES)
}

/// The call that asks the token application for the balances; the store
/// must hold a well-formed registry that names the token application.
pub fn query_balances(st: &Storage) -> (r: ContractCall)
    requires
        app_address(st@, KEY_TOKEN_APP@) is Ok,
    ensures
        forward_call(st@, KEY_TOKEN_APP@, METHOD_QUERY_BALANCES@) == Ok::<CallView, ContractError>(
            r@,
        ),
{
    forward_query(st, KEY_TOKEN_APP, METHOD_QUERY_BALANCES)
}

/// The call that asks the token application for the balances, or why there is none.
pub fn try_query_balances(st: &Storage) -> (r: Result<ContractCall, ContractError>)
    ensures
        result_view(r) == forward_call(st@, KEY_TOKEN_APP@, METHOD_QUERY_BALANCES@),
{
    try_forward_query(st, KEY_TOKEN_APP, METHOD_QUERY_BALANCES)
}

/// The call that asks the access-control application for the permissions;
/// the store must hold a well-formed registry that names the access-control
/// application.
pub fn query_permissions(st: &Storage) -> (r: ContractCall)
    requires
        app_address(st@, KEY_ACL_APP@) is Ok,
    ensures
        forward_call(st@, KEY_ACL_APP@, METHOD_QUERY_PERMISSIONS@) == Ok::<CallView, ContractError>(
            r@,
        ),
{
    forward_query(st, KEY_ACL_APP, METHOD_QUERY_PERMISSIONS)
}

/// The call that asks the access-control application for the permissions,
/// or why there is none.
pub fn try_query_permissions(st: &Storage) -> (r: Result<ContractCall, ContractError>)
    ensures
        result_view(r) == forward_call(st@, KEY_ACL_APP@, METHOD_QUERY_PERMISSIONS@),
{
    try_forward_query(st, KEY_ACL_APP, METHOD_QUERY_PERMISSIONS)
}

fn forward_step(r: Result<ContractCall, ContractError>) -> (out: (Phase, Step))
    ensures
        match result_view(r) {
            Err(e) => out.0@ == PhaseView::Done && out.1@ == aborted(e),
            Ok(c) => out.0@ == PhaseView::Forwarding && out.1@ == (StepView {
                replies: Seq::empty(),
                next: NextView::Call(c),
            }),
        },
{
    match r {
        Err(e) => (Phase::Done, abort_step(e)),
        Ok(c) => (Phase::Forwarding, Step { replies: none_yet(), next: Next::Call(c) }),
    }
}

fn start(req: Request, st: &mut Storage) -> (out: (Phase, Step))
    ensures
        (out.0@, out.1@, final(st)@) == request_transition(req@, old(st)@),
        registry_read_back(PhaseView::Ready, EventView::Invoked(req@), out.1@, old(st)@, final(st)@),
        registry_kept(old(st)@, final(st)@),
{
    match req {
        Request::InitialContract(s) => {
            let call = permission_list_call(s.voting.as_str());
            (Phase::VotingList(s), Step { replies: none_yet(), next: Next::Call(call) })
        },
        Request::QueryApps => match try_get_apps(st) {
            Err(e) => (Phase::Done, abort_step(e)),
            Ok(b) => (Phase::Done, finish_step(Reply::Data(b))),
        },
        Request::QueryVotes => forward_step(try_query_votes(st)),
        Request::QueryBalances => forward_step(try_query_balances(st)),
        Request::QueryPermissions => forward_step(try_query_permissions(st)),
        Request::QueryApp(name) => match try_get_app_address(st, name) {
            Err(e) => (Phase::Done, abort_step(e)),
            Ok(a) => (Phase::Done, finish_step(Reply::Text(a))),
        },
        Request::AddApp(name, address) => match try_add_app(st, name, address) {
            Err(e) => (Phase::Done, abort_step(e)),
            Ok(()) => (Phase::Done, finish_step(Reply::Text(MSG_ADD_APP_SUCCESS.to_owned()))),
        },
        Request::RemoveApp(name) => match try_remove_app(st, name) {
            Err(e) => (Phase::Done, abort_step(e)),
            Ok(()) => (Phase::Done, finish_step(Reply::Text(MSG_REMOVE_APP_SUCCESS.to_owned()))),
        },
        Request::DefaultPermission => match try_contract_address(st) {
            Err(e) => (Phase::Done, abort_step(e)),
            Ok(a) => (Phase::DefaultAddress, Step { replies: none_yet(), next: Next::ParseAddress(a) }),
        },
        Request::Unknown => (Phase::Done, finish_step(Reply::Error(ERR_METHOD_NOT_FOUND.to_owned()))),
    }
}

/// One step of `invoke`. The caller performs the replies in order, then the
/// outside work that `next` asks for, and hands its outcome back as the next
/// event, until `next` is `Finish` (or `Abort`, on which it aborts).
pub fn invoke_step(phase: Phase, event: Event, st: &mut Storage) -> (out: (Phase, Step))
    ensures
        (out.0@, out.1@, final(st)@) == invoke_transition(phase@, event@, old(st)@),
        registry_read_back(phase@, event@, out.1@, old(st)@, final(st)@),
        registry_kept(old(st)@, final(st)@),
{
    match phase {
        Phase::Ready => match event {
            Event::Invoked(req) => start(req, st),
            _ => (Phase::Done, abort_step(ContractError::UnexpectedEvent)),
        },
        Phase::VotingList(s) => match event {
            Event::Called(r) => {
                let replies = failure_reply_list(&r);
                let call = permission_list_call(s.token.as_str());
                (Phase::TokenList(s), Step { replies, next: Next::Call(call) })
            },
            _ => (Phase::Done, abort_step(ContractError::UnexpectedEvent)),
        },
        Phase::TokenList(s) => match event {
            Event::Called(r) => {
                let replies = failure_reply_list(&r);
                match try_contract_address(st) {
                    Err(e) => (Phase::Done, Step { replies, next: Next::Abort(e) }),
                    Ok(a) => (Phase::CommunityAddress(s), Step { replies, next: Next::ParseAddress(a) }),
                }
            },
            _ => (Phase::Done, abort_step(ContractError::UnexpectedEvent)),
        },
        Phase::CommunityAddress(s) => match event {
            Event::Parsed(c) => {
                let defaults = default_permission(c);
                let permissions = initial_permissions(
                    vstd::slice::slice_to_vec(s.any_entity_addr.as_slice()),
                    vstd::slice::slice_to_vec(s.voting_addr.as_slice()),
                    vstd::slice::slice_to_vec(s.token_addr.as_slice()),
                    defaults,
                );
                let json = encode_bytes_map(&permissions);
                let call = set_permission_call(s.acl.as_str(), json);
                (Phase::AclSet(s), Step { replies: none_yet(), next: Next::Call(call) })
            },
            _ => (Phase::Done, abort_step(ContractError::UnexpectedEvent)),
        },
        Phase::AclSet(s) => match event {
            Event::Called(r) => {
                let replies = failure_reply_list(&r);
                let call = token_address_call(s.voting.as_str(), s.token.as_str());
                (Phase::TokenContractSet(s), Step { replies, next: Next::Call(call) })
            },
            _ => (Phase::Done, abort_step(ContractError::UnexpectedEvent)),
        },
        Phase::TokenContractSet(s) => match event {
            Event::Called(r) => {
                let mut replies = failure_reply_list(&r);
                record_initial_apps(st, s.acl.as_str(), s.token.as_str(), s.voting.as_str());
                let ghost before = replies@;
                replies.push(Reply::Text(MSG_INITIAL_CONTRACT_COMPLETE.to_owned()));
                proof {
                    assert(replies@.map_values(|x: Reply| x@) =~= before.map_values(|x: Reply| x@).push(
                        ReplyView::Text(MSG_INITIAL_CONTRACT_COMPLETE@),
                    ));
                }
                (Phase::Done, Step { replies, next: Next::Finish })
            },
            _ => (Phase::Done, abort_step(ContractError::UnexpectedEvent)),
        },
        Phase::Forwarding => match event {
            Event::Called(r) => (Phase::Done, finish_step(call_reply(r))),
            _ => (Phase::Done, abort_step(ContractError::UnexpectedEvent)),
        },
        Phase::DefaultAddress => match event {
            Event::Parsed(c) => {
                let json = encode_bytes_map(&default_permission(c));
                (Phase::Done, finish_step(Reply::Data(json)))
            },
            _ => (Phase::Done, abort_step(ContractError::UnexpectedEvent)),
        },
        Phase::Done => (Phase::Done, abort_step(ContractError::UnexpectedEvent)),
    }
}

/// The greatest number of steps that an invocation in phase `p` still takes.
pub open spec fn steps_left(p: PhaseView) -> nat {
    match p {
        PhaseView::Ready => 6,
        PhaseView::VotingList(_) => 5,
        PhaseView::TokenList(_) => 4,
        PhaseView::CommunityAddress(_) => 3,
        PhaseView::AclSet(_) => 2,
        PhaseView::TokenContractSet(_) => 1,
        PhaseView::Forwarding => 1,
        PhaseView::DefaultAddress => 1,
        PhaseView::Done => 0,
    }
}

/// Every invocation comes to an end, whatever the outside world answers:
/// a step out of any phase but `Done` leads to a phase with fewer steps left,
/// and a step asks for no further outside work exactly when it leads to `Done`.
pub proof fn lemma_invocation_finishes(p: PhaseView, e: EventView, st: Map<Seq<char>, Seq<u8>>)
    ensures
        !(p is Done) ==> steps_left(invoke_transition(p, e, st).0) < steps_left(p),
        (invoke_transition(p, e, st).1.next is Finish || invoke_transition(p, e, st).1.next is Abort)
            <==> invoke_transition(p, e, st).0 is Done,
{
}

/// An invocation that ends normally answers its caller in its last step.
pub proof fn lemma_finished_invocation_answers(
    p: PhaseView,
    e: EventView,
    st: Map<Seq<char>, Seq<u8>>,
)
    ensures
        invoke_transition(p, e, st).1.next is Finish ==> invoke_transition(p, e, st).1.replies.len()
            >= 1,
{
}

/// Only registering an application, taking one out, and the last step of
/// setting the community up change the store; every query leaves it as it is.
pub proof fn lemma_queries_keep_store(p: PhaseView, e: EventView, st: Map<Seq<char>, Seq<u8>>)
    ensures
        invoke_transition(p, e, st).2 != st ==> (p is Ready && (e matches EventView::Invoked(r) && (
        r is AddApp || r is RemoveApp))) || p is TokenContractSet,
{
}

} // verus!
