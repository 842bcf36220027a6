use vstd::prelude::*;

use crate::calls::{CallView, FieldView};
use crate::contract::{
    invoke_transition, EventView, NextView, PhaseView, ReplyView, RequestView, SetupView, StepView,
};
use crate::error::ContractError;
use crate::json::{json_of_bytes_map, json_of_text_map, text_map_of_json};
use crate::permissions::lemma_initial_permissions_complete;
use crate::registry::{app_address, app_map};

verus! {

/// A call of `method` on `target` with no further fields.
pub open spec fn plain_call(target: Seq<char>, method: Seq<char>) -> NextView {
    NextView::Call(CallView { target, fields: seq![FieldView::Str(method)] })
}

/// Setting a community up first asks the voting application named in the
/// request (not one registered earlier) for its permission list, whatever
/// the store holds, answers nothing yet and writes nothing.
pub proof fn lemma_setup_asks_requested_voting_app(s: SetupView, st: Map<Seq<char>, Seq<u8>>)
    ensures
        invoke_transition(PhaseView::Ready, EventView::Invoked(RequestView::InitialContract(s)), st)
            == (
            PhaseView::VotingList(s),
            StepView {
                replies: Seq::empty(),
                next: plain_call(s.voting, "initial_permission_list"@),
            },
            st,
        ),
{
}

/// Registering an application succeeds on every store that holds a readable
/// registry, whether or not the name is registered already: it answers
/// "add app success", ends the invocation, and writes the registry's JSON
/// with the name mapped to the new address (replacing an older one).
pub proof fn lemma_add_app_succeeds(n: Seq<char>, a: Seq<char>, st: Map<Seq<char>, Seq<u8>>)
    requires
        app_map(st) is Ok,
    ensures
        app_map(st) matches Ok(m) && invoke_transition(
            PhaseView::Ready,
            EventView::Invoked(RequestView::AddApp(n, a)),
            st,
        ) == (
            PhaseView::Done,
            StepView {
                replies: seq![ReplyView::Text("add app success"@)],
                next: NextView::Finish,
            },
            st.insert("all_apps"@, json_of_text_map(m.insert(n, a))),
        ),
{
}

/// Taking an application out succeeds on every store that holds a readable
/// registry, whatever the name (registered or not): it answers
/// "remove app success", ends the invocation, and writes the registry's JSON
/// without the name.
pub proof fn lemma_remove_app_succeeds(n: Seq<char>, st: Map<Seq<char>, Seq<u8>>)
    requires
        app_map(st) is Ok,
    ensures
        app_map(st) matches Ok(m) && invoke_transition(
            PhaseView::Ready,
            EventView::Invoked(RequestView::RemoveApp(n)),
            st,
        ) == (
            PhaseView::Done,
            StepView {
                replies: seq![ReplyView::Text("remove app success"@)],
                next: NextView::Finish,
            },
            st.insert("all_apps"@, json_of_text_map(m.remove(n))),
        ),
{
}

/// Registering or removing fails only where the registry cannot be read,
/// aborting with the reason and leaving the store as it was.
pub proof fn lemma_registry_updates_fail_only_on_unreadable(
    n: Seq<char>,
    a: Seq<char>,
    st: Map<Seq<char>, Seq<u8>>,
)
    ensures
        app_map(st) matches Err(e) ==> invoke_transition(
            PhaseView::Ready,
            EventView::Invoked(RequestView::AddApp(n, a)),
            st,
        ) == (PhaseView::Done, StepView { replies: Seq::empty(), next: NextView::Abort(e) }, st),
        app_map(st) matches Err(e) ==> invoke_transition(
            PhaseView::Ready,
            EventView::Invoked(RequestView::RemoveApp(n)),
            st,
        ) == (PhaseView::Done, StepView { replies: Seq::empty(), next: NextView::Abort(e) }, st),
{
}

/// The outcome of passing a query on to the application registered as `app`
/// with the message `[method]`: the call goes to the registered address, or
/// the invocation aborts with the reason there is none.
pub open spec fn forwarded(st: Map<Seq<char>, Seq<u8>>, app: Seq<char>, method: Seq<char>) -> (
    PhaseView,
    StepView,
    Map<Seq<char>, Seq<u8>>,
) {
    match app_address(st, app) {
        Ok(v) => (
            PhaseView::Forwarding,
            StepView { replies: Seq::empty(), next: plain_call(v, method) },
            st,
        ),
        Err(e) => (PhaseView::Done, StepView { replies: Seq::empty(), next: NextView::Abort(e) }, st),
    }
}

/// A votes query asks the registered voting application for `query_votes`,
/// a balances query asks the registered token application for
/// `query_balances`, and a permissions query asks the registered
/// access-control application for `query_permissions`; none writes the store.
pub proof fn lemma_queries_go_to_their_apps(st: Map<Seq<char>, Seq<u8>>)
    ensures
        invoke_transition(PhaseView::Ready, EventView::Invoked(RequestView::QueryVotes), st)
            == forwarded(st, "voting_app"@, "query_votes"@),
        invoke_transition(PhaseView::Ready, EventView::Invoked(RequestView::QueryBalances), st)
            == forwarded(st, "token_app"@, "query_balances"@),
        invoke_transition(PhaseView::Ready, EventView::Invoked(RequestView::QueryPermissions), st)
            == forwarded(st, "acl_app"@, "query_permissions"@),
{
}

/// A forwarded query answers exactly what the application it asked answered,
/// or "call contract error" where the call failed, and ends.
pub proof fn lemma_forwarded_answer(r: Option<Seq<u8>>, st: Map<Seq<char>, Seq<u8>>)
    ensures
        invoke_transition(PhaseView::Forwarding, EventView::Called(r), st) == (
            PhaseView::Done,
            StepView {
                replies: seq![
                    match r {
                        Some(b) => ReplyView::Data(b),
                        None => ReplyView::Error("call contract error"@),
                    },
                ],
                next: NextView::Finish,
            },
            st,
        ),
{
}

/// Asking for one application answers its registered address as text, or
/// aborts with the reason there is none; asking for the whole registry
/// answers the stored bytes; an unknown method answers
/// "invoke method not found". None of these writes the store.
pub proof fn lemma_lookups_answer_the_registry(n: Seq<char>, st: Map<Seq<char>, Seq<u8>>)
    ensures
        invoke_transition(PhaseView::Ready, EventView::Invoked(RequestView::QueryApp(n)), st) == (
            match app_address(st, n) {
                Ok(a) => (
                    PhaseView::Done,
                    StepView { replies: seq![ReplyView::Text(a)], next: NextView::Finish },
                    st,
                ),
                Err(e) => (
                    PhaseView::Done,
                    StepView { replies: Seq::empty(), next: NextView::Abort(e) },
                    st,
                ),
            }
        ),
        st.contains_key("all_apps"@) ==> invoke_transition(
            PhaseView::Ready,
            EventView::Invoked(RequestView::QueryApps),
            st,
        ) == (
            PhaseView::Done,
            StepView { replies: seq![ReplyView::Data(st["all_apps"@])], next: NextView::Finish },
            st,
        ),
        !st.contains_key("all_apps"@) ==> invoke_transition(
            PhaseView::Ready,
            EventView::Invoked(RequestView::QueryApps),
            st,
        ) == (
            PhaseView::Done,
            StepView { replies: Seq::empty(), next: NextView::Abort(ContractError::MissingApps) },
            st,
        ),
        invoke_transition(PhaseView::Ready, EventView::Invoked(RequestView::Unknown), st) == (
            PhaseView::Done,
            StepView {
                replies: seq![ReplyView::Error("invoke method not found"@)],
                next: NextView::Finish,
            },
            st,
        ),
{
}

/// The later steps of setting a community up, in order: after the voting
/// application's list, the token application named in the request is asked
/// for its list; after the token's, the community application's registered
/// address is looked up; the access-control application named in the
/// request then gets the permission JSON; the voting application named in
/// the request then learns the token's address text; and the last step
/// answers "initial contract complete" and records exactly the three
/// requested applications. A failed call is answered "call contract error"
/// and the setup goes on.
pub proof fn lemma_setup_steps(s: SetupView, r: Option<Seq<u8>>, st: Map<Seq<char>, Seq<u8>>)
    ensures
        ({
            let failed = match r {
                Some(_) => Seq::<ReplyView>::empty(),
                None => seq![ReplyView::Error("call contract error"@)],
            };
            &&& invoke_transition(PhaseView::VotingList(s), EventView::Called(r), st) == (
                PhaseView::TokenList(s),
                StepView { replies: failed, next: plain_call(s.token, "initial_permission_list"@) },
                st,
            )
            &&& invoke_transition(PhaseView::TokenList(s), EventView::Called(r), st) == (
                match app_address(st, "community_app"@) {
                    Ok(c) => (
                        PhaseView::CommunityAddress(s),
                        StepView { replies: failed, next: NextView::ParseAddress(c) },
                        st,
                    ),
                    Err(e) => (
                        PhaseView::Done,
                        StepView { replies: failed, next: NextView::Abort(e) },
                        st,
                    ),
                }
            )
            &&& invoke_transition(PhaseView::AclSet(s), EventView::Called(r), st) == (
                PhaseView::TokenContractSet(s),
                StepView {
                    replies: failed,
                    next: NextView::Call(
                        CallView {
                            target: s.voting,
                            fields: seq![
                                FieldView::Str("set_token_contract_address"@),
                                FieldView::Str(s.token),
                            ],
                        },
                    ),
                },
                st,
            )
            &&& invoke_transition(PhaseView::TokenContractSet(s), EventView::Called(r), st) == (
                PhaseView::Done,
                StepView {
                    replies: failed.push(ReplyView::Text("initial contract complete"@)),
                    next: NextView::Finish,
                },
                st.insert(
                    "all_apps"@,
                    json_of_text_map(
                        Map::empty().insert("acl_app"@, s.acl).insert("token_app"@, s.token).insert(
                            "voting_app"@,
                            s.voting,
                        ),
                    ),
                ),
            )
        }),
{
}

/// Once the community application's address `c` is known, the
/// access-control application named in the request is sent
/// `set_initial_permission` with the JSON of exactly four permissions: any
/// entity opens votes, the requested voting application casts them, the
/// requested token application mints, and the community application
/// manages the community. Asking for the community's own permissions
/// answers the JSON that gives it the managing permission alone.
pub proof fn lemma_permissions_sent(s: SetupView, c: Seq<u8>, st: Map<Seq<char>, Seq<u8>>)
    ensures
        invoke_transition(PhaseView::CommunityAddress(s), EventView::Parsed(c), st) == (
            PhaseView::AclSet(s),
            StepView {
                replies: Seq::empty(),
                next: NextView::Call(
                    CallView {
                        target: s.acl,
                        fields: seq![
                            FieldView::Str("set_initial_permission"@),
                            FieldView::Bytes(
                                json_of_bytes_map(
                                    Map::empty().insert("voting.new_vote"@, s.any_entity_addr).insert(
                                        "voting.cast_vote"@,
                                        s.voting_addr,
                                    ).insert("token.mint"@, s.token_addr).insert(
                                        "community.manage"@,
                                        c,
                                    ),
                                ),
                            ),
                        ],
                    },
                ),
            },
            st,
        ),
        invoke_transition(PhaseView::DefaultAddress, EventView::Parsed(c), st) == (
            PhaseView::Done,
            StepView {
                replies: seq![
                    ReplyView::Data(
                        json_of_bytes_map(Map::empty().insert("community.manage"@, c)),
                    ),
                ],
                next: NextView::Finish,
            },
            st,
        ),
{
    lemma_initial_permissions_complete(s.any_entity_addr, s.voting_addr, s.token_addr, c);
}

/// A name's registered address is the value the JSON stored under
/// `all_apps` gives it; where that JSON is missing, unreadable, or lacks the
/// name, there is none, for that reason.
pub proof fn lemma_app_address_reads_stored_json(st: Map<Seq<char>, Seq<u8>>, n: Seq<char>)
    ensures
        !st.contains_key("all_apps"@) ==> app_address(st, n) == Err::<Seq<char>, ContractError>(
            ContractError::MissingApps,
        ),
        st.contains_key("all_apps"@) && text_map_of_json(st["all_apps"@]) is None ==> app_address(st, n)
            == Err::<Seq<char>, ContractError>(ContractError::MalformedApps),
        st.contains_key("all_apps"@) ==> (text_map_of_json(st["all_apps"@]) matches Some(m) ==> (
        app_address(st, n) == if m.contains_key(n) {
            Ok::<Seq<char>, ContractError>(m[n])
        } else {
            Err::<Seq<char>, ContractError>(ContractError::AppNotFound)
        })),
{
}

} // verus!
