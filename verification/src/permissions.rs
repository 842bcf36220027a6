use vstd::prelude::*;

use crate::string_map::StringMap;

verus! {

/// Action that lets its holder manage the community.
pub const ACTION_MANAGE: &'static str = "community.manage";

/// Action that lets its holder open a new vote.
pub const ACTION_NEW_VOTE: &'static str = "voting.new_vote";

/// Action that lets its holder cast a vote.
pub const ACTION_CAST_VOTE: &'static str = "voting.cast_vote";

/// Action that lets its holder mint tokens.
pub const ACTION_MINT: &'static str = "token.mint";

/// Address text that stands for any entity at all.
pub const ANY_ENTITY: &'static str = "0x0000000000000000000000000000000000000001";

/// The permissions that the community keeps for itself: managing the
/// community belongs to the community application.
pub open spec fn default_permission_map(app_address: Seq<u8>) -> Map<Seq<char>, Seq<u8>> {
    Map::empty().insert(ACTION_MANAGE@, app_address)
}

/// The permissions handed to the access-control application when the
/// community is set up: anyone may open a vote, the voting application casts
/// votes, the token application mints, and `defaults` is laid over these.
pub open spec fn initial_permission_map(
    any_entity: Seq<u8>,
    voting: Seq<u8>,
    token: Seq<u8>,
    defaults: Map<Seq<char>, Seq<u8>>,
) -> Map<Seq<char>, Seq<u8>> {
    Map::empty().insert(ACTION_NEW_VOTE@, any_entity).insert(ACTION_CAST_VOTE@, voting).insert(
        ACTION_MINT@,
        token,
    ).union_prefer_right(defaults)
}

/// The permissions the community keeps for itself, given the address of the
/// community application.
pub fn default_permission(app_address: Vec<u8>) -> (m: StringMap<Vec<u8>>)
    ensures
        m@ == default_permission_map(app_address@),
{
    let mut m: StringMap<Vec<u8>> = StringMap::new();
    m.insert(ACTION_MANAGE.to_owned(), app_address);
    m
}

/// The initial permission list of the access-control application.
pub fn initial_permissions(
    any_entity: Vec<u8>,
    voting: Vec<u8>,
    token: Vec<u8>,
    defaults: StringMap<Vec<u8>>,
) -> (m: StringMap<Vec<u8>>)
    ensures
        m@ == initial_permission_map(any_entity@, voting@, token@, defaults@),
{
    let mut m: StringMap<Vec<u8>> = StringMap::new();
    m.insert(ACTION_NEW_VOTE.to_owned(), any_entity);
    m.insert(ACTION_CAST_VOTE.to_owned(), voting);
    m.insert(ACTION_MINT.to_owned(), token);
    m.extend(defaults);
    m
}

/// With the community's own defaults laid over it, the initial permission
/// list holds exactly four actions: opening a vote (any entity), casting a
/// vote (the voting application), minting (the token application) and
/// managing the community (the community application).
pub proof fn lemma_initial_permissions_complete(
    any_entity: Seq<u8>,
    voting: Seq<u8>,
    token: Seq<u8>,
    community: Seq<u8>,
)
    ensures
        initial_permission_map(any_entity, voting, token, default_permission_map(community))
            == Map::<Seq<char>, Seq<u8>>::empty().insert(ACTION_NEW_VOTE@, any_entity).insert(
            ACTION_CAST_VOTE@,
            voting,
        ).insert(ACTION_MINT@, token).insert(ACTION_MANAGE@, community),
        initial_permission_map(any_entity, voting, token, default_permission_map(community)).dom().len()
            == 4,
{
    reveal_strlit("community.manage");
    reveal_strlit("voting.new_vote");
    reveal_strlit("voting.cast_vote");
    reveal_strlit("token.mint");
    let m = initial_permission_map(any_entity, voting, token, default_permission_map(community));
    let e = Map::<Seq<char>, Seq<u8>>::empty().insert(ACTION_NEW_VOTE@, any_entity).insert(
        ACTION_CAST_VOTE@,
        voting,
    ).insert(ACTION_MINT@, token).insert(ACTION_MANAGE@, community);
    assert(m =~= e);
    assert(ACTION_NEW_VOTE@.len() == 15);
    assert(ACTION_CAST_VOTE@.len() == 16);
    assert(ACTION_MINT@.len() == 10);
    assert(ACTION_NEW_VOTE@ != ACTION_CAST_VOTE@);
    assert(ACTION_NEW_VOTE@ != ACTION_MINT@);
    assert(ACTION_CAST_VOTE@ != ACTION_MINT@);
    assert(ACTION_MANAGE@ != ACTION_MINT@);
    assert(ACTION_MANAGE@ != ACTION_NEW_VOTE@);
    assert(ACTION_MANAGE@[0] != ACTION_CAST_VOTE@[0]);
    assert(ACTION_MANAGE@ != ACTION_CAST_VOTE@);
    let d0 = Set::<Seq<char>>::empty();
    assert(e.dom() =~= d0.insert(ACTION_NEW_VOTE@).insert(ACTION_CAST_VOTE@).insert(ACTION_MINT@).insert(
        ACTION_MANAGE@,
    ));
}

} // verus!
