use vstd::prelude::*;

verus! {

/// Method of the voting and token applications that lists the permissions
/// they need.
pub const METHOD_INITIAL_PERMISSION_LIST: &'static str = "initial_permission_list";

/// Method of the access-control application that installs the initial
/// permission list.
pub const METHOD_SET_INITIAL_PERMISSION: &'static str = "set_initial_permission";

/// Method of the voting application that tells it where the token lives.
pub const METHOD_SET_TOKEN_CONTRACT_ADDRESS: &'static str = "set_token_contract_address";

/// One field of a message to another contract, in the order it is written.
#[derive(Debug, PartialEq, Eq)]
pub enum Field {
    /// A text field.
    Str(String),
    /// A byte-string field.
    Bytes(Vec<u8>),
}

/// A message field seen as plain values.
pub enum FieldView {
    Str(Seq<char>),
    Bytes(Seq<u8>),
}

impl View for Field {
    type V = FieldView;

    open spec fn view(&self) -> FieldView {
        match self {
            Field::Str(s) => FieldView::Str(s@),
            Field::Bytes(b) => FieldView::Bytes(b@),
        }
    }
}

/// A call to another contract: the address text of the contract called and
/// the fields of the message, first field first (the first names the method).
#[derive(Debug, PartialEq, Eq)]
pub struct ContractCall {
    pub target: String,
    pub fields: Vec<Field>,
}

/// A contract call seen as plain values.
pub struct CallView {
    pub target: Seq<char>,
    pub fields: Seq<FieldView>,
}

impl View for ContractCall {
    type V = CallView;

    open spec fn view(&self) -> CallView {
        CallView { target: self.target@, fields: self.fields@.map_values(|f: Field| f@) }
    }
}

/// A call of `method` on `target` with no further fields.
pub open spec fn method_call(target: Seq<char>, method: Seq<char>) -> CallView {
    CallView { target, fields: seq![FieldView::Str(method)] }
}

/// The call that installs `permissions` (JSON) in the access-control application.
pub open spec fn set_permission_call_view(acl: Seq<char>, permissions: Seq<u8>) -> CallView {
    CallView {
        target: acl,
        fields: seq![FieldView::Str(METHOD_SET_INITIAL_PERMISSION@), FieldView::Bytes(permissions)],
    }
}

/// The call that tells the voting application the token's address.
pub open spec fn token_address_call_view(voting: Seq<char>, token: Seq<char>) -> CallView {
    CallView {
        target: voting,
        fields: seq![FieldView::Str(METHOD_SET_TOKEN_CONTRACT_ADDRESS@), FieldView::Str(token)],
    }
}

/// Calls `method` on `target`, with no further fields.
pub fn call_method(target: String, method: &str) -> (c: ContractCall)
    ensures
        c@ == method_call(target@, method@),
{
    let mut fields: Vec<Field> = Vec::new();
    fields.push(Field::Str(method.to_owned()));
    let c = ContractCall { target, fields };
    assert(c@.fields =~= seq![FieldView::Str(method@)]);
    c
}

/// Asks the application at `target` for the permissions it needs.
pub fn permission_list_call(target: &str) -> (c: ContractCall)
    ensures
        c@ == method_call(target@, METHOD_INITIAL_PERMISSION_LIST@),
{
    call_method(target.to_owned(), METHOD_INITIAL_PERMISSION_LIST)
}

/// Installs `permissions` (JSON) in the access-control application at `acl`.
pub fn set_permission_call(acl: &str, permissions: Vec<u8>) -> (c: ContractCall)
    ensures
        c@ == set_permission_call_view(acl@, permissions@),
{
    let mut fields: Vec<Field> = Vec::new();
    fields.push(Field::Str(METHOD_SET_INITIAL_PERMISSION.to_owned()));
    fields.push(Field::Bytes(permissions));
    let c = ContractCall { target: acl.to_owned(), fields };
    assert(c@.fields =~= set_permission_call_view(acl@, permissions@).fields);
    c
}

/// Tells the voting application at `voting` that the token lives at `token`.
pub fn token_address_call(voting: &str, token: &str) -> (c: ContractCall)
    ensures
        c@ == token_address_call_view(voting@, token@),
{
    let mut fields: Vec<Field> = Vec::new();
    fields.push(Field::Str(METHOD_SET_TOKEN_CONTRACT_ADDRESS.to_owned()));
    fields.push(Field::Str(token.to_owned()));
    let c = ContractCall { target: voting.to_owned(), fields };
    assert(c@.fields =~= token_address_call_view(voting@, token@).fields);
    c
}

} // verus!
