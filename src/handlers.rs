use vstd::prelude::*;
use vstd::string::StringExecFns;
use crate::error::{Error, ErrorModel, Errors};
use crate::ident::{format_uuid, parse_uuid, uuid_parse, uuid_text};
use crate::service::create_user;
use crate::store::{active_records, find_record, has_id, UserStore};
use crate::user::{
    public_view, public_views, record_for, RequestModel, ResponseModel, User, UserModel, UserRequest,
    UserResponse,
};

verus! {

/// The reply to a lookup of one user by identifier.
pub enum GetUserReply {
    Found(UserResponse),
    BadRequest(Errors),
    NotFound(Errors),
}

/// What a lookup reply holds.
pub ghost enum ReplyModel {
    Found(ResponseModel),
    BadRequest(Seq<ErrorModel>),
    NotFound(Seq<ErrorModel>),
}

impl View for GetUserReply {
    type V = ReplyModel;

    open spec fn view(&self) -> ReplyModel {
        match self {
            GetUserReply::Found(u) => ReplyModel::Found(u@),
            GetUserReply::BadRequest(e) => ReplyModel::BadRequest(e@),
            GetUserReply::NotFound(e) => ReplyModel::NotFound(e@),
        }
    }
}

/// The status code that goes with each kind of reply.
pub open spec fn status_of(r: ReplyModel) -> u16 {
    match r {
        ReplyModel::Found(_) => 200,
        ReplyModel::BadRequest(_) => 400,
        ReplyModel::NotFound(_) => 404,
    }
}

impl GetUserReply {
    /// The status code of this reply.
    pub fn status_code(&self) -> (r: u16)
        ensures
            r == status_of(self@),
    {
        match self {
            GetUserReply::Found(_) => 200,
            GetUserReply::BadRequest(_) => 400,
            GetUserReply::NotFound(_) => 404,
        }
    }
}

/// The status code of a successful creation.
pub const STATUS_CREATED: u16 = 201;

/// The error for a path segment that is no identifier.
pub open spec fn bad_request_model() -> ErrorModel {
    ErrorModel { reason: "Bad Request"@, message: "Invalid UUID format in the path"@ }
}

/// The detail of the error for an identifier that no record carries, given the
/// identifier's text.
pub open spec fn not_found_message(id_text: Seq<char>) -> Seq<char> {
    "The user "@ + id_text
        + " was not found in the management. Try using `is_active` = false in the query parameter"@
}

/// The error for an identifier that no record carries, given its text.
pub open spec fn not_found_model(id_text: Seq<char>) -> ErrorModel {
    ErrorModel { reason: "user not found"@, message: not_found_message(id_text) }
}

/// The reply to a lookup of `parsed` (absent when the path did not parse) in
/// records `s`. The active flag plays no part here.
pub open spec fn lookup_reply(s: Seq<UserModel>, parsed: Option<u128>) -> ReplyModel {
    match parsed {
        None => ReplyModel::BadRequest(seq![bad_request_model()]),
        Some(id) => match find_record(s, id) {
            Some(u) => ReplyModel::Found(public_view(u)),
            None => ReplyModel::NotFound(seq![not_found_model(uuid_text(id))]),
        },
    }
}

/// `s2` is `s` with one more record at its end, made from `req` under an
/// identifier that `s` did not hold.
pub open spec fn create_step(s: Seq<UserModel>, req: RequestModel, s2: Seq<UserModel>) -> bool {
    &&& s2.len() == s.len() + 1
    &&& s2.drop_last() == s
    &&& s2.last() == record_for(req, s2.last().id)
    &&& !has_id(s, s2.last().id)
}

/// The error for a path segment that is no identifier.
pub fn bad_request_error() -> (r: Error)
    ensures
        r@ == bad_request_model(),
{
    Error {
        reason: String::from_str("Bad Request"),
        message: String::from_str("Invalid UUID format in the path"),
    }
}

/// The error for an identifier that no record carries, given its text.
pub fn not_found_error(id_text: &str) -> (r: Error)
    ensures
        r@ == not_found_model(id_text@),
{
    let mut message = String::from_str("The user ");
    message.append(id_text);
    message.append(
        " was not found in the management. Try using `is_active` = false in the query parameter",
    );
    Error { reason: String::from_str("user not found"), message }
}

/// Looks up an already parsed identifier; `None` stands for a path that did
/// not parse.
pub fn lookup_user(store: &UserStore, parsed: Option<u128>) -> (r: GetUserReply)
    ensures
        r@ == lookup_reply(store@, parsed),
{
    match parsed {
        None => {
            let r = GetUserReply::BadRequest(Errors::single(bad_request_error()));
            r
        },
        Some(id) => match store.find_by_id(id) {
            Some(u) => GetUserReply::Found(u.to_response()),
            None => {
                let text = format_uuid(id);
                GetUserReply::NotFound(Errors::single(not_found_error(text.as_str())))
            },
        },
    }
}

/// Answers a lookup by the path segment `id`: bad request when it is no
/// identifier, not found when no record carries it, else the record's public
/// view whatever its active flag.
pub fn get_user(store: &UserStore, id: &str) -> (r: GetUserReply)
    ensures
        r@ == lookup_reply(store@, uuid_parse(id@)),
{
    let parsed = parse_uuid(id);
    lookup_user(store, parsed)
}

/// The public views of every active record, in insertion order.
pub fn get_users(store: &UserStore) -> (r: Vec<UserResponse>)
    ensures
        r@.map_values(|u: UserResponse| u@) == public_views(active_records(store@)),
{
    let users = store.list_active();
    let ghost active = users@.map_values(|u: User| u@);
    let mut out: Vec<UserResponse> = Vec::new();
    let mut i: usize = 0;
    while i < users.len()
        invariant
            i <= users.len(),
            active == users@.map_values(|u: User| u@),
            out@.map_values(|u: UserResponse| u@) == active.subrange(0, i as int).map_values(
                |u: UserModel| public_view(u),
            ),
        decreases users.len() - i,
    {
        let ghost before = out@;
        out.push(users[i].to_response());
        assert(active.subrange(0, i + 1) =~= active.subrange(0, i as int).push(active[i as int]));
        assert(out@.map_values(|u: UserResponse| u@) =~= before.map_values(|u: UserResponse| u@).push(
            public_view(active[i as int]),
        ));
        assert(active.subrange(0, i + 1).map_values(|u: UserModel| public_view(u))
            =~= active.subrange(0, i as int).map_values(|u: UserModel| public_view(u)).push(
            public_view(active[i as int]),
        ));
        i += 1;
    }
    assert(active.subrange(0, active.len() as int) =~= active);
    out
}

/// Stores `user`, keeping its identifier when no record carries it yet and
/// else giving it the smallest unused one, and answers with its public view.
pub fn admit_user(store: &mut UserStore, user: User) -> (r: UserResponse)
    requires
        old(store).wf(),
    ensures
        final(store).wf(),
        final(store)@.len() == old(store)@.len() + 1,
        final(store)@.drop_last() == old(store)@,
        final(store)@.last() == (UserModel { id: final(store)@.last().id, ..user@ }),
        !has_id(old(store)@, final(store)@.last().id),
        !has_id(old(store)@, user.id) ==> final(store)@.last().id == user.id,
        r@ == public_view(final(store)@.last()),
{
    let mut user = user;
    user.id = store.fresh_id(user.id);
    let stored = store.insert(user);
    stored.to_response()
}

/// Creates a record from `req` under a fresh random identifier, stores it at
/// the end, and answers with its public view.
pub fn insert_user(store: &mut UserStore, req: UserRequest) -> (r: UserResponse)
    requires
        old(store).wf(),
    ensures
        final(store).wf(),
        create_step(old(store)@, req@, final(store)@),
        r@ == public_view(final(store)@.last()),
{
    let user = create_user(req);
    admit_user(store, user)
}

} // verus!
