use vstd::prelude::*;

verus! {

/// A stored user record. The password is kept as given and never handed back
/// in a reply.
pub struct User {
    pub id: u128,
    pub username: String,
    pub password: String,
    pub email: String,
    pub is_active: bool,
}

/// What a caller sends to create a user.
pub struct UserRequest {
    pub username: String,
    pub password: String,
    pub email: String,
}

/// The public view of a user: no password, no email.
pub struct UserResponse {
    pub id: u128,
    pub username: String,
    pub is_active: bool,
}

/// What a stored record holds, as mathematical values.
pub ghost struct UserModel {
    pub id: u128,
    pub username: Seq<char>,
    pub password: Seq<char>,
    pub email: Seq<char>,
    pub is_active: bool,
}

/// What a creation request holds.
pub ghost struct RequestModel {
    pub username: Seq<char>,
    pub password: Seq<char>,
    pub email: Seq<char>,
}

/// What a public view holds.
pub ghost struct ResponseModel {
    pub id: u128,
    pub username: Seq<char>,
    pub is_active: bool,
}

impl View for User {
    type V = UserModel;

    open spec fn view(&self) -> UserModel {
        UserModel {
            id: self.id,
            username: self.username@,
            password: self.password@,
            email: self.email@,
            is_active: self.is_active,
        }
    }
}

impl View for UserRequest {
    type V = RequestModel;

    open spec fn view(&self) -> RequestModel {
        RequestModel { username: self.username@, password: self.password@, email: self.email@ }
    }
}

impl View for UserResponse {
    type V = ResponseModel;

    open spec fn view(&self) -> ResponseModel {
        ResponseModel { id: self.id, username: self.username@, is_active: self.is_active }
    }
}

/// The public view of a stored record.
pub open spec fn public_view(u: UserModel) -> ResponseModel {
    ResponseModel { id: u.id, username: u.username, is_active: u.is_active }
}

/// The public views of records `s`, in order.
pub open spec fn public_views(s: Seq<UserModel>) -> Seq<ResponseModel> {
    s.map_values(|u: UserModel| public_view(u))
}

/// The record that a request becomes under a given identifier: fields copied
/// verbatim, active.
pub open spec fn record_for(req: RequestModel, id: u128) -> UserModel {
    UserModel {
        id,
        username: req.username,
        password: req.password,
        email: req.email,
        is_active: true,
    }
}

impl Clone for User {
    fn clone(&self) -> (r: User)
        ensures
            r@ == self@,
    {
        User {
            id: self.id,
            username: self.username.clone(),
            password: self.password.clone(),
            email: self.email.clone(),
            is_active: self.is_active,
        }
    }
}

impl User {
    /// The public view of this record.
    pub fn to_response(&self) -> (r: UserResponse)
        ensures
            r@ == public_view(self@),
    {
        UserResponse { id: self.id, username: self.username.clone(), is_active: self.is_active }
    }
}

} // verus!
