use vstd::prelude::*;

verus! {

/// One problem reported to a caller: a short category and a readable detail.
pub struct Error {
    pub reason: String,
    pub message: String,
}

/// The envelope that carries the problems of one reply.
pub struct Errors {
    pub errors: Vec<Error>,
}

/// What an `Error` says, as text.
pub ghost struct ErrorModel {
    pub reason: Seq<char>,
    pub message: Seq<char>,
}

impl View for Error {
    type V = ErrorModel;

    open spec fn view(&self) -> ErrorModel {
        ErrorModel { reason: self.reason@, message: self.message@ }
    }
}

impl View for Errors {
    type V = Seq<ErrorModel>;

    open spec fn view(&self) -> Seq<ErrorModel> {
        self.errors@.map_values(|e: Error| e@)
    }
}

impl Errors {
    /// An envelope that carries exactly one error.
    pub fn single(error: Error) -> (r: Errors)
        ensures
            r@ == seq![error@],
    {
        let mut errors: Vec<Error> = Vec::new();
        errors.push(error);
        let r = Errors { errors };
        assert(r@ =~= seq![error@]);
        r
    }
}

} // verus!
