use vstd::prelude::*;

verus! {

/// The envelope of every request body: the payload under `data`.
pub struct RequestBody<T> {
    pub data: T,
}

/// A request naming a user by identifier text.
pub struct GetUserBody {
    pub id: String,
}

/// A purchase of `amount` credits by the user with identifier text `id`.
pub struct CreatePaymentBody {
    pub id: String,
    pub amount: i32,
}

} // verus!
