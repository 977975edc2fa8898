use crate::object_id::RecordId;
use vstd::prelude::*;

pub use crate::seats::Seat;

verus! {

/// The seat map of a vehicle on a date, as handed back to a client.
#[derive(Clone, Debug)]
pub struct SeatAvailabilityResponse {
    pub travel_date: String,
    pub seats: Vec<Seat>,
}

/// The date asked for in a seat-map request, an opaque key.
#[derive(Clone, Debug)]
pub struct SeatDateQuery {
    pub date: String,
}

/// A stored user account. Times are milliseconds since the Unix epoch.
#[derive(Clone, Debug)]
pub struct User {
    pub id: Option<RecordId>,
    pub username: String,
    pub email: String,
    pub password: String,
    pub role: String,
    pub created_at: Option<i64>,
    pub updated_at: Option<i64>,
}

/// What a client is told of a user account.
#[derive(Clone, Debug)]
pub struct UserResponse {
    pub id: String,
    pub username: String,
    pub email: String,
    pub role: String,
}

/// The claims of a session token: the user's identifier in hexadecimal, the
/// user's role, and the expiry in seconds since the Unix epoch.
#[derive(Clone, Debug)]
pub struct Claims {
    pub sub: String,
    pub role: String,
    pub exp: usize,
}

/// A session token together with the account it was issued for.
#[derive(Clone, Debug)]
pub struct AuthResponse {
    pub token: String,
    pub user: UserResponse,
}

/// A request to open an account.
#[derive(Clone, Debug)]
pub struct RegisterRequest {
    pub username: String,
    pub email: String,
    pub password: String,
}

/// A request to sign in.
#[derive(Clone, Debug)]
pub struct LoginRequest {
    pub email: String,
    pub password: String,
}

/// A seat booking. `booking_date` is in milliseconds since the Unix epoch.
#[derive(Clone, Debug)]
pub struct Booking {
    pub id: Option<RecordId>,
    pub user_id: RecordId,
    pub bus_id: RecordId,
    pub seat_number: String,
    pub travel_date: String,
    pub booking_date: i64,
    pub status: String,
}

/// A request to book a seat.
#[derive(Clone, Debug)]
pub struct CreateBookingRequest {
    pub bus_id: String,
    pub seat_number: String,
    pub travel_date: String,
}

} // verus!
