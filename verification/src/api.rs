//! Wire shapes of the two presentation surfaces and the small decisions
//! they make: request and response records as plain values, the error
//! rendering, the query-limit clamp, and the batch cap.

use vstd::prelude::*;
use crate::errors::{spec_error_message, spec_error_status, AuthError};
use crate::session::AuthPayload;

verus! {

/// Login request body.
pub struct LoginRequest {
    pub username: String,
    pub password: String,
}

/// Signup request body.
pub struct SignupRequest {
    pub username: String,
    pub password: String,
}

/// What a successful signup or login reports back.
pub struct LoginResponse {
    pub token: String,
    pub username: String,
    pub is_admin: bool,
}

/// The error channel of every surface: a human-readable reason and an
/// HTTP-style status class.
pub struct ErrorResponse {
    pub error: String,
    pub status: u16,
}

/// Now-playing submission.
pub struct NowPlayingRequest {
    pub artist: String,
    pub track: String,
    pub album: Option<String>,
    pub album_artist: Option<String>,
    pub duration: Option<u64>,
    pub track_number: Option<u32>,
}

/// A completed-play submission.
pub struct ScrobbleRequest {
    pub artist: String,
    pub track: String,
    pub timestamp: u64,
    pub album: Option<String>,
    pub album_artist: Option<String>,
    pub duration: Option<u64>,
    pub track_number: Option<u32>,
}

/// What a stored scrobble reports back.
pub struct ScrobbleResponse {
    pub id: i64,
    pub artist: String,
    pub track: String,
    pub timestamp: i64,
}

/// Query parameters of the recent-plays listing.
pub struct RecentScrobsQuery {
    pub limit: Option<i64>,
}

/// Query parameters of the top-artists and top-tracks listings.
pub struct TopQuery {
    pub limit: Option<i64>,
}

/// A play, as the statistics surface reports it.
pub struct Scrob {
    pub id: i64,
    pub artist: String,
    pub track: String,
    pub album: Option<String>,
    pub timestamp: i64,
}

/// An artist with a play count.
pub struct TopArtist {
    pub name: String,
    pub count: i64,
}

/// A track with a play count.
pub struct TopTrack {
    pub artist: String,
    pub track: String,
    pub count: i64,
}

/// Privacy-settings update body.
pub struct PrivacyUpdate {
    pub is_private: bool,
}

/// Privacy-settings response.
pub struct PrivacyResponse {
    pub is_private: bool,
}

/// A row of the administrative user listing.
pub struct UserListItem {
    pub id: i64,
    pub username: String,
    pub is_admin: bool,
    pub created_at: i64,
    pub scrobble_count: i64,
}

/// The administrative view of one user.
pub struct UserDetail {
    pub id: i64,
    pub username: String,
    pub is_admin: bool,
    pub created_at: i64,
    pub scrobble_count: i64,
    pub last_scrobble: Option<i64>,
}

/// Admin request to grant or withdraw the admin privilege.
pub struct ToggleAdminRequest {
    pub is_admin: bool,
}

/// System-wide totals of the administrative statistics surface.
pub struct SystemStats {
    pub total_users: i64,
    pub total_scrobbles: i64,
    pub total_artists: i64,
    pub total_tracks: i64,
}

/// A user with a play count, in the administrative statistics.
pub struct TopUser {
    pub username: String,
    pub scrobble_count: i64,
}

/// The administrative statistics response.
pub struct StatsResponse {
    pub stats: SystemStats,
    pub top_users: Vec<TopUser>,
}

/// Render an error for the wire: its message and its status class.
pub fn error_response(e: &AuthError) -> (r: ErrorResponse)
    ensures
        r.error@ == spec_error_message(*e),
        r.status == spec_error_status(*e),
{
    ErrorResponse { error: e.message(), status: e.status() }
}

/// Render a successful signup or login for the wire: the raw token —
/// returned only here — with the username and the admin flag.
pub fn login_response(p: &AuthPayload) -> (r: LoginResponse)
    ensures
        r.token@ == p.token@,
        r.username@ == p.user.username@,
        r.is_admin == p.user.is_admin,
{
    LoginResponse {
        token: p.token.clone(),
        username: p.user.username.clone(),
        is_admin: p.user.is_admin,
    }
}

/// The effective limit of a listing: the requested value, or the
/// surface's fallback when absent, capped at 100.
pub open spec fn clamped_limit(requested: Option<i64>, fallback: i64) -> i64 {
    let wanted = match requested {
        Some(l) => l,
        None => fallback,
    };
    if wanted < 100 {
        wanted
    } else {
        100
    }
}

/// Clamp a listing's requested row count.
pub fn clamp_limit(requested: Option<i64>, fallback: i64) -> (r: i64)
    ensures
        r == clamped_limit(requested, fallback),
{
    let wanted = match requested {
        Some(l) => l,
        None => fallback,
    };
    if wanted < 100 {
        wanted
    } else {
        100
    }
}

/// Whether a batch submission is within the per-request cap of 50.
pub fn batch_within_limit(count: usize) -> (r: bool)
    ensures
        r == (count <= 50),
{
    count <= 50
}

} // verus!
