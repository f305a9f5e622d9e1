//! The profile of the user whose session a request carries.

use vstd::prelude::*;
use crate::clock::{now_millis, CLOCK_LIMIT_MS};
use crate::login::{find_user_by_id, first_with_id, User};
use crate::session::{session_valid, session_valid_at, SessionContext, SessionRecord};

verus! {

/// What a user's profile shows.
#[derive(Clone, Debug)]
pub struct ProfileData {
    pub name: String,
    pub school: String,
}

/// The profile a request is shown at instant `now`: none without a session,
/// with a session that does not authenticate its user, or when no user has
/// the session's identifier; else the name and school of the first user with
/// it.
pub open spec fn profile_view(
    ctx: SessionContext,
    sessions: Seq<SessionRecord>,
    users: Seq<User>,
    now: int,
) -> Option<ProfileData> {
    match ctx.current {
        None => None,
        Some(m) => if !session_valid(sessions, m.user_id, m.token@, now) {
            None
        } else {
            match first_with_id(users, m.user_id) {
                None => None,
                Some(i) => Some(ProfileData { name: users[i].name, school: users[i].school }),
            }
        },
    }
}

/// The profile of the user whose session the request carries, checked at the
/// instant `now`.
pub fn profile_at(
    ctx: &SessionContext,
    sessions: &Vec<SessionRecord>,
    users: &Vec<User>,
    now: i64,
) -> (r: Option<ProfileData>)
    ensures
        r == profile_view(*ctx, sessions@, users@, now as int),
{
    let model = match &ctx.current {
        None => {
            return None;
        },
        Some(m) => m,
    };
    if !session_valid_at(sessions, model.user_id, &model.token, now) {
        return None;
    }
    match find_user_by_id(users, model.user_id) {
        None => None,
        Some(i) => {
            let user = &users[i];
            Some(ProfileData { name: user.name.clone(), school: user.school.clone() })
        },
    }
}

/// The profile of the user whose session the request carries, checked now.
pub fn get_profile(ctx: &SessionContext, sessions: &Vec<SessionRecord>, users: &Vec<User>) -> (r:
    Option<ProfileData>)
    ensures
        exists|t: int|
            0 <= t < CLOCK_LIMIT_MS && r == #[trigger] profile_view(*ctx, sessions@, users@, t),
{
    let now = now_millis();
    profile_at(ctx, sessions, users, now)
}

} // verus!
