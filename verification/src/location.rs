//! The Location authorization, without which the system blanks network names.

use vstd::prelude::*;

use crate::text;

verus! {

#[derive(Clone, Copy, Debug, PartialEq, Eq, Structural)]
pub enum LocationAuth {
    NotDetermined,
    Restricted,
    Denied,
    Authorized,
    Unknown,
}

/// How long one slice of the wait for an answer lasts.
pub const WAIT_SLICE_MILLIS: u64 = 500;

/// How many slices fit into the thirty seconds that the user has to answer.
pub const PROMPT_SLICES: u32 = 60;

/// The authorization that the system's status number stands for: 0 is not
/// determined, 1 restricted, 2 denied, 3 always, 4 while in use.
pub open spec fn auth_of(raw: i32) -> LocationAuth {
    if raw == 3 || raw == 4 {
        LocationAuth::Authorized
    } else if raw == 0 {
        LocationAuth::NotDetermined
    } else if raw == 1 {
        LocationAuth::Restricted
    } else if raw == 2 {
        LocationAuth::Denied
    } else {
        LocationAuth::Unknown
    }
}

/// What to tell the user about blanked names, where Location is the reason.
pub open spec fn hint_of(auth: LocationAuth) -> Option<Seq<char>> {
    match auth {
        LocationAuth::Authorized => None,
        LocationAuth::Denied => Some(
            "Location denied — grant in System Settings → Privacy & Security → Location Services"@,
        ),
        LocationAuth::Restricted => Some(
            "Location restricted by policy — SSIDs will be blank"@,
        ),
        LocationAuth::NotDetermined => Some(
            "Location not granted — run the bundled .app (scripts/bundle.sh) so the prompt fires"@,
        ),
        LocationAuth::Unknown => Some("Location status unknown — SSIDs may be redacted"@),
    }
}

impl LocationAuth {
    /// The authorization that the system's status number stands for.
    pub fn from_raw(raw: i32) -> (r: Self)
        ensures
            r == auth_of(raw),
    {
        if raw == 3 || raw == 4 {
            LocationAuth::Authorized
        } else if raw == 0 {
            LocationAuth::NotDetermined
        } else if raw == 1 {
            LocationAuth::Restricted
        } else if raw == 2 {
            LocationAuth::Denied
        } else {
            LocationAuth::Unknown
        }
    }

    pub fn is_authorized(self) -> (r: bool)
        ensures
            r == (self == LocationAuth::Authorized),
    {
        matches!(self, LocationAuth::Authorized)
    }
}

/// What to tell the user about blanked names. `None` means that everything is
/// in order.
pub fn redaction_hint(auth: LocationAuth) -> (r: Option<&'static str>)
    ensures
        text::opt_str(r) == hint_of(auth),
{
    match auth {
        LocationAuth::Authorized => None,
        LocationAuth::Denied => Some(
            "Location denied — grant in System Settings → Privacy & Security → Location Services",
        ),
        LocationAuth::Restricted => Some("Location restricted by policy — SSIDs will be blank"),
        LocationAuth::NotDetermined => Some(
            "Location not granted — run the bundled .app (scripts/bundle.sh) so the prompt fires",
        ),
        LocationAuth::Unknown => Some("Location status unknown — SSIDs may be redacted"),
    }
}

/// How many slices an answer is waited for, given the status at the start.
pub open spec fn slices_for(status: LocationAuth) -> u32 {
    if status == LocationAuth::NotDetermined {
        PROMPT_SLICES
    } else {
        1
    }
}

/// Another slice is due after one in which `status` was read, with `left` to
/// go.
pub open spec fn waits_on(status: LocationAuth, left: int) -> bool {
    status == LocationAuth::NotDetermined && left > 0
}

/// The wait for the user's answer to the authorization prompt.
#[derive(Clone, Copy, Debug, PartialEq, Eq, Structural)]
pub struct AuthWait {
    /// Slices that may still pass.
    pub slices: u32,
}

impl AuthWait {
    /// The wait that is due under the status at the start: the full prompt
    /// time where no answer was ever given, else a single slice.
    pub fn start(status: LocationAuth) -> (r: Self)
        ensures
            r.slices == slices_for(status),
            r.slices == if status == LocationAuth::NotDetermined {
                PROMPT_SLICES
            } else {
                1
            },
    {
        if matches!(status, LocationAuth::NotDetermined) {
            AuthWait { slices: PROMPT_SLICES }
        } else {
            AuthWait { slices: 1 }
        }
    }

    /// One slice has passed and `status` was read: whether another is due.
    /// The wait ends with the first status other than `NotDetermined`, and
    /// with its last slice.
    pub fn slice_passed(&mut self, status: LocationAuth) -> (again: bool)
        requires
            old(self).slices > 0,
        ensures
            final(self).slices == old(self).slices - 1,
            again == waits_on(status, final(self).slices as int),
            again == (status == LocationAuth::NotDetermined && final(self).slices > 0),
    {
        self.slices = self.slices - 1;
        matches!(status, LocationAuth::NotDetermined) && self.slices > 0
    }
}

/// The system's numbers for the two grants, always and while in use, and no
/// other, stand for an authorization; each of the other known numbers stands
/// for its own status.
pub proof fn only_a_grant_is_an_authorization(raw: i32)
    ensures
        auth_of(raw) is Authorized <==> raw == 3 || raw == 4,
        auth_of(raw) is NotDetermined <==> raw == 0,
        auth_of(raw) is Restricted <==> raw == 1,
        auth_of(raw) is Denied <==> raw == 2,
        auth_of(raw) is Unknown <==> raw < 0 || raw > 4,
{
}

/// There is something to tell about blanked names exactly where Location is
/// not granted, and it is something else for each reason.
pub proof fn a_missing_grant_is_explained(a: LocationAuth, b: LocationAuth)
    ensures
        hint_of(a) is None <==> a is Authorized,
        a != b ==> hint_of(a) != hint_of(b),
{
    let denied =
        "Location denied — grant in System Settings → Privacy & Security → Location Services"@;
    let restricted = "Location restricted by policy — SSIDs will be blank"@;
    let undecided =
        "Location not granted — run the bundled .app (scripts/bundle.sh) so the prompt fires"@;
    let unknown = "Location status unknown — SSIDs may be redacted"@;
    reveal_strlit(
        "Location denied — grant in System Settings → Privacy & Security → Location Services",
    );
    reveal_strlit("Location restricted by policy — SSIDs will be blank");
    reveal_strlit(
        "Location not granted — run the bundled .app (scripts/bundle.sh) so the prompt fires",
    );
    reveal_strlit("Location status unknown — SSIDs may be redacted");
    assert(denied[9] == 'd');
    assert(restricted[9] == 'r');
    assert(undecided[9] == 'n');
    assert(unknown[9] == 's');
}

/// The user has thirty seconds to answer the prompt, and the wait ends with
/// the answer. Where there was an answer before, nothing is waited for but one
/// slice.
pub proof fn the_user_has_half_a_minute_to_answer(status: LocationAuth, left: int)
    ensures
        status is NotDetermined ==> slices_for(status) * WAIT_SLICE_MILLIS == 30_000,
        !(status is NotDetermined) ==> slices_for(status) == 1,
        waits_on(status, left) <==> status is NotDetermined && left >= 1,
{
}

} // verus!
