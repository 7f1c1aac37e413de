//! What the answers of the keychain mean.
//!
//! Wi-Fi passwords live in two places: the system's own items, which only an
//! administrator may read, and this program's cached copies, which it reads
//! back silently.

use vstd::prelude::*;

use crate::text;

verus! {

/// The status of a lookup that found no item.
pub const ERR_SEC_ITEM_NOT_FOUND: i32 = -25300;

/// A failed keychain operation: its status and the system's words for it.
#[derive(Debug)]
pub struct KeychainError {
    pub code: i32,
    pub message: String,
}

/// The password of a cached copy: none where none was ever cached, and an
/// error, with its context, where the copy cannot be read.
pub open spec fn cached_outcome(
    read: Result<Vec<u8>, KeychainError>,
    ssid: Seq<char>,
) -> Result<Option<Seq<char>>, Seq<char>> {
    match read {
        Ok(bytes) => Ok(Some(text::lossy_text(bytes@))),
        Err(e) => if e.code == ERR_SEC_ITEM_NOT_FOUND {
            Ok(None)
        } else {
            Err("cached password lookup for "@ + ssid + ": "@ + e.message@)
        },
    }
}

pub fn cached_password(read: Result<Vec<u8>, KeychainError>, ssid: &str) -> (r: Result<
    Option<String>,
    String,
>)
    ensures
        match r {
            Ok(found) => cached_outcome(read, ssid@) == Ok::<_, Seq<char>>(text::opt_text(found)),
            Err(e) => cached_outcome(read, ssid@) == Err::<Option<Seq<char>>, _>(e@),
        },
{
    match read {
        Ok(bytes) => Ok(Some(text::lossy(&bytes))),
        Err(e) => if e.code == ERR_SEC_ITEM_NOT_FOUND {
            Ok(None)
        } else {
            Err(text::cat4("cached password lookup for ", ssid, ": ", e.message.as_str()))
        },
    }
}

/// The outcome of removing a cached copy.
pub open spec fn forgotten(removed: Result<(), KeychainError>, ssid: Seq<char>) -> Result<
    (),
    Seq<char>,
> {
    match removed {
        Ok(_) => Ok(()),
        Err(e) => if e.code == ERR_SEC_ITEM_NOT_FOUND {
            Ok(())
        } else {
            Err("forget cached password for "@ + ssid + ": "@ + e.message@)
        },
    }
}

/// The password of the system's item.
pub open spec fn looked_up(read: Result<Vec<u8>, KeychainError>, ssid: Seq<char>) -> Result<
    Seq<char>,
    Seq<char>,
> {
    match read {
        Ok(bytes) => Ok(text::lossy_text(bytes@)),
        Err(_) => Err("system keychain lookup for "@ + ssid),
    }
}

/// What becomes of storing a cached copy.
pub open spec fn kept(stored: Result<(), KeychainError>, ssid: Seq<char>) -> Result<(), Seq<char>> {
    match stored {
        Ok(_) => Ok(()),
        Err(e) => Err("cache password for "@ + ssid + ": "@ + e.message@),
    }
}

/// The password of the system's item. The error names the lookup only; the
/// system's own words for it do not reach the user.
pub fn wifi_password(read: Result<Vec<u8>, KeychainError>, ssid: &str) -> (r: Result<String, String>)
    ensures
        match r {
            Ok(password) => looked_up(read, ssid@) == Ok::<_, Seq<char>>(password@),
            Err(e) => looked_up(read, ssid@) == Err::<Seq<char>, _>(e@),
        },
        match read {
            Ok(bytes) => r matches Ok(password) && password@ == text::lossy_text(bytes@),
            Err(_) => r matches Err(e) && e@ == "system keychain lookup for "@ + ssid@,
        },
{
    match read {
        Ok(bytes) => Ok(text::lossy(&bytes)),
        Err(_) => Err(text::cat2("system keychain lookup for ", ssid)),
    }
}

/// The outcome of storing a cached copy.
pub fn cache_password(stored: Result<(), KeychainError>, ssid: &str) -> (r: Result<(), String>)
    ensures
        match r {
            Ok(_) => kept(stored, ssid@) is Ok,
            Err(e) => kept(stored, ssid@) == Err::<(), _>(e@),
        },
        match stored {
            Ok(_) => r is Ok,
            Err(e) => r matches Err(m) && m@ == "cache password for "@ + ssid@ + ": "@
                + e.message@,
        },
{
    match stored {
        Ok(_) => Ok(()),
        Err(e) => Err(text::cat4("cache password for ", ssid, ": ", e.message.as_str())),
    }
}

/// The outcome of removing a cached copy. A copy that never was is no error.
pub fn forget_cached(removed: Result<(), KeychainError>, ssid: &str) -> (r: Result<(), String>)
    ensures
        match r {
            Ok(_) => forgotten(removed, ssid@) is Ok,
            Err(e) => forgotten(removed, ssid@) == Err::<(), _>(e@),
        },
        match removed {
            Ok(_) => r is Ok,
            Err(e) => if e.code == ERR_SEC_ITEM_NOT_FOUND {
                r is Ok
            } else {
                r matches Err(m) && m@ == "forget cached password for "@ + ssid@ + ": "@
                    + e.message@
            },
        },
{
    match removed {
        Ok(_) => Ok(()),
        Err(e) => if e.code == ERR_SEC_ITEM_NOT_FOUND {
            Ok(())
        } else {
            Err(text::cat4("forget cached password for ", ssid, ": ", e.message.as_str()))
        },
    }
}

/// A copy that was never made is no error, neither where it is read nor where
/// it is removed; a copy that is there is read as it was stored, and anything
/// else that the keychain says is an error that names the network and quotes
/// the keychain.
pub proof fn a_missing_copy_is_no_error(
    ssid: Seq<char>,
    bytes: Vec<u8>,
    error: KeychainError,
)
    ensures
        cached_outcome(Ok(bytes), ssid) == Ok::<_, Seq<char>>(
            Some(text::lossy_text(bytes@)),
        ),
        cached_outcome(Err(error), ssid) == Ok::<Option<Seq<char>>, Seq<char>>(None) <==> error.code
            == -25300,
        cached_outcome(Err(error), ssid) matches Err(e) ==> e == "cached password lookup for "@
            + ssid + ": "@ + error.message@,
        !(cached_outcome(Err(error), ssid) matches Ok(Some(_))),
        forgotten(Ok(()), ssid) is Ok,
        forgotten(Err(error), ssid) is Ok <==> error.code == -25300,
        forgotten(Err(error), ssid) matches Err(e) ==> e == "forget cached password for "@ + ssid
            + ": "@ + error.message@,
{
}

/// A password comes back as it was read, and a copy is kept exactly where the
/// system has stored it; every failure names the network. The system's words
/// are part of the error of a copy, and are no part of that of a lookup.
pub proof fn a_failure_of_the_keychain_names_the_network(
    bytes: Vec<u8>,
    a: KeychainError,
    b: KeychainError,
    ssid: Seq<char>,
)
    ensures
        looked_up(Ok(bytes), ssid) == Ok::<_, Seq<char>>(text::lossy_text(bytes@)),
        looked_up(Err(a), ssid) == Err::<Seq<char>, _>("system keychain lookup for "@ + ssid),
        looked_up(Err(a), ssid) == looked_up(Err(b), ssid),
        kept(Ok(()), ssid) is Ok,
        kept(Err(a), ssid) == Err::<(), _>("cache password for "@ + ssid + ": "@ + a.message@),
{
}

} // verus!
