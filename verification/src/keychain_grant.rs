//! What the system's answers mean when this program is added to the access
//! list of a password item.

use vstd::prelude::*;

use crate::keychain;
use crate::text;

verus! {

/// The item exists, but a dialog would be needed to read it.
pub const ERR_SEC_INTERACTION_NOT_ALLOWED: i32 = -25308;

/// The item exists, but reading it was refused.
pub const ERR_SEC_AUTH_FAILED: i32 = -25293;

/// Whether the program is trusted for an item.
#[derive(Clone, Copy, Debug, PartialEq, Eq, Structural)]
pub enum ProbeResult {
    /// It can already read the item.
    AlreadyGranted,
    /// The item exists, but the program is not on its access list.
    NeedsGrant,
    /// There is no such item.
    NotFound,
}

/// What the status of a lookup says, if it says anything.
pub open spec fn probed(status: i32) -> Option<ProbeResult> {
    if status == 0 {
        Some(ProbeResult::AlreadyGranted)
    } else if status == keychain::ERR_SEC_ITEM_NOT_FOUND {
        Some(ProbeResult::NotFound)
    } else if status == ERR_SEC_INTERACTION_NOT_ALLOWED || status == ERR_SEC_AUTH_FAILED {
        Some(ProbeResult::NeedsGrant)
    } else {
        None
    }
}

fn with_status(words: &str, status: i32) -> (r: String)
    ensures
        r@ == words@ + " ("@ + text::signed_decimal(status as int) + ")"@,
{
    let digits = text::signed_text(status as i128);
    text::cat4(words, " (", digits.as_str(), ")")
}

/// What the status of a lookup without any dialog says.
pub fn probe(status: i32) -> (r: Result<ProbeResult, String>)
    ensures
        match r {
            Ok(p) => probed(status) == Some(p),
            Err(e) => probed(status) is None && e@ == "keychain probe failed"@ + " ("@
                + text::signed_decimal(status as int) + ")"@,
        },
{
    if status == 0 {
        Ok(ProbeResult::AlreadyGranted)
    } else if status == keychain::ERR_SEC_ITEM_NOT_FOUND {
        Ok(ProbeResult::NotFound)
    } else if status == ERR_SEC_INTERACTION_NOT_ALLOWED || status == ERR_SEC_AUTH_FAILED {
        Ok(ProbeResult::NeedsGrant)
    } else {
        Err(with_status("keychain probe failed", status))
    }
}

/// A step on the way to a new access list.
#[derive(Clone, Copy, Debug, PartialEq, Eq, Structural)]
pub enum AclStep {
    OpenKeychain,
    Locate,
    CreateApplication,
    CopyAccess,
    /// Fails also where no list comes back.
    CopyList { null: bool },
    SetAccess,
}

pub open spec fn step_words(step: AclStep) -> Seq<char> {
    match step {
        AclStep::OpenKeychain => "SecKeychainOpen failed"@,
        AclStep::Locate => "locate item failed"@,
        AclStep::CreateApplication => "SecTrustedApplicationCreateFromPath failed"@,
        AclStep::CopyAccess => "SecKeychainItemCopyAccess failed"@,
        AclStep::CopyList { .. } => "SecAccessCopyACLList failed"@,
        AclStep::SetAccess => "SecKeychainItemSetAccess failed"@,
    }
}

/// What is wrong with a step, if anything.
pub open spec fn step_error(step: AclStep, status: i32) -> Option<Seq<char>> {
    if step == AclStep::Locate && status == keychain::ERR_SEC_ITEM_NOT_FOUND {
        Some("no saved password"@)
    } else if status != 0 || step == (AclStep::CopyList { null: true }) {
        Some(step_words(step) + " ("@ + text::signed_decimal(status as int) + ")"@)
    } else {
        None
    }
}

/// Whether to go on after a step.
pub fn check_step(step: AclStep, status: i32) -> (r: Result<(), String>)
    ensures
        match r {
            Ok(_) => step_error(step, status) is None,
            Err(e) => step_error(step, status) == Some(e@),
        },
{
    if matches!(step, AclStep::Locate) && status == keychain::ERR_SEC_ITEM_NOT_FOUND {
        return Err("no saved password".to_owned());
    }
    let missing = matches!(step, AclStep::CopyList { null: true });
    if status != 0 || missing {
        let words = match step {
            AclStep::OpenKeychain => "SecKeychainOpen failed",
            AclStep::Locate => "locate item failed",
            AclStep::CreateApplication => "SecTrustedApplicationCreateFromPath failed",
            AclStep::CopyAccess => "SecKeychainItemCopyAccess failed",
            AclStep::CopyList { .. } => "SecAccessCopyACLList failed",
            AclStep::SetAccess => "SecKeychainItemSetAccess failed",
        };
        return Err(with_status(words, status));
    }
    Ok(())
}

/// An entry is extended.
pub open spec fn is_extended(copy_status: i32, names_applications: bool) -> bool {
    copy_status == 0 && names_applications
}

/// Whether an entry is to be extended: its contents could be read, and it
/// names applications. One that names none admits every application.
pub fn extends_entry(copy_status: i32, names_applications: bool) -> (r: bool)
    ensures
        r == is_extended(copy_status, names_applications),
        r == (copy_status == 0 && names_applications),
{
    copy_status == 0 && names_applications
}

/// One of the statuses is a success.
pub open spec fn any_success(statuses: Seq<i32>) -> bool {
    exists|i: int| 0 <= i < statuses.len() && statuses[i] == 0
}

/// The outcome of extending the entries, given the status of each attempt: one
/// success is enough.
pub fn add_to_acl(statuses: &Vec<i32>) -> (r: Result<(), String>)
    ensures
        match r {
            Ok(_) => any_success(statuses@),
            Err(e) => !any_success(statuses@) && e@
                == "no editable ACL entry found for this item"@,
        },
{
    let mut i: usize = 0;
    while i < statuses.len()
        invariant
            i <= statuses@.len(),
            forall|k: int| 0 <= k < i ==> statuses@[k] != 0,
        decreases statuses@.len() - i,
    {
        if statuses[i] == 0 {
            assert(statuses@[i as int] == 0);
            return Ok(());
        }
        i += 1;
    }
    Err("no editable ACL entry found for this item".to_owned())
}

/// A lookup without a dialog tells whether the program may read an item
/// already, needs to be let in, or finds no item; any other answer tells
/// nothing.
pub proof fn a_probe_tells_the_three_cases(status: i32)
    ensures
        probed(status) == Some(ProbeResult::AlreadyGranted) <==> status == 0,
        probed(status) == Some(ProbeResult::NotFound) <==> status == -25300,
        probed(status) == Some(ProbeResult::NeedsGrant) <==> status == -25308 || status == -25293,
        probed(status) is None <==> status != 0 && status != -25300 && status != -25308 && status
            != -25293,
{
}

/// A step is passed exactly where the system reports success, and where a list
/// that was asked for has come back. An item that is not there has no saved
/// password.
pub proof fn a_step_is_passed_only_by_success(step: AclStep, status: i32)
    ensures
        step_error(step, status) is None <==> status == 0 && !(step matches AclStep::CopyList {
            null: true,
        }),
        step is Locate && status == -25300 ==> step_error(step, status) == Some(
            "no saved password"@,
        ),
        step_error(step, status) is Some && !(step is Locate && status == -25300) ==> step_error(
            step,
            status,
        ) == Some(step_words(step) + " ("@ + text::signed_decimal(status as int) + ")"@),
{
}

/// Every step has words of its own for its failure.
pub proof fn a_failed_step_is_named(a: AclStep, b: AclStep)
    requires
        !(a is CopyList && b is CopyList),
    ensures
        a != b ==> step_words(a) != step_words(b),
{
    reveal_strlit("SecKeychainOpen failed");
    reveal_strlit("locate item failed");
    reveal_strlit("SecTrustedApplicationCreateFromPath failed");
    reveal_strlit("SecKeychainItemCopyAccess failed");
    reveal_strlit("SecAccessCopyACLList failed");
    reveal_strlit("SecKeychainItemSetAccess failed");
    assert("SecKeychainOpen failed"@.len() == 22);
    assert("locate item failed"@.len() == 18);
    assert("SecTrustedApplicationCreateFromPath failed"@.len() == 42);
    assert("SecKeychainItemCopyAccess failed"@.len() == 32);
    assert("SecAccessCopyACLList failed"@.len() == 27);
    assert("SecKeychainItemSetAccess failed"@.len() == 31);
}

/// An entry that names no application is left as it is, and so is one that
/// could not be read; every other one is extended.
pub proof fn an_entry_for_everyone_is_left_alone(copy_status: i32, names_applications: bool)
    ensures
        !is_extended(copy_status, false),
        copy_status != 0 ==> !is_extended(copy_status, names_applications),
        is_extended(0, true),
{
}

/// One success is enough, wherever it comes; none is too few.
pub proof fn one_extended_entry_is_enough(before: Seq<i32>, status: i32, after: Seq<i32>)
    ensures
        any_success(before + seq![0i32] + after),
        !any_success(Seq::<i32>::empty()),
        status != 0 ==> any_success(before.push(status)) == any_success(before),
{
    let all = before + seq![0i32] + after;
    assert(all[before.len() as int] == 0);
    let longer = before.push(status);
    if any_success(before) {
        let i = choose|i: int| 0 <= i < before.len() && before[i] == 0;
        assert(longer[i] == 0);
    }
    if status != 0 && any_success(longer) {
        let i = choose|i: int| 0 <= i < longer.len() && longer[i] == 0;
        assert(before[i] == 0);
    }
}

} // verus!
