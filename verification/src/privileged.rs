//! What the system's answers mean when a program is run as an administrator.

use vstd::prelude::*;

use crate::text;

verus! {

/// The user has dismissed the prompt.
pub const ERR_AUTHORIZATION_CANCELED: i32 = -60006;

/// The text holds a character that no argument may hold.
pub open spec fn has_nul(s: Seq<char>) -> bool {
    s.contains('\0')
}

fn holds_nul(s: &str) -> (r: bool)
    ensures
        r == has_nul(s@),
{
    let v = text::chars_of(s);
    let mut i: usize = 0;
    while i < v.len()
        invariant
            i <= v@.len(),
            v@ == s@,
            forall|k: int| 0 <= k < i ==> v@[k] != '\0',
        decreases v@.len() - i,
    {
        if v[i] == '\0' {
            assert(s@[i as int] == '\0');
            return true;
        }
        i += 1;
    }
    false
}

pub open spec fn some_nul(args: Seq<Seq<char>>) -> bool {
    exists|i: int| 0 <= i < args.len() && has_nul(#[trigger] args[i])
}

/// Whether a program and its arguments can be handed to the system.
pub fn check_arguments(tool: &str, args: &Vec<String>) -> (r: Result<(), String>)
    ensures
        match r {
            Ok(_) => !has_nul(tool@) && !some_nul(text::texts(args@)),
            Err(e) => if has_nul(tool@) {
                e@ == "tool path contains NUL"@
            } else {
                some_nul(text::texts(args@)) && e@ == "argument contains NUL"@
            },
        },
{
    if holds_nul(tool) {
        return Err("tool path contains NUL".to_owned());
    }
    let ghost all = text::texts(args@);
    let mut i: usize = 0;
    while i < args.len()
        invariant
            i <= args@.len(),
            all == text::texts(args@),
            !has_nul(tool@),
            forall|k: int| 0 <= k < i ==> !has_nul(#[trigger] all[k]),
        decreases args@.len() - i,
    {
        assert(all[i as int] == args@[i as int]@);
        if holds_nul(args[i].as_str()) {
            return Err("argument contains NUL".to_owned());
        }
        i += 1;
    }
    Ok(())
}

/// Whether the authorization could be created.
pub fn authorization_created(status: i32) -> (r: Result<(), String>)
    ensures
        match r {
            Ok(_) => status == 0,
            Err(e) => status != 0 && e@ == "AuthorizationCreate failed ("@ + text::signed_decimal(
                status as int,
            ) + ")"@,
        },
{
    if status == 0 {
        Ok(())
    } else {
        let digits = text::signed_text(status as i128);
        Err(text::cat3("AuthorizationCreate failed (", digits.as_str(), ")"))
    }
}

/// Whether the program could be run.
pub fn exec_as_root(status: i32) -> (r: Result<(), String>)
    ensures
        match r {
            Ok(_) => status == 0,
            Err(e) => status != 0 && e@ == if status == ERR_AUTHORIZATION_CANCELED {
                "admin authorization was canceled"@
            } else {
                "AuthorizationExecuteWithPrivileges failed ("@ + text::signed_decimal(
                    status as int,
                ) + ")"@
            },
        },
{
    if status == 0 {
        Ok(())
    } else if status == ERR_AUTHORIZATION_CANCELED {
        Err("admin authorization was canceled".to_owned())
    } else {
        let digits = text::signed_text(status as i128);
        Err(text::cat3("AuthorizationExecuteWithPrivileges failed (", digits.as_str(), ")"))
    }
}

/// What is handed to the system is refused exactly where it holds the
/// character that ends a text there.
pub proof fn only_a_nul_is_refused(before: Seq<char>, behind: Seq<char>, args: Seq<Seq<char>>)
    ensures
        has_nul(before + seq!['\0'] + behind),
        has_nul(before) || has_nul(behind) <==> has_nul(before + behind),
        some_nul(args.push(before)) <==> some_nul(args) || has_nul(before),
        !some_nul(Seq::<Seq<char>>::empty()),
{
    let marked = before + seq!['\0'] + behind;
    assert(marked[before.len() as int] == '\0');
    let both = before + behind;
    if has_nul(before) {
        let i = choose|i: int| 0 <= i < before.len() && before[i] == '\0';
        assert(both[i] == '\0');
    }
    if has_nul(behind) {
        let i = choose|i: int| 0 <= i < behind.len() && behind[i] == '\0';
        assert(both[before.len() + i] == '\0');
    }
    if has_nul(both) {
        let i = choose|i: int| 0 <= i < both.len() && both[i] == '\0';
        if i < before.len() {
            assert(before[i] == '\0');
        } else {
            assert(behind[i - before.len()] == '\0');
        }
    }
    let more = args.push(before);
    if some_nul(args) {
        let i = choose|i: int| 0 <= i < args.len() && has_nul(#[trigger] args[i]);
        assert(more[i] == args[i]);
    }
    if has_nul(before) {
        assert(more[args.len() as int] == before);
    }
    if some_nul(more) && !has_nul(before) {
        let i = choose|i: int| 0 <= i < more.len() && has_nul(#[trigger] more[i]);
        assert(args[i] == more[i]);
    }
}

} // verus!
