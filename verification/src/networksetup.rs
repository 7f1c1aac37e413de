//! The `networksetup` program: its arguments, and what its outcomes mean.

use vstd::prelude::*;

use crate::text;

verus! {

fn three(a: &str, b: &str, c: &str) -> (r: Vec<String>)
    ensures
        text::texts(r@) == seq![a@, b@, c@],
{
    let mut v: Vec<String> = Vec::new();
    v.push(a.to_owned());
    v.push(b.to_owned());
    v.push(c.to_owned());
    assert(text::texts(v@) =~= seq![a@, b@, c@]);
    v
}

/// The call that switches the radio on or off.
pub open spec fn power_call(iface: Seq<char>, on: bool) -> Seq<Seq<char>> {
    seq![
        "-setairportpower"@,
        iface,
        if on {
            "on"@
        } else {
            "off"@
        },
    ]
}

/// The call that joins a network.
pub open spec fn join_call(
    iface: Seq<char>,
    ssid: Seq<char>,
    password: Option<Seq<char>>,
) -> Seq<Seq<char>> {
    match password {
        Some(p) => seq!["-setairportnetwork"@, iface, ssid, p],
        None => seq!["-setairportnetwork"@, iface, ssid],
    }
}

/// The call that removes a preferred network.
pub open spec fn removal_call(iface: Seq<char>, ssid: Seq<char>) -> Seq<Seq<char>> {
    seq!["-removepreferredwirelessnetwork"@, iface, ssid]
}

/// The call that lists the preferred networks.
pub open spec fn list_call(iface: Seq<char>) -> Seq<Seq<char>> {
    seq!["-listpreferredwirelessnetworks"@, iface]
}

/// What an exit of the program means for an option.
pub open spec fn exited(option: Seq<char>, success: bool, status: Seq<char>) -> Result<
    (),
    Seq<char>,
> {
    if success {
        Ok(())
    } else {
        Err("networksetup "@ + option + " exited "@ + status)
    }
}

/// The arguments that switch the radio on or off.
pub fn set_power_args(iface: &str, on: bool) -> (r: Vec<String>)
    ensures
        text::texts(r@) == power_call(iface@, on),
        text::texts(r@) == seq![
            "-setairportpower"@,
            iface@,
            if on {
                "on"@
            } else {
                "off"@
            },
        ],
{
    let word = if on {
        "on"
    } else {
        "off"
    };
    three("-setairportpower", iface, word)
}

/// The arguments that list the preferred networks.
pub fn list_preferred_args(iface: &str) -> (r: Vec<String>)
    ensures
        text::texts(r@) == list_call(iface@),
        text::texts(r@) == seq!["-listpreferredwirelessnetworks"@, iface@],
{
    let mut v: Vec<String> = Vec::new();
    v.push("-listpreferredwirelessnetworks".to_owned());
    v.push(iface.to_owned());
    assert(text::texts(v@) =~= seq!["-listpreferredwirelessnetworks"@, iface@]);
    v
}

/// The arguments that join a network.
pub fn set_airport_network_args(iface: &str, ssid: &str, password: Option<&str>) -> (r: Vec<String>)
    ensures
        text::texts(r@) == join_call(iface@, ssid@, text::opt_str(password)),
        text::texts(r@) == match password {
            Some(p) => seq!["-setairportnetwork"@, iface@, ssid@, p@],
            None => seq!["-setairportnetwork"@, iface@, ssid@],
        },
{
    let mut v = three("-setairportnetwork", iface, ssid);
    if let Some(p) = password {
        let ghost before = text::texts(v@);
        v.push(p.to_owned());
        assert(text::texts(v@) =~= before.push(p@));
        assert(before.push(p@) =~= seq!["-setairportnetwork"@, iface@, ssid@, p@]);
    }
    v
}

/// The arguments that remove a preferred network.
pub fn remove_preferred_args(iface: &str, ssid: &str) -> (r: Vec<String>)
    ensures
        text::texts(r@) == removal_call(iface@, ssid@),
        text::texts(r@) == seq!["-removepreferredwirelessnetwork"@, iface@, ssid@],
{
    three("-removepreferredwirelessnetwork", iface, ssid)
}

/// The error where the program could not be run.
pub fn not_run(option: &str) -> (r: String)
    ensures
        r@ == "running networksetup "@ + option@,
{
    text::cat2("running networksetup ", option)
}

fn exit_outcome(option: &str, success: bool, status: &str) -> (r: Result<(), String>)
    ensures
        match r {
            Ok(_) => success,
            Err(e) => !success && e@ == "networksetup "@ + option@ + " exited "@ + status@,
        },
{
    if success {
        Ok(())
    } else {
        Err(text::cat4("networksetup ", option, " exited ", status))
    }
}

/// The outcome of switching the radio.
pub fn set_power(success: bool, status: &str) -> (r: Result<(), String>)
    ensures
        match r {
            Ok(_) => exited("-setairportpower"@, success, status@) is Ok,
            Err(e) => exited("-setairportpower"@, success, status@) == Err::<(), _>(e@),
        },
        match r {
            Ok(_) => success,
            Err(e) => !success && e@ == "networksetup "@ + "-setairportpower"@ + " exited "@
                + status@,
        },
{
    exit_outcome("-setairportpower", success, status)
}

/// The outcome of removing a preferred network.
pub fn remove_preferred(success: bool, status: &str) -> (r: Result<(), String>)
    ensures
        match r {
            Ok(_) => exited("-removepreferredwirelessnetwork"@, success, status@) is Ok,
            Err(e) => exited("-removepreferredwirelessnetwork"@, success, status@) == Err::<(), _>(e@),
        },
        match r {
            Ok(_) => success,
            Err(e) => !success && e@ == "networksetup "@ + "-removepreferredwirelessnetwork"@
                + " exited "@ + status@,
        },
{
    exit_outcome("-removepreferredwirelessnetwork", success, status)
}

/// The names in some lines: each trimmed, blank ones left out.
pub open spec fn names_in(lines: Seq<Seq<char>>) -> Seq<Seq<char>>
    decreases lines.len(),
{
    if lines.len() == 0 {
        seq![]
    } else {
        let before = names_in(lines.drop_last());
        let name = text::trim_of(lines.last());
        if name.len() > 0 {
            before.push(name)
        } else {
            before
        }
    }
}

/// The preferred networks that the program prints, below a headline.
pub open spec fn preferred_in(output: Seq<char>) -> Seq<Seq<char>> {
    let lines = text::lines_of(output);
    if lines.len() == 0 {
        seq![]
    } else {
        names_in(lines.skip(1))
    }
}

/// Reads the preferred networks out of what the program prints.
pub fn parse_preferred(output: &str) -> (r: Vec<String>)
    ensures
        text::texts(r@) == preferred_in(output@),
{
    let lines = text::lines(output);
    let ghost all = text::texts(lines@);
    let mut names: Vec<String> = Vec::new();
    assert(text::texts(names@) =~= seq![]);
    if lines.len() == 0 {
        return names;
    }
    let ghost body = all.skip(1);
    let mut i: usize = 1;
    assert(body.take(0) =~= Seq::<Seq<char>>::empty());
    while i < lines.len()
        invariant
            1 <= i <= lines@.len(),
            all == text::texts(lines@),
            body == all.skip(1),
            text::texts(names@) == names_in(body.take(i - 1)),
        decreases lines@.len() - i,
    {
        let name = text::trim(lines[i].as_str());
        assert(body.take(i as int).drop_last() =~= body.take(i - 1));
        assert(body.take(i as int).last() == lines@[i as int]@);
        let ghost before = text::texts(names@);
        if !name.as_str().is_empty() {
            names.push(name);
            assert(text::texts(names@) =~= before.push(name@));
        }
        i += 1;
    }
    assert(body.take(body.len() as int) =~= body);
    names
}

/// The outcome of listing the preferred networks.
pub fn list_preferred(success: bool, status: &str, stdout: &Vec<u8>) -> (r: Result<
    Vec<String>,
    String,
>)
    ensures
        match r {
            Ok(names) => success && text::texts(names@) == preferred_in(
                text::lossy_text(stdout@),
            ),
            Err(e) => !success && e@ == "networksetup "@ + "-listpreferredwirelessnetworks"@
                + " exited "@ + status@,
        },
{
    match exit_outcome("-listpreferredwirelessnetworks", success, status) {
        Ok(_) => Ok(parse_preferred(text::lossy(stdout).as_str())),
        Err(e) => Err(e),
    }
}

/// What is wrong with a join, if anything. The program exits well even where
/// the join failed, so what it prints decides.
pub open spec fn join_complaint(stdout: Seq<char>, stderr: Seq<char>) -> Option<Seq<char>> {
    let complaint = text::trim_of(stderr);
    if text::find_in(stdout, "Failed"@) is Some || complaint.len() > 0 {
        Some(
            if complaint.len() > 0 {
                complaint
            } else {
                text::trim_of(stdout)
            },
        )
    } else {
        None
    }
}

/// Reads the outcome of a join out of what the program prints.
pub fn read_join(stdout: &str, stderr: &str) -> (r: Result<(), String>)
    ensures
        match r {
            Ok(_) => join_complaint(stdout@, stderr@) is None,
            Err(e) => join_complaint(stdout@, stderr@) == Some(e@),
        },
{
    let complaint = text::trim(stderr);
    let quiet = complaint.as_str().is_empty();
    if text::contains(stdout, "Failed") || !quiet {
        Err(
            if quiet {
                text::trim(stdout)
            } else {
                complaint
            },
        )
    } else {
        Ok(())
    }
}

/// The outcome of a join.
pub fn set_airport_network(stdout: &Vec<u8>, stderr: &Vec<u8>) -> (r: Result<(), String>)
    ensures
        ({
            let complaint = join_complaint(
                text::lossy_text(stdout@),
                text::lossy_text(stderr@),
            );
            match r {
                Ok(_) => complaint is None,
                Err(e) => complaint == Some(e@),
            }
        }),
{
    read_join(text::lossy(stdout).as_str(), text::lossy(stderr).as_str())
}

/// The names that are listed are those below the headline, in their order,
/// each without the space around it; blank lines are left out.
pub proof fn preferred_networks_are_read_below_the_headline(
    headline: Seq<char>,
    names: Seq<Seq<char>>,
)
    requires
        !headline.contains('\n'),
        headline.len() > 0 ==> headline.last() != '\r',
        forall|i: int|
            0 <= i < names.len() ==> (#[trigger] names[i]).len() > 0 && !names[i].contains('\n')
                && !text::is_space(names[i][0]) && !text::is_space(names[i].last()),
    ensures
        preferred_in(text::terminated(seq![headline] + indented(names))) == names,
        preferred_in(text::terminated(seq![headline])) == Seq::<Seq<char>>::empty(),
{
    let all = seq![headline] + indented(names);
    assert forall|i: int| 0 <= i < all.len() implies !(#[trigger] all[i]).contains('\n') && (
    all[i].len() > 0 ==> all[i].last() != '\r') by {
        if i > 0 {
            let name = names[i - 1];
            assert(all[i] == seq!['\t'] + name);
            assert forall|k: int| 0 <= k < all[i].len() implies all[i][k] != '\n' by {
                if k > 0 {
                    assert(name.contains(name[k - 1]));
                }
            }
            assert(all[i].last() == name.last());
        }
    }
    text::lines_are_read_back(all);
    assert(all.skip(1) =~= indented(names));
    lemma_names_in(names);
    let alone = seq![headline];
    assert forall|i: int| 0 <= i < alone.len() implies !(#[trigger] alone[i]).contains('\n') && (
    alone[i].len() > 0 ==> alone[i].last() != '\r') by {
        assert(alone[i] == headline);
    }
    text::lines_are_read_back(alone);
    assert(alone.skip(1) =~= Seq::<Seq<char>>::empty());
}

/// Names, each behind a tab, as the program prints them.
pub open spec fn indented(names: Seq<Seq<char>>) -> Seq<Seq<char>> {
    Seq::new(names.len(), |i: int| seq!['\t'] + names[i])
}

proof fn lemma_names_in(names: Seq<Seq<char>>)
    requires
        forall|i: int|
            0 <= i < names.len() ==> (#[trigger] names[i]).len() > 0 && !text::is_space(names[i][0])
                && !text::is_space(names[i].last()),
    ensures
        names_in(indented(names)) == names,
    decreases names.len(),
{
    if names.len() > 0 {
        let init = names.drop_last();
        assert forall|i: int| 0 <= i < init.len() implies (#[trigger] init[i]).len() > 0
            && !text::is_space(init[i][0]) && !text::is_space(init[i].last()) by {
            assert(init[i] == names[i]);
        }
        lemma_names_in(init);
        assert(indented(names).drop_last() =~= indented(init));
        let last = names[names.len() - 1];
        assert(seq!['\t'] + last =~= seq!['\t'] + last + Seq::<char>::empty());
        text::trimming_takes_only_the_space_around(seq!['\t'], last, Seq::<char>::empty());
        assert(names_in(indented(names)) =~= names);
    } else {
        assert(names_in(indented(names)) =~= names);
    }
}

/// A line of blanks is no name.
pub proof fn a_blank_line_is_no_name(lines: Seq<Seq<char>>, blank: Seq<char>)
    requires
        text::all_space(blank),
    ensures
        names_in(lines.push(blank)) == names_in(lines),
{
    assert(lines.push(blank).drop_last() =~= lines);
    let none = Seq::<char>::empty();
    assert(blank =~= blank + none + none);
    text::trimming_takes_only_the_space_around(blank, none, none);
}

/// A join has failed exactly where the program says `Failed`, or complains of
/// anything; the complaint is quoted where there is one, and else what was
/// printed.
pub proof fn a_join_fails_where_the_program_says_so(stdout: Seq<char>, stderr: Seq<char>)
    ensures
        join_complaint(stdout, stderr) is None <==> text::trim_of(stderr).len() == 0 && forall|
            k: int,
        |
            0 <= k && k + 6 <= stdout.len() ==> #[trigger] stdout.subrange(k, k + 6) != "Failed"@,
        text::trim_of(stderr).len() > 0 ==> join_complaint(stdout, stderr) == Some(
            text::trim_of(stderr),
        ),
        join_complaint(stdout, stderr) is Some && text::trim_of(stderr).len() == 0
            ==> join_complaint(stdout, stderr) == Some(text::trim_of(stdout)),
{
    reveal_strlit("Failed");
    assert("Failed"@.len() == 6);
    text::the_first_place_is_found(stdout, "Failed"@, 0);
}

/// Every call names the interface first, and then what it is about: the new
/// state of the radio, or the network, and behind it the password where there
/// is one.
pub proof fn a_call_names_the_interface_and_the_network(
    iface: Seq<char>,
    ssid: Seq<char>,
    password: Seq<char>,
)
    ensures
        power_call(iface, true) == seq!["-setairportpower"@, iface, "on"@],
        power_call(iface, false) == seq!["-setairportpower"@, iface, "off"@],
        join_call(iface, ssid, None) == seq!["-setairportnetwork"@, iface, ssid],
        join_call(iface, ssid, Some(password)) == join_call(iface, ssid, None).push(password),
        removal_call(iface, ssid) == seq!["-removepreferredwirelessnetwork"@, iface, ssid],
        list_call(iface) == seq!["-listpreferredwirelessnetworks"@, iface],
{
}

/// A call has worked exactly where the program says so; otherwise the error
/// names the option and the exit.
pub proof fn a_failed_call_names_its_option(option: Seq<char>, status: Seq<char>)
    ensures
        exited(option, true, status) is Ok,
        exited(option, false, status) == Err::<(), _>(
            "networksetup "@ + option + " exited "@ + status,
        ),
{
}

} // verus!
