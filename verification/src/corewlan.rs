//! What the Wi-Fi hardware reports, as plain values.

use vstd::prelude::*;

use crate::signal::{self, HasSignal};
use crate::text;

verus! {

/// How a network protects its traffic.
#[derive(Clone, Copy, Debug, PartialEq, Eq, Structural)]
pub enum Security {
    Open,
    Wep,
    WpaPersonal,
    Wpa2Personal,
    Wpa3Personal,
    WpaEnterprise,
    Wpa2Enterprise,
    Wpa3Enterprise,
    Unknown,
}

/// One network of a scan.
#[derive(Debug)]
pub struct ScannedNetwork {
    pub ssid: Option<String>,
    pub bssid: Option<String>,
    /// Received signal strength in dBm; larger is stronger.
    pub rssi: isize,
    pub channel: Option<u32>,
    pub security: Security,
}

/// What the interface is doing.
#[derive(Debug)]
pub struct InterfaceState {
    pub name: String,
    pub powered: bool,
    pub hw_address: Option<String>,
    pub ssid: Option<String>,
    pub bssid: Option<String>,
    pub rssi: isize,
    pub noise: isize,
    /// The transmit rate in Mbit/s, as the bit pattern of a double.
    pub tx_rate_bits: u64,
    pub channel: Option<u32>,
}

/// Which securities a network answers to.
#[derive(Clone, Copy, Debug)]
pub struct SupportedSecurity {
    pub none: bool,
    pub wpa3_enterprise: bool,
    pub wpa2_enterprise: bool,
    pub wpa_enterprise: bool,
    pub wpa3_personal: bool,
    pub wpa2_personal: bool,
    pub wpa_personal: bool,
    pub wep: bool,
}

impl Clone for ScannedNetwork {
    fn clone(&self) -> (r: Self)
        ensures
            r == *self,
    {
        ScannedNetwork {
            ssid: self.ssid.clone(),
            bssid: self.bssid.clone(),
            rssi: self.rssi,
            channel: self.channel,
            security: self.security,
        }
    }
}

impl Clone for InterfaceState {
    fn clone(&self) -> (r: Self)
        ensures
            r == *self,
    {
        InterfaceState {
            name: self.name.clone(),
            powered: self.powered,
            hw_address: self.hw_address.clone(),
            ssid: self.ssid.clone(),
            bssid: self.bssid.clone(),
            rssi: self.rssi,
            noise: self.noise,
            tx_rate_bits: self.tx_rate_bits,
            channel: self.channel,
        }
    }
}

impl HasSignal for ScannedNetwork {
    open spec fn signal(&self) -> int {
        self.rssi as int
    }

    fn read_signal(&self) -> (r: i128) {
        self.rssi as i128
    }
}

impl<'a> HasSignal for &'a ScannedNetwork {
    open spec fn signal(&self) -> int {
        self.rssi as int
    }

    fn read_signal(&self) -> (r: i128) {
        self.rssi as i128
    }
}

impl ScannedNetwork {
    /// The network carries the name `ssid`.
    pub open spec fn is_named(&self, ssid: Seq<char>) -> bool {
        text::opt_text(self.ssid) == Some(ssid)
    }

    /// The network shows no name: it has none, or an empty one.
    pub open spec fn is_blank(&self) -> bool {
        match self.ssid {
            Some(s) => s@.len() == 0,
            None => true,
        }
    }

    /// Whether the network carries the name `ssid`.
    pub fn named(&self, ssid: &str) -> (r: bool)
        ensures
            r == self.is_named(ssid@),
    {
        match &self.ssid {
            Some(s) => text::same_text(s.as_str(), ssid),
            None => false,
        }
    }

    /// Whether the network shows no name.
    pub fn blank(&self) -> (r: bool)
        ensures
            r == self.is_blank(),
    {
        match &self.ssid {
            Some(s) => s.as_str().is_empty(),
            None => true,
        }
    }
}

/// The networks of a scan are copied unchanged.
pub fn copy_networks(networks: &Vec<ScannedNetwork>) -> (r: Vec<ScannedNetwork>)
    ensures
        r@ == networks@,
{
    let r = networks.clone();
    proof {
        assert forall|i: int| 0 <= i < networks@.len() implies r@[i] == networks@[i] by {
            assert(cloned::<ScannedNetwork>(networks@[i], r@[i]));
        }
        assert(r@ =~= networks@);
    }
    r
}

/// The first network that carries the name `ssid`, if there is one.
pub open spec fn first_named(networks: Seq<ScannedNetwork>, ssid: Seq<char>) -> Option<
    ScannedNetwork,
>
    decreases networks.len(),
{
    if networks.len() == 0 {
        None
    } else if networks[0].is_named(ssid) {
        Some(networks[0])
    } else {
        first_named(networks.skip(1), ssid)
    }
}

/// The first network that carries the name `ssid`.
pub fn find_named<'a>(networks: &'a Vec<ScannedNetwork>, ssid: &str) -> (r: Option<
    &'a ScannedNetwork,
>)
    ensures
        match r {
            Some(n) => first_named(networks@, ssid@) == Some(*n),
            None => first_named(networks@, ssid@) is None,
        },
{
    let mut i: usize = 0;
    assert(networks@.skip(0) =~= networks@);
    while i < networks.len()
        invariant
            i <= networks@.len(),
            first_named(networks@.skip(i as int), ssid@) == first_named(networks@, ssid@),
        decreases networks@.len() - i,
    {
        assert(networks@.skip(i as int)[0] == networks@[i as int]);
        assert(networks@.skip(i as int).skip(1) =~= networks@.skip(i + 1));
        if networks[i].named(ssid) {
            return Some(&networks[i]);
        }
        i += 1;
    }
    None
}

/// A name is found among the networks exactly when one of them carries it,
/// and what is found carries it.
pub proof fn a_name_is_found_exactly_where_it_is_carried(networks: Seq<ScannedNetwork>, ssid: Seq<char>)
    ensures
        first_named(networks, ssid) is Some <==> exists|i: int|
            0 <= i < networks.len() && (#[trigger] networks[i]).is_named(ssid),
        first_named(networks, ssid) matches Some(n) ==> n.is_named(ssid) && networks.contains(n),
    decreases networks.len(),
{
    if networks.len() > 0 {
        let rest = networks.skip(1);
        a_name_is_found_exactly_where_it_is_carried(rest, ssid);
        if networks[0].is_named(ssid) {
        } else {
            if exists|i: int| 0 <= i < networks.len() && (#[trigger] networks[i]).is_named(ssid) {
                let i = choose|i: int|
                    0 <= i < networks.len() && (#[trigger] networks[i]).is_named(ssid);
                assert(rest[i - 1] == networks[i]);
            }
            if first_named(rest, ssid) is Some {
                let i = choose|i: int|
                    0 <= i < rest.len() && (#[trigger] rest[i]).is_named(ssid);
                assert(networks[i + 1] == rest[i]);
                let n = first_named(rest, ssid)->0;
                let k = choose|k: int| 0 <= k < rest.len() && rest[k] == n;
                assert(networks[k + 1] == n);
            }
        }
    }
}

/// The security to show for a network that answers to several: the strongest
/// enterprise mode first, then the strongest personal mode. A network that
/// answers to no protection at all counts as open.
pub open spec fn security_of(s: SupportedSecurity) -> Security {
    if s.none {
        Security::Open
    } else if s.wpa3_enterprise {
        Security::Wpa3Enterprise
    } else if s.wpa2_enterprise {
        Security::Wpa2Enterprise
    } else if s.wpa_enterprise {
        Security::WpaEnterprise
    } else if s.wpa3_personal {
        Security::Wpa3Personal
    } else if s.wpa2_personal {
        Security::Wpa2Personal
    } else if s.wpa_personal {
        Security::WpaPersonal
    } else if s.wep {
        Security::Wep
    } else {
        Security::Unknown
    }
}

pub fn detect_security(s: SupportedSecurity) -> (r: Security)
    ensures
        r == security_of(s),
{
    if s.none {
        Security::Open
    } else if s.wpa3_enterprise {
        Security::Wpa3Enterprise
    } else if s.wpa2_enterprise {
        Security::Wpa2Enterprise
    } else if s.wpa_enterprise {
        Security::WpaEnterprise
    } else if s.wpa3_personal {
        Security::Wpa3Personal
    } else if s.wpa2_personal {
        Security::Wpa2Personal
    } else if s.wpa_personal {
        Security::WpaPersonal
    } else if s.wep {
        Security::Wep
    } else {
        Security::Unknown
    }
}

/// The name that raw name bytes stand for: none where there are no bytes or
/// where they are not valid UTF-8.
pub open spec fn decoded_name(bytes: Seq<u8>) -> Option<Seq<char>> {
    if bytes.len() > 0 && vstd::utf8::valid_utf8(bytes) {
        Some(vstd::utf8::decode_utf8(bytes))
    } else {
        None
    }
}

/// Decodes raw name bytes.
pub fn ns_data_to_string(bytes: Vec<u8>) -> (r: Option<String>)
    ensures
        text::opt_text(r) == decoded_name(bytes@),
{
    if bytes.is_empty() {
        return None;
    }
    match text::utf8_text(bytes) {
        Ok(s) => Some(s),
        Err(_) => None,
    }
}

/// The name to show for a network: the one it reports, else the one that its
/// raw name bytes decode to.
pub fn visible_name(reported: Option<String>, data: Option<Vec<u8>>) -> (r: Option<String>)
    ensures
        text::opt_text(r) == name_of(reported, data),
{
    match reported {
        Some(s) => Some(s),
        None => match data {
            Some(bytes) => ns_data_to_string(bytes),
            None => None,
        },
    }
}

/// The networks of a scan, strongest first.
pub fn sort_networks(networks: Vec<ScannedNetwork>) -> (r: Vec<ScannedNetwork>)
    ensures
        r@ == signal::strongest_first(networks@),
{
    signal::sort_strongest_first(networks)
}

/// A network as the system reports it.
#[derive(Debug)]
pub struct RawNetwork {
    pub ssid: Option<String>,
    /// The bytes of the name, which are there even where the name is withheld.
    pub ssid_data: Option<Vec<u8>>,
    pub bssid: Option<String>,
    pub rssi: isize,
    pub channel: Option<isize>,
    pub supported: SupportedSecurity,
}

/// The name that is shown, given the reported one and the bytes of the name.
pub open spec fn name_of(reported: Option<String>, data: Option<Vec<u8>>) -> Option<Seq<char>> {
    match reported {
        Some(s) => Some(s@),
        None => match data {
            Some(bytes) => decoded_name(bytes@),
            None => None,
        },
    }
}

fn channel_number(channel: Option<isize>) -> (r: Option<u32>)
    ensures
        r == (match channel {
            Some(c) => Some(c as u32),
            None => None,
        }),
{
    match channel {
        Some(c) => Some(
            #[verifier::truncate]
            (c as u32),
        ),
        None => None,
    }
}

/// A network as a mathematical value.
#[verifier::ext_equal]
pub struct NetworkView {
    pub ssid: Option<Seq<char>>,
    pub bssid: Option<Seq<char>>,
    pub rssi: int,
    pub channel: Option<u32>,
    pub security: Security,
}

impl View for ScannedNetwork {
    type V = NetworkView;

    open spec fn view(&self) -> NetworkView {
        NetworkView {
            ssid: text::opt_text(self.ssid),
            bssid: text::opt_text(self.bssid),
            rssi: self.rssi as int,
            channel: self.channel,
            security: self.security,
        }
    }
}

/// The number of a channel.
pub open spec fn channel_of(channel: Option<isize>) -> Option<u32> {
    match channel {
        Some(c) => Some(c as u32),
        None => None,
    }
}

/// A network, out of what the system reports.
pub open spec fn scanned_from(raw: RawNetwork) -> NetworkView {
    NetworkView {
        ssid: name_of(raw.ssid, raw.ssid_data),
        bssid: text::opt_text(raw.bssid),
        rssi: raw.rssi as int,
        channel: channel_of(raw.channel),
        security: security_of(raw.supported),
    }
}

/// A network, out of what the system reports.
pub fn network_to_scanned(raw: RawNetwork) -> (r: ScannedNetwork)
    ensures
        r@ == scanned_from(raw),
        text::opt_text(r.ssid) == name_of(raw.ssid, raw.ssid_data),
        r.bssid == raw.bssid,
        r.rssi == raw.rssi,
        r.channel == (match raw.channel {
            Some(c) => Some(c as u32),
            None => None,
        }),
        r.security == security_of(raw.supported),
{
    ScannedNetwork {
        ssid: visible_name(raw.ssid, raw.ssid_data),
        bssid: raw.bssid,
        rssi: raw.rssi,
        channel: channel_number(raw.channel),
        security: detect_security(raw.supported),
    }
}

/// An interface as the system reports it.
#[derive(Debug)]
pub struct RawInterface {
    pub name: Option<String>,
    pub powered: bool,
    pub hw_address: Option<String>,
    pub ssid: Option<String>,
    pub ssid_data: Option<Vec<u8>>,
    pub bssid: Option<String>,
    pub rssi: isize,
    pub noise: isize,
    pub tx_rate_bits: u64,
    pub channel: Option<isize>,
}

/// What an interface is doing, as a mathematical value.
#[verifier::ext_equal]
pub struct StateView {
    pub name: Seq<char>,
    pub powered: bool,
    pub hw_address: Option<Seq<char>>,
    pub ssid: Option<Seq<char>>,
    pub bssid: Option<Seq<char>>,
    pub rssi: int,
    pub noise: int,
    pub tx_rate_bits: u64,
    pub channel: Option<u32>,
}

impl View for InterfaceState {
    type V = StateView;

    open spec fn view(&self) -> StateView {
        StateView {
            name: self.name@,
            powered: self.powered,
            hw_address: text::opt_text(self.hw_address),
            ssid: text::opt_text(self.ssid),
            bssid: text::opt_text(self.bssid),
            rssi: self.rssi as int,
            noise: self.noise as int,
            tx_rate_bits: self.tx_rate_bits,
            channel: self.channel,
        }
    }
}

/// What the interface is doing, out of what the system reports.
pub open spec fn state_from(raw: RawInterface) -> StateView {
    StateView {
        name: match raw.name {
            Some(n) => n@,
            None => seq![],
        },
        powered: raw.powered,
        hw_address: text::opt_text(raw.hw_address),
        ssid: name_of(raw.ssid, raw.ssid_data),
        bssid: text::opt_text(raw.bssid),
        rssi: raw.rssi as int,
        noise: raw.noise as int,
        tx_rate_bits: raw.tx_rate_bits,
        channel: channel_of(raw.channel),
    }
}

/// What the interface is doing, out of what the system reports.
pub fn interface_state(raw: RawInterface) -> (r: InterfaceState)
    ensures
        r@ == state_from(raw),
        r.name@ == (match raw.name {
            Some(n) => n@,
            None => seq![],
        }),
        r.powered == raw.powered,
        r.hw_address == raw.hw_address,
        text::opt_text(r.ssid) == name_of(raw.ssid, raw.ssid_data),
        r.bssid == raw.bssid,
        r.rssi == raw.rssi,
        r.noise == raw.noise,
        r.tx_rate_bits == raw.tx_rate_bits,
        r.channel == (match raw.channel {
            Some(c) => Some(c as u32),
            None => None,
        }),
{
    InterfaceState {
        name: match raw.name {
            Some(n) => n,
            None => String::new(),
        },
        powered: raw.powered,
        hw_address: raw.hw_address,
        ssid: visible_name(raw.ssid, raw.ssid_data),
        bssid: raw.bssid,
        rssi: raw.rssi,
        noise: raw.noise,
        tx_rate_bits: raw.tx_rate_bits,
        channel: channel_number(raw.channel),
    }
}

/// The name of an interface, or a mark where the system gives none.
pub open spec fn name_or_mark(reported: Option<Seq<char>>) -> Seq<char> {
    match reported {
        Some(n) => n,
        None => "?"@,
    }
}

/// The name of an interface, where the system gives none.
pub fn interface_name(reported: Option<String>) -> (r: String)
    ensures
        r@ == name_or_mark(text::opt_text(reported)),
        r@ == (match reported {
            Some(n) => n@,
            None => "?"@,
        }),
{
    match reported {
        Some(n) => n,
        None => "?".to_owned(),
    }
}

/// What was attempted with the interface.
#[derive(Clone, Copy, Debug, PartialEq, Eq, Structural)]
pub enum Attempt {
    SetPower,
    Scan,
    DirectedScan,
    Associate,
    EnterpriseAssociate,
}

pub open spec fn attempt_words(attempt: Attempt) -> Seq<char> {
    match attempt {
        Attempt::SetPower => "setPower failed: "@,
        Attempt::Scan => "scan failed: "@,
        Attempt::DirectedScan => "directed scan failed: "@,
        Attempt::Associate => "associate failed: "@,
        Attempt::EnterpriseAssociate => "enterprise associate failed: "@,
    }
}

/// The error of an attempt, with the system's words for it.
pub fn attempt_error(attempt: Attempt, words: &str) -> (r: String)
    ensures
        r@ == attempt_words(attempt) + words@,
{
    let front = match attempt {
        Attempt::SetPower => "setPower failed: ",
        Attempt::Scan => "scan failed: ",
        Attempt::DirectedScan => "directed scan failed: ",
        Attempt::Associate => "associate failed: ",
        Attempt::EnterpriseAssociate => "enterprise associate failed: ",
    };
    text::cat2(front, words)
}

/// The error where a network does not answer.
pub fn not_visible(ssid: &str) -> (r: String)
    ensures
        r@ == "network '"@ + ssid@ + "' not visible — too far, wrong band, or radio off"@,
{
    text::cat3("network '", ssid, "' not visible — too far, wrong band, or radio off")
}

/// The error where the machine has no interface.
pub fn no_interface() -> (r: String)
    ensures
        r@ == "no Wi-Fi interface available"@,
{
    "no Wi-Fi interface available".to_owned()
}

// ---------------------------------------------------------------------------
// Laws.
// ---------------------------------------------------------------------------

/// A network is shown as open exactly where it answers to no protection, and
/// as unknown exactly where it answers to nothing. Any other security that is
/// shown is one that the network answers to, and it answers to none that comes
/// before it: enterprise modes come before personal ones, later generations
/// before earlier ones, and WEP comes last.
pub proof fn a_network_shows_the_best_security_it_answers_to(s: SupportedSecurity)
    ensures
        security_of(s) is Open <==> s.none,
        security_of(s) is Unknown <==> !(s.none || s.wpa3_enterprise || s.wpa2_enterprise
            || s.wpa_enterprise || s.wpa3_personal || s.wpa2_personal || s.wpa_personal || s.wep),
        security_of(s) is Wpa3Enterprise ==> s.wpa3_enterprise,
        security_of(s) is Wpa2Enterprise ==> s.wpa2_enterprise && !s.wpa3_enterprise,
        security_of(s) is WpaEnterprise ==> s.wpa_enterprise && !s.wpa3_enterprise
            && !s.wpa2_enterprise,
        security_of(s) is Wpa3Personal ==> s.wpa3_personal,
        security_of(s) is Wpa2Personal ==> s.wpa2_personal && !s.wpa3_personal,
        security_of(s) is WpaPersonal ==> s.wpa_personal && !s.wpa3_personal && !s.wpa2_personal,
        security_of(s) is Wep ==> s.wep && !s.wpa3_personal && !s.wpa2_personal && !s.wpa_personal,
        !s.none ==> ((security_of(s) is Wpa3Enterprise || security_of(s) is Wpa2Enterprise
            || security_of(s) is WpaEnterprise) <==> (s.wpa3_enterprise || s.wpa2_enterprise
            || s.wpa_enterprise)),
{
}

/// Every part of a network is taken from the same part of the report: a change
/// of one part of the report is a change of that part alone.
pub proof fn a_network_keeps_what_was_reported(raw: RawNetwork)
    ensures
        scanned_from(raw).rssi == raw.rssi,
        scanned_from(raw).bssid is Some <==> raw.bssid is Some,
        raw.bssid matches Some(b) ==> scanned_from(raw).bssid == Some(b@),
        scanned_from(raw).channel is Some <==> raw.channel is Some,
        raw.channel matches Some(c) ==> 0 <= c <= u32::MAX ==> scanned_from(raw).channel->0 == c,
        raw.ssid matches Some(s) ==> scanned_from(raw).ssid == Some(s@),
        scanned_from(raw).security is Open <==> raw.supported.none,
        forall|rssi: isize|
            #[trigger] scanned_from(RawNetwork { rssi, ..raw }) == (NetworkView {
                rssi: rssi as int,
                ..scanned_from(raw)
            }),
        forall|bssid: Option<String>|
            #[trigger] scanned_from(RawNetwork { bssid, ..raw }) == (NetworkView {
                bssid: scanned_from(RawNetwork { bssid, ..raw }).bssid,
                ..scanned_from(raw)
            }),
        forall|channel: Option<isize>|
            #[trigger] scanned_from(RawNetwork { channel, ..raw }) == (NetworkView {
                channel: scanned_from(RawNetwork { channel, ..raw }).channel,
                ..scanned_from(raw)
            }),
        forall|supported: SupportedSecurity|
            #[trigger] scanned_from(RawNetwork { supported, ..raw }) == (NetworkView {
                security: scanned_from(RawNetwork { supported, ..raw }).security,
                ..scanned_from(raw)
            }),
{
}

/// Every part of a state is taken from the same part of the report, and an
/// interface without a name has an empty one.
pub proof fn a_state_keeps_what_was_reported(raw: RawInterface)
    ensures
        raw.name matches Some(n) ==> state_from(raw).name == n@,
        raw.name is None ==> state_from(raw).name.len() == 0,
        state_from(raw).powered == raw.powered,
        state_from(raw).hw_address is Some <==> raw.hw_address is Some,
        raw.hw_address matches Some(a) ==> state_from(raw).hw_address == Some(a@),
        state_from(raw).bssid is Some <==> raw.bssid is Some,
        raw.bssid matches Some(b) ==> state_from(raw).bssid == Some(b@),
        raw.ssid matches Some(s) ==> state_from(raw).ssid == Some(s@),
        state_from(raw).rssi == raw.rssi,
        state_from(raw).noise == raw.noise,
        state_from(raw).tx_rate_bits == raw.tx_rate_bits,
        state_from(raw).channel is Some <==> raw.channel is Some,
        raw.channel matches Some(c) ==> 0 <= c <= u32::MAX ==> state_from(raw).channel->0 == c,
{
}

/// A name that is reported is the one that is shown. Where it is withheld, the
/// one that is shown is written with exactly the bytes of the name; there is
/// none where there are no such bytes.
pub proof fn a_withheld_name_is_recovered_from_its_bytes(
    reported: String,
    data: Option<Vec<u8>>,
    bytes: Vec<u8>,
)
    ensures
        name_of(Some(reported), data) == Some(reported@),
        name_of(None, None) is None,
        bytes@.len() == 0 ==> name_of(None, Some(bytes)) is None,
        name_of(None, Some(bytes)) is Some <==> bytes@.len() > 0 && vstd::utf8::valid_utf8(bytes@),
        name_of(None, Some(bytes)) matches Some(name) ==> vstd::utf8::encode_utf8(name) == bytes@,
{
    if vstd::utf8::valid_utf8(bytes@) {
        vstd::utf8::decode_utf8_encode_utf8(bytes@);
    }
}

/// Of several networks of one name the first is the one that counts.
pub proof fn the_first_of_a_name_is_found(
    networks: Seq<ScannedNetwork>,
    ssid: Seq<char>,
    i: int,
)
    requires
        0 <= i < networks.len(),
        text::opt_text(networks[i].ssid) == Some(ssid),
        forall|k: int| 0 <= k < i ==> text::opt_text((#[trigger] networks[k]).ssid) != Some(ssid),
    ensures
        first_named(networks, ssid) == Some(networks[i]),
    decreases i,
{
    if i > 0 {
        let rest = networks.skip(1);
        assert(text::opt_text(networks[0].ssid) != Some(ssid));
        assert forall|k: int| 0 <= k < i - 1 implies text::opt_text((#[trigger] rest[k]).ssid)
            != Some(ssid) by {
            assert(rest[k] == networks[k + 1]);
        }
        assert(rest[i - 1] == networks[i]);
        the_first_of_a_name_is_found(rest, ssid, i - 1);
    }
}

/// A network shows no name exactly where it has none or an empty one, and a
/// network that carries a name of some length shows it.
pub proof fn a_blank_network_carries_no_name(n: ScannedNetwork, ssid: Seq<char>)
    ensures
        n.ssid is None ==> n.is_blank() && !n.is_named(ssid),
        n.ssid matches Some(s) ==> (n.is_blank() <==> s@.len() == 0) && (n.is_named(ssid)
            <==> s@ == ssid),
{
}

/// The words of a failed attempt tell the attempts apart and end in the
/// system's own words.
pub proof fn a_failed_attempt_is_named(a: Attempt, b: Attempt)
    ensures
        a != b ==> attempt_words(a) != attempt_words(b),
{
    reveal_strlit("setPower failed: ");
    reveal_strlit("scan failed: ");
    reveal_strlit("directed scan failed: ");
    reveal_strlit("associate failed: ");
    reveal_strlit("enterprise associate failed: ");
    assert(attempt_words(Attempt::SetPower).len() == 17);
    assert(attempt_words(Attempt::Scan).len() == 13);
    assert(attempt_words(Attempt::DirectedScan).len() == 22);
    assert(attempt_words(Attempt::Associate).len() == 18);
    assert(attempt_words(Attempt::EnterpriseAssociate).len() == 29);
}

/// An interface keeps the name that the system reports.
pub proof fn an_interface_keeps_its_name(name: Seq<char>)
    ensures
        name_or_mark(Some(name)) == name,
        name_or_mark(None) == "?"@,
{
}

} // verus!
